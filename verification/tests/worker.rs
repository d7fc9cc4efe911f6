use std::collections::HashMap;
use std::sync::Arc;

use sst_index::backend::Backend;
use sst_index::builder::{IndexerBuilderImpl, RegionMetadata};
use sst_index::config::{
    BloomFilterConfig, FulltextIndexConfig, IndexBuildType, IndexOptions, InvertedIndexConfig,
    InvertedIndexOptions, Mode,
};
use sst_index::file::{FileHandle, FileId, FileMeta, IndexList};
use sst_index::indexer::SstPuffinManager;
use sst_index::scheduler::{IndexBuildScheduler, Scheduler};
use sst_index::task::{IndexBuildJob, IndexBuildTask};
use sst_index::worker::{
    LevelMeta, MitoConfig, MitoRegion, RegionBuildIndexRequest, RegionWorkerLoop, Version,
};

struct Engine;

impl Backend for Engine {
    type AccessLayer = &'static str;
    type FilePurger = FileId;
    type FileDetails = &'static str;
    type RegionSchema = ();
    type WriteCache = &'static str;
    type IntermediateManager = &'static str;
    type RequestSender = &'static str;
    type InvertedIndexer = ();
    type FulltextIndexer = ();
    type BloomFilterIndexer = ();
    type Reader = ();
    type Batch = ();
    type Error = ();
}

type Job = IndexBuildJob<Engine, IndexerBuilderImpl<Engine>>;

type Task = IndexBuildTask<Engine, IndexerBuilderImpl<Engine>>;

const REGION: u64 = 7;

/// Takes every job but those for one file.
struct Queue {
    refused: Option<FileId>,
    jobs: Vec<Job>,
}

impl Scheduler<Job> for Queue {
    type Error = String;

    fn schedule(&mut self, job: Job) -> Result<(), String> {
        let refused = self.refused == Some(job.task.file_meta.file_id);
        self.jobs.push(job);
        if refused {
            Err("full".to_string())
        } else {
            Ok(())
        }
    }
}

fn queue(refused: Option<FileId>) -> Queue {
    Queue { refused, jobs: vec![] }
}

fn meta(file_id: FileId, details: &'static str) -> Arc<FileMeta<Engine>> {
    Arc::new(FileMeta {
        region_id: REGION,
        file_id,
        available_indexes: IndexList::new(),
        index_file_size: 0,
        details: Arc::new(details),
    })
}

fn level(files: Vec<(FileId, &'static str, bool)>) -> LevelMeta<Engine> {
    let mut level = LevelMeta { files: HashMap::new() };
    for (file_id, details, deleted) in files {
        let handle = FileHandle::new(meta(file_id, details), Arc::new(file_id));
        level.files.insert(file_id, FileHandle { deleted, ..handle });
    }
    level
}

fn worker(
    levels: Vec<LevelMeta<Engine>>,
    write_cache: Option<Arc<&'static str>>,
    scheduler: Queue,
) -> RegionWorkerLoop<Engine, Queue> {
    let mut regions = HashMap::new();
    regions.insert(
        REGION,
        MitoRegion {
            region_id: REGION,
            access_layer: Arc::new("access layer"),
            version: Arc::new(Version {
                metadata: Arc::new(RegionMetadata { region_id: REGION, schema: Arc::new(()) }),
                flushed_entry_id: 100,
                flushed_sequence: 200,
                index_options: Arc::new(IndexOptions {
                    inverted_index: InvertedIndexOptions {
                        ignore_column_ids: vec![3],
                        segment_row_count: 512,
                    },
                }),
                levels,
            }),
        },
    );
    RegionWorkerLoop {
        regions,
        config: MitoConfig {
            inverted_index: InvertedIndexConfig {
                create_on_flush: Mode::Auto,
                create_on_compaction: Mode::Disable,
                mem_threshold_on_create: Some(1),
            },
            fulltext_index: FulltextIndexConfig {
                create_on_flush: Mode::Auto,
                create_on_compaction: Mode::Auto,
                compress: false,
                mem_threshold_on_create: Some(2),
            },
            bloom_filter_index: BloomFilterConfig {
                create_on_flush: Mode::Disable,
                create_on_compaction: Mode::Auto,
                mem_threshold_on_create: Some(3),
            },
            row_group_size: 102_400,
        },
        write_cache,
        intermediate_manager: Arc::new("intermediate"),
        sender: Arc::new("sender"),
        index_build_scheduler: IndexBuildScheduler::new(scheduler),
    }
}

fn request(region_id: u64, files: Vec<FileId>) -> RegionBuildIndexRequest<Engine> {
    RegionBuildIndexRequest {
        region_id,
        build_type: IndexBuildType::Compact,
        file_metas: files.into_iter().map(|file_id| meta(file_id, "requested")).collect(),
    }
}

fn two_levels() -> Vec<LevelMeta<Engine>> {
    vec![
        level(vec![(1, "one", false), (2, "two", true), (3, "three", false)]),
        level(vec![(4, "four", false), (3, "three again", false), (1, "gone", true)]),
    ]
}

fn named(meta: &FileMeta<Engine>) -> (FileId, &'static str) {
    (meta.file_id, *meta.details)
}

/// Handles a request, and returns the files of the scheduled tasks in order.
fn scheduled(files: Vec<FileId>) -> Vec<(FileId, &'static str)> {
    let mut worker = worker(two_levels(), None, queue(None));
    let builds = worker.handle_rebuild_index(request(REGION, files));
    assert!(builds.iter().all(|build| build.result.is_ok()));
    let told: Vec<(FileId, &'static str)> =
        builds.iter().map(|build| named(&build.file_meta)).collect();
    let jobs: Vec<(FileId, &'static str)> = worker
        .index_build_scheduler
        .scheduler
        .jobs
        .iter()
        .map(|job| named(&job.task.file_meta))
        .collect();
    assert_eq!(told, jobs);
    jobs
}

#[test]
fn unspecific_request_is_about_every_live_file() {
    let mut files = scheduled(vec![]);
    files.sort();
    assert_eq!(files, vec![(1, "one"), (3, "three again"), (4, "four")]);
}

#[test]
fn named_files_are_scheduled_in_turn() {
    assert_eq!(
        scheduled(vec![4, 2, 9, 3, 4]),
        vec![(4, "four"), (3, "three again"), (4, "four")]
    );
    assert_eq!(scheduled(vec![2]), vec![]);
    assert_eq!(scheduled(vec![1]), vec![(1, "one")]);
}

#[test]
fn unknown_region_has_no_files() {
    let mut worker = worker(two_levels(), None, queue(None));
    assert!(worker.handle_rebuild_index(request(REGION + 1, vec![])).is_empty());
    assert!(worker.handle_rebuild_index(request(REGION + 1, vec![1])).is_empty());
    assert!(worker.rebuild_tasks(&request(REGION + 1, vec![])).is_empty());
    assert!(worker.index_build_scheduler.scheduler.jobs.is_empty());
}

#[test]
fn region_without_files_schedules_nothing() {
    let mut worker = worker(vec![], None, queue(None));
    assert!(worker.handle_rebuild_index(request(REGION, vec![])).is_empty());
    assert!(worker.index_build_scheduler.scheduler.jobs.is_empty());
}

#[test]
fn refused_build_does_not_stop_the_others() {
    let mut worker = worker(two_levels(), None, queue(Some(3)));
    let builds = worker.handle_rebuild_index(request(REGION, vec![1, 3, 4]));
    let results: Vec<Result<(), String>> = builds.into_iter().map(|build| build.result).collect();
    assert_eq!(results, vec![Ok(()), Err("full".to_string()), Ok(())]);
    assert_eq!(worker.index_build_scheduler.scheduler.jobs.len(), 3);
}

#[test]
fn tasks_are_for_live_files() {
    let worker = worker(two_levels(), None, queue(None));
    let tasks = worker.rebuild_tasks(&request(REGION, vec![3, 2, 1]));
    let files: Vec<(FileId, &'static str)> =
        tasks.iter().map(|task| named(&task.file_meta)).collect();
    assert_eq!(files, vec![(3, "three again"), (1, "one")]);
    assert_eq!(*tasks[0].file_purger, 3);
    assert_eq!(tasks[0].indexer_builder.op_type, IndexBuildType::Compact);
}

fn new_task(write_cache: Option<Arc<&'static str>>) -> Task {
    let worker = worker(two_levels(), write_cache, queue(None));
    let region = &worker.regions[&REGION];
    let file = region.version.levels[0].files[&1].clone();
    worker.new_index_build_task(region, file, IndexBuildType::Flush)
}

#[test]
fn task_is_made_from_the_region() {
    let task = new_task(None);
    assert_eq!(task.file_meta.file_id, 1);
    assert_eq!(task.flushed_entry_id, Some(100));
    assert_eq!(task.flushed_sequence, Some(200));
    assert_eq!(*task.access_layer, "access layer");
    assert_eq!(*task.file_purger, 1);
    assert_eq!(*task.request_sender, "sender");

    let builder = &task.indexer_builder;
    assert_eq!(builder.op_type, IndexBuildType::Flush);
    assert_eq!(builder.metadata.region_id, REGION);
    assert_eq!(builder.row_group_size, 102_400);
    assert_eq!(*builder.intermediate_manager, "intermediate");
    assert_eq!(builder.index_options.inverted_index.ignore_column_ids, vec![3]);
    assert_eq!(builder.index_options.inverted_index.segment_row_count, 512);
    assert_eq!(builder.inverted_index_config.mem_threshold_on_create, Some(1));
    assert_eq!(builder.fulltext_index_config.mem_threshold_on_create, Some(2));
    assert_eq!(builder.bloom_filter_index_config.mem_threshold_on_create, Some(3));
    assert!(builder.build_bloom_filter_indexer(1).is_none());
    assert!(builder.build_fulltext_indexer(1).is_some());
}

#[test]
fn puffin_manager_comes_from_the_write_cache_if_there_is_one() {
    match &new_task(Some(Arc::new("cache"))).indexer_builder.puffin_manager {
        SstPuffinManager::WriteCache { write_cache, region_id } => {
            assert_eq!(**write_cache, "cache");
            assert_eq!(*region_id, REGION);
        }
        SstPuffinManager::AccessLayer { .. } => panic!("there is a write cache"),
    }
    match &new_task(None).indexer_builder.puffin_manager {
        SstPuffinManager::AccessLayer { access_layer } => {
            assert_eq!(**access_layer, "access layer");
        }
        SstPuffinManager::WriteCache { .. } => panic!("there is no write cache"),
    }
}
