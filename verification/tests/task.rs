use std::sync::Arc;

use sst_index::backend::Backend;
use sst_index::builder::{BuildAbort, BuildStep, IndexerBuilder};
use sst_index::file::{FileHandle, FileId, FileMeta, IndexList, IndexType};
use sst_index::indexer::Indexer;
use sst_index::output::{IndexBaseOutput, IndexOutput};
use sst_index::scheduler::{IndexBuildScheduler, Scheduler};
use sst_index::task::{IndexBuildJob, IndexBuildStep, IndexBuildTask};

#[derive(Debug)]
struct Engine;

impl Backend for Engine {
    type AccessLayer = &'static str;
    type FilePurger = &'static str;
    type FileDetails = u64;
    type RegionSchema = ();
    type WriteCache = ();
    type IntermediateManager = ();
    type RequestSender = &'static str;
    type InvertedIndexer = ();
    type FulltextIndexer = ();
    type BloomFilterIndexer = Vec<u8>;
    type Reader = Vec<Result<u8, String>>;
    type Batch = u8;
    type Error = String;
}

struct NoIndexes;

impl IndexerBuilder<Engine> for NoIndexes {
    fn build(&self, file_id: FileId) -> BuildStep<Engine> {
        BuildStep::Abort(BuildAbort { indexer: Indexer { file_id, ..Indexer::default() } })
    }
}

fn task() -> IndexBuildTask<Engine, NoIndexes> {
    let mut available_indexes = IndexList::new();
    available_indexes.push(IndexType::FulltextIndex);
    IndexBuildTask {
        file_meta: Arc::new(FileMeta {
            region_id: 11,
            file_id: 22,
            available_indexes,
            index_file_size: 33,
            details: Arc::new(44),
        }),
        flushed_entry_id: Some(55),
        flushed_sequence: None,
        access_layer: Arc::new("access layer"),
        file_purger: Arc::new("purger"),
        indexer_builder: Arc::new(NoIndexes),
        request_sender: Arc::new("sender"),
    }
}

fn output(file_size: u64) -> IndexOutput {
    IndexOutput {
        file_size,
        inverted_index: IndexBaseOutput { index_size: 3, ..IndexBaseOutput::default() },
        bloom_filter: IndexBaseOutput { index_size: 4, ..IndexBaseOutput::default() },
        ..IndexOutput::default()
    }
}

/// Runs a task on a file with the given batches and returns the step after the indexer's output,
/// together with the batches that the indexer took in.
fn run(
    batches: Vec<Result<u8, String>>,
    file_size: u64,
) -> (IndexBuildStep<Engine, NoIndexes>, Vec<u8>) {
    let mut step = task().index_build();
    let mut taken: Vec<u8> = Vec::new();
    loop {
        step = match step {
            IndexBuildStep::Build(building) => {
                match building.build() {
                    BuildStep::Abort(abort) => assert_eq!(abort.indexer.file_id, 22),
                    _ => panic!("this builder makes no index"),
                }
                let indexer =
                    Indexer { bloom_filter_indexer: Some(vec![]), ..Indexer::default() };
                building.built(indexer)
            }
            IndexBuildStep::Open(opening) => {
                assert_eq!(*opening.task.access_layer, "access layer");
                assert_eq!(opening.file.meta.file_id, 22);
                assert_eq!(*opening.file.file_purger, "purger");
                assert!(!opening.file.is_deleted());
                let mut reader = batches.clone();
                reader.reverse();
                opening.opened(Ok(reader))
            }
            IndexBuildStep::Read(mut reading) => {
                let reply = reading.reader.pop().transpose();
                reading.read(reply)
            }
            IndexBuildStep::Update(mut updating) => {
                let batch = updating.batch;
                if let Some(creator) = updating.indexer.bloom_filter_indexer.as_mut() {
                    creator.push(batch);
                }
                IndexBuildStep::Read(updating.updated())
            }
            IndexBuildStep::Finish(finishing) => {
                taken = finishing.indexer.bloom_filter_indexer.clone().unwrap();
                finishing.finished(output(file_size))
            }
            IndexBuildStep::Install(_) | IndexBuildStep::Done(_) => return (step, taken),
        }
    }
}

#[test]
fn every_batch_updates_the_indexer() {
    let (step, taken) = run(vec![Ok(1), Ok(2), Ok(3)], 9);
    assert!(matches!(step, IndexBuildStep::Install(_)));
    assert_eq!(taken, vec![1, 2, 3]);

    let (_, taken) = run(vec![], 9);
    assert!(taken.is_empty());
}

#[test]
fn index_metadata_is_installed() {
    let installing = match run(vec![Ok(1)], 9).0 {
        IndexBuildStep::Install(installing) => installing,
        _ => panic!("an index file was written"),
    };
    let meta = &installing.task.file_meta;
    assert_eq!(meta.region_id, 11);
    assert_eq!(meta.file_id, 22);
    assert_eq!(*meta.details, 44);
    assert_eq!(meta.index_file_size, 9);
    assert_eq!(
        meta.available_indexes.as_slice().to_vec(),
        vec![IndexType::InvertedIndex, IndexType::BloomFilterIndex]
    );

    let request = &installing.request;
    assert_eq!(request.region_id, 11);
    assert_eq!(request.edit.files_to_add.len(), 1);
    assert!(Arc::ptr_eq(&request.edit.files_to_add[0], meta));
    assert!(request.edit.files_to_remove.is_empty());
    assert_eq!(request.edit.flushed_entry_id, Some(55));
    assert_eq!(request.edit.flushed_sequence, None);
    assert_eq!(request.edit.compaction_time_window, None);
    assert_eq!(*installing.task.request_sender, "sender");

    let (request, waiting) = installing.take_request();
    assert_eq!(request.region_id, 11);
    assert_eq!(waiting.task.file_meta.index_file_size, 9);
    assert!(matches!(waiting.replied(), IndexBuildStep::Done(Ok(()))));
}

#[test]
fn region_is_not_edited_without_an_index_file() {
    assert!(matches!(run(vec![Ok(1)], 0).0, IndexBuildStep::Done(Ok(()))));
}

#[test]
fn failed_read_ends_the_task() {
    let (step, taken) = run(vec![Ok(1), Err("corrupt".to_string()), Ok(2)], 9);
    match step {
        IndexBuildStep::Done(Err(error)) => assert_eq!(error, "corrupt"),
        _ => panic!("the error ends the task"),
    }
    assert!(taken.is_empty());
}

#[test]
fn failed_open_ends_the_task() {
    let opening = match task().index_build() {
        IndexBuildStep::Build(building) => match building.built(Indexer::default()) {
            IndexBuildStep::Open(opening) => opening,
            _ => panic!("the file is opened next"),
        },
        _ => panic!("the indexer is built first"),
    };
    match opening.opened(Err("missing".to_string())) {
        IndexBuildStep::Done(Err(error)) => assert_eq!(error, "missing"),
        _ => panic!("the error ends the task"),
    }
}

/// Takes jobs for one file and refuses all others.
#[derive(Clone)]
struct OneFile {
    file_id: FileId,
    seen: Vec<FileId>,
}

impl Scheduler<IndexBuildJob<Engine, NoIndexes>> for OneFile {
    type Error = String;

    fn schedule(&mut self, job: IndexBuildJob<Engine, NoIndexes>) -> Result<(), String> {
        self.seen.push(job.task.file_meta.file_id);
        if job.task.file_meta.file_id == self.file_id {
            Ok(())
        } else {
            Err("stopped".to_string())
        }
    }
}

#[test]
fn scheduler_takes_the_job_of_the_task() {
    let mut scheduler = IndexBuildScheduler::new(OneFile { file_id: 22, seen: vec![] });
    assert_eq!(scheduler.schedule_build(task()), Ok(()));
    assert_eq!(scheduler.scheduler.seen, vec![22]);

    let mut other = task();
    other.file_meta = Arc::new(FileMeta {
        region_id: 11,
        file_id: 23,
        available_indexes: IndexList::new(),
        index_file_size: 0,
        details: Arc::new(0),
    });
    let mut clone = scheduler.clone();
    assert_eq!(clone.schedule_build(other), Err("stopped".to_string()));
    assert_eq!(clone.scheduler.seen, vec![22, 23]);

    // The same file may be scheduled again.
    assert_eq!(scheduler.schedule_build(task()), Ok(()));
    assert_eq!(scheduler.scheduler.seen, vec![22, 22]);
}

#[test]
fn new_handle_is_not_deleted() {
    let handle: FileHandle<Engine> = FileHandle::new(task().file_meta, Arc::new("purger"));
    assert!(!handle.is_deleted());
    assert!(!handle.clone().is_deleted());
    assert!(FileHandle { deleted: true, ..handle }.clone().is_deleted());
}
