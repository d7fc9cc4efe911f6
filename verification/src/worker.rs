//! The part of a region worker that rebuilds indexes on request.
use std::collections::HashMap;
use std::sync::Arc;
use vstd::prelude::*;

use crate::backend::Backend;
use crate::builder::{IndexerBuilderImpl, RegionMetadata};
use crate::config::{
    BloomFilterConfig, FulltextIndexConfig, IndexBuildType, IndexOptions, InvertedIndexConfig,
};
use crate::file::{FileHandle, FileId, FileMeta, RegionId};
use crate::indexer::SstPuffinManager;
use crate::output::IndexOutput;
use crate::scheduler::{IndexBuildScheduler, Scheduler};
use crate::task::{
    EntryId, IndexBuildJob, IndexBuildStep, IndexBuildTask, IndexFinishing, SequenceNumber,
};

verus! {

/// The files of one level of a region.
pub struct LevelMeta<B: Backend> {
    /// The files by id.
    pub files: HashMap<FileId, FileHandle<B>>,
}

/// A region at one moment.
pub struct Version<B: Backend> {
    /// Metadata of the region.
    pub metadata: Arc<RegionMetadata<B>>,
    /// Last log entry that was flushed.
    pub flushed_entry_id: EntryId,
    /// Last sequence number that was flushed.
    pub flushed_sequence: SequenceNumber,
    /// Options of the region's indexes.
    pub index_options: Arc<IndexOptions>,
    /// The levels of the region, from the first on.
    pub levels: Vec<LevelMeta<B>>,
}

/// A region.
pub struct MitoRegion<B: Backend> {
    /// Id of the region.
    pub region_id: RegionId,
    /// Reads and writes the files of the region.
    pub access_layer: Arc<B::AccessLayer>,
    /// The current version of the region.
    pub version: Arc<Version<B>>,
}

/// Settings of all indexes.
#[derive(Debug, Clone, Copy)]
pub struct MitoConfig {
    /// Settings of the inverted index.
    pub inverted_index: InvertedIndexConfig,
    /// Settings of the fulltext index.
    pub fulltext_index: FulltextIndexConfig,
    /// Settings of the bloom filter.
    pub bloom_filter_index: BloomFilterConfig,
    /// Number of rows in a row group that is written with the default options.
    pub row_group_size: usize,
}

/// Asks for the indexes of a region's files to be built.
pub struct RegionBuildIndexRequest<B: Backend> {
    /// Region of the files.
    pub region_id: RegionId,
    /// What the indexes are built for.
    pub build_type: IndexBuildType,
    /// The files; all files of the region if there is none.
    pub file_metas: Vec<Arc<FileMeta<B>>>,
}

/// The files among `files` that are not deleted.
pub open spec fn not_deleted<B: Backend>(files: Map<FileId, FileHandle<B>>) -> Map<
    FileId,
    FileHandle<B>,
> {
    files.restrict(files.dom().filter(|id: FileId| !files[id].deleted))
}

/// The files of a region that are not deleted. Where two levels have one with the same id, it is
/// the one of the later level.
pub open spec fn live_files<B: Backend>(levels: Seq<LevelMeta<B>>) -> Map<FileId, FileHandle<B>>
    decreases levels.len(),
{
    if levels.len() == 0 {
        Map::empty()
    } else {
        live_files(levels.drop_last()).union_prefer_right(not_deleted(levels.last().files@))
    }
}

fn collect_live_files<B: Backend>(levels: &Vec<LevelMeta<B>>) -> (all_files: HashMap<
    FileId,
    FileHandle<B>,
>)
    ensures
        all_files@ == live_files(levels@),
{
    broadcast use vstd::std_specs::hash::group_hash_axioms;

    let mut all_files: HashMap<FileId, FileHandle<B>> = HashMap::new();
    assert(all_files@ =~= live_files(levels@.take(0)));
    for i in 0..levels.len()
        invariant
            all_files@ == live_files(levels@.take(i as int)),
    {
        let level = &levels[i];
        let ghost before = all_files@;
        for (id, handle) in it: level.files.iter()
            invariant
                forall|j: int|
                    0 <= j < it.seq().len() ==> {
                        &&& level.files@.contains_key(*(#[trigger] it.seq()[j]).0)
                        &&& level.files@[*it.seq()[j].0] == *it.seq()[j].1
                    },
                forall|id: FileId| #[trigger]
                    level.files@.contains_key(id) ==> it.seq().contains((&id, &level.files@[id])),
                forall|id: FileId| #[trigger]
                    all_files@.contains_key(id) <==> before.contains_key(id) || exists|j: int|
                        0 <= j < it.index() && *(#[trigger] it.seq()[j]).0 == id
                            && !it.seq()[j].1.deleted,
                forall|id: FileId| #[trigger]
                    all_files@.contains_key(id) ==> all_files@[id] == if exists|j: int|
                        0 <= j < it.index() && *(#[trigger] it.seq()[j]).0 == id
                            && !it.seq()[j].1.deleted {
                        level.files@[id]
                    } else {
                        before[id]
                    },
        {
            if !handle.is_deleted() {
                all_files.insert(*id, handle.clone());
            }
        }
        proof {
            assert(levels@.take(i + 1).drop_last() =~= levels@.take(i as int));
            assert(all_files@ =~= before.union_prefer_right(not_deleted(level.files@)));
        }
    }
    assert(levels@.take(levels@.len() as int) =~= levels@);
    all_files
}

/// Whether `files` holds each file of `all_files` once, in any order.
pub open spec fn holds_each_once<B: Backend>(
    all_files: Map<FileId, FileHandle<B>>,
    files: Seq<FileHandle<B>>,
) -> bool {
    exists|ids: Seq<FileId>| #[trigger]
        ids.no_duplicates() && ids.to_set() == all_files.dom() && files == ids.map_values(
            |id: FileId| all_files[id],
        )
}

/// The files that `file_metas` asks for, as often and in the order in which it asks for them,
/// without those that are not in `all_files`.
pub open spec fn requested_files<B: Backend>(
    all_files: Map<FileId, FileHandle<B>>,
    file_metas: Seq<Arc<FileMeta<B>>>,
) -> Seq<FileHandle<B>> {
    file_metas.map_values(|meta: Arc<FileMeta<B>>| meta.file_id).filter(
        |id: FileId| all_files.contains_key(id),
    ).map_values(|id: FileId| all_files[id])
}

impl<B: Backend> RegionBuildIndexRequest<B> {
    /// Whether `files` are the files that this request is about in a region with these levels.
    pub open spec fn selects(self, levels: Seq<LevelMeta<B>>, files: Seq<FileHandle<B>>) -> bool {
        if self.file_metas@.len() == 0 {
            holds_each_once(live_files(levels), files)
        } else {
            files == requested_files(live_files(levels), self.file_metas@)
        }
    }

    /// The files that this request is about.
    pub fn select_files(&self, version: &Version<B>) -> (files: Vec<FileHandle<B>>)
        ensures
            self.selects(version.levels@, files@),
    {
        let all_files = collect_live_files(&version.levels);
        if self.file_metas.len() == 0 {
            all_values(&all_files)
        } else {
            find_requested(&all_files, &self.file_metas)
        }
    }
}

fn all_values<B: Backend>(all_files: &HashMap<FileId, FileHandle<B>>) -> (files: Vec<
    FileHandle<B>,
>)
    ensures
        holds_each_once(all_files@, files@),
{
    broadcast use vstd::std_specs::hash::group_hash_axioms;

    let mut files: Vec<FileHandle<B>> = Vec::new();
    let ghost mut ids: Seq<FileId> = seq![];
    for (id, handle) in it: all_files.iter()
        invariant
            forall|j: int|
                0 <= j < it.seq().len() ==> {
                    &&& all_files@.contains_key(*(#[trigger] it.seq()[j]).0)
                    &&& all_files@[*it.seq()[j].0] == *it.seq()[j].1
                },
            forall|id: FileId| #[trigger]
                all_files@.contains_key(id) ==> it.seq().contains((&id, &all_files@[id])),
            it.seq().no_duplicates(),
            ids.len() == it.index(),
            files@.len() == it.index(),
            forall|j: int|
                #![trigger ids[j]]
                #![trigger it.seq()[j]]
                0 <= j < it.index() ==> ids[j] == *it.seq()[j].0 && files@[j] == *it.seq()[j].1,
    {
        files.push(handle.clone());
        proof {
            ids = ids.push(*id);
        }
    }
    proof {
        assert(files@ =~= ids.map_values(|id: FileId| all_files@[id]));
        assert(ids.to_set() =~= all_files@.dom());
        assert(ids.no_duplicates());
    }
    files
}

fn find_requested<B: Backend>(
    all_files: &HashMap<FileId, FileHandle<B>>,
    file_metas: &Vec<Arc<FileMeta<B>>>,
) -> (files: Vec<FileHandle<B>>)
    ensures
        files@ == requested_files(all_files@, file_metas@),
{
    broadcast use vstd::std_specs::hash::group_hash_axioms;

    let mut files: Vec<FileHandle<B>> = Vec::new();
    let ghost wanted = file_metas@.map_values(|meta: Arc<FileMeta<B>>| meta.file_id);
    let ghost known = |id: FileId| all_files@.contains_key(id);
    let ghost file_of = |id: FileId| all_files@[id];
    assert(wanted.take(0).filter(known) =~= seq![]) by {
        reveal(Seq::filter);
    }
    for i in 0..file_metas.len()
        invariant
            wanted == file_metas@.map_values(|meta: Arc<FileMeta<B>>| meta.file_id),
            known == (|id: FileId| all_files@.contains_key(id)),
            file_of == (|id: FileId| all_files@[id]),
            files@ == wanted.take(i as int).filter(known).map_values(file_of),
    {
        let file_id: FileId = file_metas[i].file_id;
        proof {
            reveal(Seq::filter);
            assert(wanted.take(i + 1).drop_last() =~= wanted.take(i as int));
        }
        if let Some(handle) = all_files.get(&file_id) {
            files.push(handle.clone());
        }
        assert(files@ =~= wanted.take(i + 1).filter(known).map_values(file_of));
    }
    assert(wanted.take(wanted.len() as int) =~= wanted);
    files
}

/// What became of a file that an index build was scheduled for.
pub struct ScheduledBuild<B: Backend, E> {
    /// Metadata of the file.
    pub file_meta: Arc<FileMeta<B>>,
    /// The scheduler's answer.
    pub result: Result<(), E>,
}

/// Whether `states` goes from `first` to `last` in `steps` steps.
pub open spec fn leads<S>(states: Seq<S>, first: S, last: S, steps: nat) -> bool {
    &&& states.len() == steps + 1
    &&& states[0] == first
    &&& states[steps as int] == last
}

/// The worker of some regions, as far as building their indexes goes.
pub struct RegionWorkerLoop<B: Backend, S> {
    /// The regions by id.
    pub regions: HashMap<RegionId, MitoRegion<B>>,
    /// Settings of the indexes.
    pub config: MitoConfig,
    /// The cache that the regions are written through, if there is one.
    pub write_cache: Option<Arc<B::WriteCache>>,
    /// Holds the intermediate files of the indexes.
    pub intermediate_manager: Arc<B::IntermediateManager>,
    /// Carries requests to this worker.
    pub sender: Arc<B::RequestSender>,
    /// Schedules the index builds.
    pub index_build_scheduler: IndexBuildScheduler<S>,
}

impl<B: Backend, S> RegionWorkerLoop<B, S> {
    /// Who builds the puffin manager for the indexes of `region`: the write cache where there is
    /// one, and otherwise the region's access layer.
    pub open spec fn puffin_manager(self, region: MitoRegion<B>) -> SstPuffinManager<B> {
        match self.write_cache {
            Some(write_cache) => SstPuffinManager::WriteCache {
                write_cache,
                region_id: region.region_id,
            },
            None => SstPuffinManager::AccessLayer { access_layer: region.access_layer },
        }
    }

    /// The task that builds the index of `file` in `region`.
    pub open spec fn task_for(
        self,
        region: MitoRegion<B>,
        file: FileHandle<B>,
        build_type: IndexBuildType,
    ) -> IndexBuildTask<B, IndexerBuilderImpl<B>> {
        IndexBuildTask {
            file_meta: file.meta,
            flushed_entry_id: Some(region.version.flushed_entry_id),
            flushed_sequence: Some(region.version.flushed_sequence),
            access_layer: region.access_layer,
            file_purger: file.file_purger,
            indexer_builder: Arc::new(
                IndexerBuilderImpl {
                    op_type: build_type,
                    metadata: region.version.metadata,
                    row_group_size: self.config.row_group_size,
                    puffin_manager: self.puffin_manager(region),
                    intermediate_manager: self.intermediate_manager,
                    index_options: region.version.index_options,
                    inverted_index_config: self.config.inverted_index,
                    fulltext_index_config: self.config.fulltext_index,
                    bloom_filter_index_config: self.config.bloom_filter_index,
                },
            ),
            request_sender: self.sender,
        }
    }

    /// Makes the task that builds the index of `file` in `region`.
    pub fn new_index_build_task(
        &self,
        region: &MitoRegion<B>,
        file: FileHandle<B>,
        build_type: IndexBuildType,
    ) -> (task: IndexBuildTask<B, IndexerBuilderImpl<B>>)
        ensures
            task == self.task_for(*region, file, build_type),
    {
        let access_layer = region.access_layer.clone();
        let puffin_manager = match &self.write_cache {
            Some(write_cache) => SstPuffinManager::WriteCache {
                write_cache: write_cache.clone(),
                region_id: region.region_id,
            },
            None => SstPuffinManager::AccessLayer { access_layer: access_layer.clone() },
        };
        let indexer_builder = Arc::new(
            IndexerBuilderImpl {
                op_type: build_type,
                metadata: region.version.metadata.clone(),
                row_group_size: self.config.row_group_size,
                puffin_manager,
                intermediate_manager: self.intermediate_manager.clone(),
                index_options: region.version.index_options.clone(),
                inverted_index_config: self.config.inverted_index,
                fulltext_index_config: self.config.fulltext_index,
                bloom_filter_index_config: self.config.bloom_filter_index,
            },
        );
        IndexBuildTask {
            file_meta: file.meta.clone(),
            flushed_entry_id: Some(region.version.flushed_entry_id),
            flushed_sequence: Some(region.version.flushed_sequence),
            access_layer,
            file_purger: file.file_purger.clone(),
            indexer_builder,
            request_sender: self.sender.clone(),
        }
    }

    /// The tasks that build the indexes of `files` in `region`, one for each, in order.
    pub open spec fn tasks_for(
        self,
        region: MitoRegion<B>,
        files: Seq<FileHandle<B>>,
        build_type: IndexBuildType,
    ) -> Seq<IndexBuildTask<B, IndexerBuilderImpl<B>>> {
        files.map_values(|file: FileHandle<B>| self.task_for(region, file, build_type))
    }

    /// The tasks that `request` asks for: one for each file that it is about. Of a region that
    /// the worker does not have, there are no files.
    pub fn rebuild_tasks(&self, request: &RegionBuildIndexRequest<B>) -> (tasks: Vec<
        IndexBuildTask<B, IndexerBuilderImpl<B>>,
    >)
        ensures
            !self.regions@.contains_key(request.region_id) ==> tasks@.len() == 0,
            self.regions@.contains_key(request.region_id) ==> exists|files: Seq<FileHandle<B>>|
                {
                    &&& #[trigger] request.selects(
                        self.regions@[request.region_id].version.levels@,
                        files,
                    )
                    &&& tasks@ == self.tasks_for(
                        self.regions@[request.region_id],
                        files,
                        request.build_type,
                    )
                },
    {
        broadcast use vstd::std_specs::hash::group_hash_axioms;

        let mut tasks: Vec<IndexBuildTask<B, IndexerBuilderImpl<B>>> = Vec::new();
        let region = match self.regions.get(&request.region_id) {
            Some(region) => region,
            None => {
                return tasks;
            },
        };
        let files = request.select_files(&region.version);
        for i in 0..files.len()
            invariant
                tasks@.len() == i,
                forall|j: int|
                    0 <= j < i ==> #[trigger] tasks@[j] == self.task_for(
                        *region,
                        files@[j],
                        request.build_type,
                    ),
        {
            tasks.push(self.new_index_build_task(region, files[i].clone(), request.build_type));
        }
        assert(tasks@ =~= self.tasks_for(*region, files@, request.build_type));
        tasks
    }

    /// Schedules an index build for each file that `request` is about, and tells what the
    /// scheduler answered for each. A refused build does not keep the others from being scheduled.
    /// Of a region that the worker does not have, there are no files.
    ///
    /// The scheduler goes from the state before to the state after by the calls for these tasks:
    /// one call for each, in order, and no other.
    pub fn handle_rebuild_index(&mut self, request: RegionBuildIndexRequest<B>) -> (scheduled: Vec<
        ScheduledBuild<B, S::Error>,
    >) where S: Scheduler<IndexBuildJob<B, IndexerBuilderImpl<B>>>
        ensures
            *final(self) == (RegionWorkerLoop {
                index_build_scheduler: final(self).index_build_scheduler,
                ..*old(self)
            }),
            !old(self).regions@.contains_key(request.region_id) ==> {
                &&& scheduled@.len() == 0
                &&& *final(self) == *old(self)
            },
            old(self).regions@.contains_key(request.region_id) ==> exists|
                files: Seq<FileHandle<B>>,
                states: Seq<S>,
            |
                {
                    let tasks = old(self).tasks_for(
                        old(self).regions@[request.region_id],
                        files,
                        request.build_type,
                    );
                    &&& #[trigger] request.selects(
                        old(self).regions@[request.region_id].version.levels@,
                        files,
                    )
                    &&& scheduled@.len() == files.len()
                    &&& #[trigger] leads(
                        states,
                        old(self).index_build_scheduler.scheduler,
                        final(self).index_build_scheduler.scheduler,
                        files.len(),
                    )
                    &&& forall|i: int|
                        0 <= i < files.len() ==> {
                            &&& (#[trigger] scheduled@[i]).file_meta == files[i].meta
                            &&& exists|call: &mut S|
                                {
                                    &&& *call == states[i]
                                    &&& *final(call) == states[i + 1]
                                    &&& #[trigger] call_ensures(
                                        S::schedule,
                                        (call, IndexBuildJob { task: tasks[i] }),
                                        scheduled@[i].result,
                                    )
                                }
                        }
                },
    {
        let mut tasks = self.rebuild_tasks(&request);
        let ghost all = tasks@;
        let ghost this = *self;
        let ghost mut states: Seq<S> = seq![self.index_build_scheduler.scheduler];
        let mut scheduled: Vec<ScheduledBuild<B, S::Error>> = Vec::new();
        while tasks.len() > 0
            invariant
                scheduled@.len() <= all.len(),
                tasks@ == all.skip(scheduled@.len() as int),
                *self == (RegionWorkerLoop {
                    index_build_scheduler: self.index_build_scheduler,
                    ..this
                }),
                leads(
                    states,
                    this.index_build_scheduler.scheduler,
                    self.index_build_scheduler.scheduler,
                    scheduled@.len(),
                ),
                forall|i: int|
                    0 <= i < scheduled@.len() ==> {
                        &&& (#[trigger] scheduled@[i]).file_meta == all[i].file_meta
                        &&& exists|call: &mut S|
                            {
                                &&& *call == states[i]
                                &&& *final(call) == states[i + 1]
                                &&& #[trigger] call_ensures(
                                    S::schedule,
                                    (call, IndexBuildJob { task: all[i] }),
                                    scheduled@[i].result,
                                )
                            }
                    },
            decreases tasks.len(),
        {
            let ghost recorded = scheduled@;
            let ghost passed = states;
            let task = tasks.remove(0);
            let file_meta = task.file_meta.clone();
            let result = self.index_build_scheduler.schedule_build(task);
            scheduled.push(ScheduledBuild { file_meta, result });
            proof {
                states = states.push(self.index_build_scheduler.scheduler);
                assert forall|i: int| 0 <= i < scheduled@.len() implies {
                    &&& (#[trigger] scheduled@[i]).file_meta == all[i].file_meta
                    &&& exists|call: &mut S|
                        {
                            &&& *call == states[i]
                            &&& *final(call) == states[i + 1]
                            &&& #[trigger] call_ensures(
                                S::schedule,
                                (call, IndexBuildJob { task: all[i] }),
                                scheduled@[i].result,
                            )
                        }
                } by {
                    if i < recorded.len() {
                        assert(scheduled@[i] == recorded[i]);
                        assert(states[i] == passed[i] && states[i + 1] == passed[i + 1]);
                    } else {
                        assert(all[i] == task);
                    }
                }
            }
        }
        scheduled
    }
}

/// Whether level `i` is the last that has the file `id` undeleted.
pub open spec fn last_level_with<B: Backend>(
    levels: Seq<LevelMeta<B>>,
    id: FileId,
    i: int,
) -> bool {
    &&& 0 <= i < levels.len()
    &&& not_deleted(levels[i].files@).contains_key(id)
    &&& forall|j: int|
        i < j < levels.len() ==> !not_deleted((#[trigger] levels[j]).files@).contains_key(id)
}

/// A file that some level has undeleted is live, as the last such level has it.
pub proof fn law_last_level_decides<B: Backend>(levels: Seq<LevelMeta<B>>, id: FileId, i: int)
    requires
        last_level_with(levels, id, i),
    ensures
        live_files(levels).contains_key(id),
        live_files(levels)[id] == levels[i].files@[id],
    decreases levels.len(),
{
    if i < levels.len() - 1 {
        assert(levels[levels.len() - 1] == levels.last());
        law_last_level_decides(levels.drop_last(), id, i);
    }
}

/// A live file is a file that some level has undeleted.
pub proof fn law_live_files_come_from_a_level<B: Backend>(levels: Seq<LevelMeta<B>>, id: FileId)
    requires
        live_files(levels).contains_key(id),
    ensures
        exists|i: int| last_level_with(levels, id, i),
    decreases levels.len(),
{
    if not_deleted(levels.last().files@).contains_key(id) {
        assert(last_level_with(levels, id, levels.len() - 1));
    } else {
        law_live_files_come_from_a_level(levels.drop_last(), id);
        let i = choose|i: int| last_level_with(levels.drop_last(), id, i);
        assert forall|j: int| i < j < levels.len() implies !not_deleted(
            (#[trigger] levels[j]).files@,
        ).contains_key(id) by {
            if j < levels.len() - 1 {
                assert(levels.drop_last()[j] == levels[j]);
            }
        }
        assert(last_level_with(levels, id, i));
    }
}

/// A live file is not deleted.
pub proof fn law_live_files_are_not_deleted<B: Backend>(levels: Seq<LevelMeta<B>>, id: FileId)
    requires
        live_files(levels).contains_key(id),
    ensures
        !live_files(levels)[id].deleted,
    decreases levels.len(),
{
    if levels.len() > 0 && !not_deleted(levels.last().files@).contains_key(id) {
        law_live_files_are_not_deleted(levels.drop_last(), id);
    }
}

/// A request selects no file that is deleted, and none that the region does not have.
pub proof fn law_only_live_files_are_selected<B: Backend>(
    request: RegionBuildIndexRequest<B>,
    levels: Seq<LevelMeta<B>>,
    files: Seq<FileHandle<B>>,
    i: int,
)
    requires
        request.selects(levels, files),
        0 <= i < files.len(),
    ensures
        !files[i].deleted,
        exists|id: FileId| #[trigger]
            live_files(levels).contains_key(id) && live_files(levels)[id] == files[i],
{
    let all_files = live_files(levels);
    if request.file_metas@.len() == 0 {
        let ids = choose|ids: Seq<FileId>| #[trigger]
            ids.no_duplicates() && ids.to_set() == all_files.dom() && files == ids.map_values(
                |id: FileId| all_files[id],
            );
        assert(ids.to_set().contains(ids[i]));
        law_live_files_are_not_deleted(levels, ids[i]);
    } else {
        let wanted = request.file_metas@.map_values(|meta: Arc<FileMeta<B>>| meta.file_id);
        let known = |id: FileId| all_files.contains_key(id);
        let ids = wanted.filter(known);
        wanted.lemma_filter_pred(known, i);
        law_live_files_are_not_deleted(levels, ids[i]);
    }
}

/// No task that comes of a request is for a deleted file, or for a file that the region does not
/// have.
pub proof fn law_tasks_are_for_live_files<B: Backend, S>(
    worker: RegionWorkerLoop<B, S>,
    region: MitoRegion<B>,
    request: RegionBuildIndexRequest<B>,
    files: Seq<FileHandle<B>>,
    i: int,
)
    requires
        request.selects(region.version.levels@, files),
        0 <= i < worker.tasks_for(region, files, request.build_type).len(),
    ensures
        exists|id: FileId| #[trigger]
            live_files(region.version.levels@).contains_key(id) && {
                let file = live_files(region.version.levels@)[id];
                &&& !file.deleted
                &&& worker.tasks_for(region, files, request.build_type)[i].file_meta == file.meta
                &&& worker.tasks_for(region, files, request.build_type)[i].file_purger
                    == file.file_purger
            },
{
    law_only_live_files_are_selected(request, region.version.levels@, files, i);
}

/// A request that names no file is about every live file of the region, and about each once.
pub proof fn law_unspecific_request_selects_every_live_file<B: Backend>(
    request: RegionBuildIndexRequest<B>,
    levels: Seq<LevelMeta<B>>,
    files: Seq<FileHandle<B>>,
)
    requires
        request.file_metas@.len() == 0,
        request.selects(levels, files),
    ensures
        files.len() == live_files(levels).dom().len(),
        forall|id: FileId| #[trigger]
            live_files(levels).contains_key(id) ==> files.contains(live_files(levels)[id]),
{
    let all_files = live_files(levels);
    let ids = choose|ids: Seq<FileId>| #[trigger]
        ids.no_duplicates() && ids.to_set() == all_files.dom() && files == ids.map_values(
            |id: FileId| all_files[id],
        );
    ids.unique_seq_to_set();
    assert forall|id: FileId| #[trigger] all_files.contains_key(id) implies files.contains(
        all_files[id],
    ) by {
        assert(ids.to_set().contains(id));
        let i = choose|i: int| 0 <= i < ids.len() && ids[i] == id;
        assert(files[i] == all_files[id]);
    }
}

/// The files that a request names are looked up one by one: a live one is selected each time that
/// it is named, in its turn, and any other is passed over.
pub proof fn law_named_files_are_selected_in_turn<B: Backend>(
    all_files: Map<FileId, FileHandle<B>>,
    file_metas: Seq<Arc<FileMeta<B>>>,
    meta: Arc<FileMeta<B>>,
)
    ensures
        requested_files(all_files, file_metas.push(meta)) == requested_files(all_files, file_metas)
            + if all_files.contains_key(meta.file_id) {
            seq![all_files[meta.file_id]]
        } else {
            seq![]
        },
        requested_files(all_files, Seq::<Arc<FileMeta<B>>>::empty()) == Seq::<
            FileHandle<B>,
        >::empty(),
{
    reveal(Seq::filter);
    let id_of = |meta: Arc<FileMeta<B>>| meta.file_id;
    let known = |id: FileId| all_files.contains_key(id);
    let wanted = file_metas.push(meta).map_values(id_of);
    assert(wanted.drop_last() =~= file_metas.map_values(id_of));
    assert(Seq::<Arc<FileMeta<B>>>::empty().map_values(id_of) =~= Seq::<FileId>::empty());
    assert(requested_files(all_files, file_metas.push(meta)) =~= requested_files(
        all_files,
        file_metas,
    ) + if all_files.contains_key(meta.file_id) {
        seq![all_files[meta.file_id]]
    } else {
        seq![]
    });
    assert(requested_files(all_files, Seq::<Arc<FileMeta<B>>>::empty()) =~= Seq::<
        FileHandle<B>,
    >::empty());
}

/// Rebuilding the index of a file changes nothing in its region but what is recorded of that file's
/// indexes: the edit, where there is one, adds the same file again and removes none.
pub proof fn law_rebuild_edits_only_its_file<B: Backend, S>(
    worker: RegionWorkerLoop<B, S>,
    region: MitoRegion<B>,
    file: FileHandle<B>,
    build_type: IndexBuildType,
    finishing: IndexFinishing<B, IndexerBuilderImpl<B>>,
    output: IndexOutput,
    step: IndexBuildStep<B, IndexerBuilderImpl<B>>,
)
    requires
        finishing.task == worker.task_for(region, file, build_type),
        finishing.leads_to(output, step),
    ensures
        step matches IndexBuildStep::Install(installing) ==> {
            let edit = installing.request.edit;
            &&& installing.request.region_id == file.meta.region_id
            &&& edit.files_to_add@.len() == 1
            &&& edit.files_to_add@[0].region_id == file.meta.region_id
            &&& edit.files_to_add@[0].file_id == file.meta.file_id
            &&& edit.files_to_add@[0].details == file.meta.details
            &&& edit.files_to_add@[0].available_indexes@ == output.created()
            &&& edit.files_to_add@[0].index_file_size == output.file_size
            &&& edit.files_to_remove@.len() == 0
            &&& edit.flushed_entry_id == Some(region.version.flushed_entry_id)
            &&& edit.flushed_sequence == Some(region.version.flushed_sequence)
        },
{
}

/// A file is live exactly where some level has it with its `deleted` flag unset: nothing else about
/// the file matters, be it that it has an index already.
pub proof fn law_every_undeleted_file_is_live<B: Backend>(levels: Seq<LevelMeta<B>>, id: FileId)
    ensures
        live_files(levels).contains_key(id) <==> exists|i: int|
            0 <= i < levels.len() && (#[trigger] levels[i]).files@.contains_key(id)
                && !levels[i].files@[id].deleted,
    decreases levels.len(),
{
    if levels.len() > 0 {
        let before = levels.drop_last();
        law_every_undeleted_file_is_live(before, id);
        if levels.last().files@.contains_key(id) && !levels.last().files@[id].deleted {
            assert(levels[levels.len() - 1] == levels.last());
        } else if live_files(before).contains_key(id) {
            let i = choose|i: int|
                0 <= i < before.len() && (#[trigger] before[i]).files@.contains_key(id)
                    && !before[i].files@[id].deleted;
            assert(levels[i] == before[i]);
        } else {
            assert forall|i: int| 0 <= i < levels.len() implies !(
            (#[trigger] levels[i]).files@.contains_key(id) && !levels[i].files@[id].deleted) by {
                if i < levels.len() - 1 {
                    assert(before[i] == levels[i]);
                }
            }
        }
    }
}

/// Where level `i` has a file undeleted and no later level does, the live file is the one of that
/// level.
pub proof fn law_latest_undeleted_file_is_the_live_one<B: Backend>(
    levels: Seq<LevelMeta<B>>,
    id: FileId,
    i: int,
)
    requires
        0 <= i < levels.len(),
        levels[i].files@.contains_key(id),
        !levels[i].files@[id].deleted,
        forall|j: int|
            i < j < levels.len() && (#[trigger] levels[j]).files@.contains_key(id)
                ==> levels[j].files@[id].deleted,
    ensures
        live_files(levels).contains_key(id),
        live_files(levels)[id] == levels[i].files@[id],
    decreases levels.len(),
{
    if i < levels.len() - 1 {
        let before = levels.drop_last();
        assert(levels[levels.len() - 1] == levels.last());
        assert forall|j: int|
            i < j < before.len() && (#[trigger] before[j]).files@.contains_key(
                id,
            ) implies before[j].files@[id].deleted by {
            assert(before[j] == levels[j]);
        }
        law_latest_undeleted_file_is_the_live_one(before, id, i);
    }
}

/// A request that names no file is about every file that some level has undeleted: there are as
/// many files as there are such ids, the live file of each is among them, and there is no other.
pub proof fn law_request_for_all_is_about_all<B: Backend>(
    request: RegionBuildIndexRequest<B>,
    levels: Seq<LevelMeta<B>>,
    files: Seq<FileHandle<B>>,
)
    requires
        request.file_metas@.len() == 0,
        request.selects(levels, files),
    ensures
        files.len() == live_files(levels).dom().len(),
        forall|id: FileId, i: int|
            0 <= i < levels.len() && (#[trigger] levels[i].files@.contains_key(id))
                && !levels[i].files@[id].deleted ==> files.contains(live_files(levels)[id]),
        forall|file: FileHandle<B>| #[trigger]
            files.contains(file) ==> exists|id: FileId, i: int|
                0 <= i < levels.len() && (#[trigger] levels[i].files@.contains_key(id))
                    && !levels[i].files@[id].deleted && file == live_files(levels)[id],
{
    let all_files = live_files(levels);
    law_unspecific_request_selects_every_live_file(request, levels, files);
    assert forall|id: FileId, i: int|
        0 <= i < levels.len() && (#[trigger] levels[i].files@.contains_key(id))
            && !levels[i].files@[id].deleted implies files.contains(all_files[id]) by {
        law_every_undeleted_file_is_live(levels, id);
    }
    assert forall|file: FileHandle<B>| #[trigger]
        files.contains(file) implies exists|id: FileId, i: int|
        0 <= i < levels.len() && (#[trigger] levels[i].files@.contains_key(id))
            && !levels[i].files@[id].deleted && file == all_files[id] by {
        let k = files.index_of(file);
        law_only_live_files_are_selected(request, levels, files, k);
        let id = choose|id: FileId| #[trigger]
            all_files.contains_key(id) && all_files[id] == files[k];
        law_every_undeleted_file_is_live(levels, id);
        let i = choose|i: int|
            0 <= i < levels.len() && (#[trigger] levels[i]).files@.contains_key(id)
                && !levels[i].files@[id].deleted;
        assert(levels[i].files@.contains_key(id));
    }
}

/// A request that names files is about exactly the live ones among them: the file of each name that
/// some level has undeleted is among the files, each file belongs to such a name, and there are as
/// many files as such names, a name counting each time that it is given.
pub proof fn law_request_for_some_is_about_those<B: Backend>(
    request: RegionBuildIndexRequest<B>,
    levels: Seq<LevelMeta<B>>,
    files: Seq<FileHandle<B>>,
)
    requires
        request.file_metas@.len() > 0,
        request.selects(levels, files),
    ensures
        forall|k: int|
            0 <= k < request.file_metas@.len() && live_files(levels).contains_key(
                (#[trigger] request.file_metas@[k]).file_id,
            ) ==> files.contains(live_files(levels)[request.file_metas@[k].file_id]),
        forall|file: FileHandle<B>| #[trigger]
            files.contains(file) ==> exists|k: int|
                0 <= k < request.file_metas@.len() && live_files(levels).contains_key(
                    (#[trigger] request.file_metas@[k]).file_id,
                ) && file == live_files(levels)[request.file_metas@[k].file_id],
        files.len() == request.file_metas@.filter(
            |meta: Arc<FileMeta<B>>| live_files(levels).contains_key(meta.file_id),
        ).len(),
{
    let all_files = live_files(levels);
    lemma_requested_files(all_files, request.file_metas@);
    assert(files == requested_files(all_files, request.file_metas@));
}

proof fn lemma_requested_files<B: Backend>(
    all_files: Map<FileId, FileHandle<B>>,
    file_metas: Seq<Arc<FileMeta<B>>>,
)
    ensures
        forall|k: int|
            0 <= k < file_metas.len() && all_files.contains_key(
                (#[trigger] file_metas[k]).file_id,
            ) ==> requested_files(all_files, file_metas).contains(
                all_files[file_metas[k].file_id],
            ),
        forall|file: FileHandle<B>| #[trigger]
            requested_files(all_files, file_metas).contains(file) ==> exists|k: int|
                0 <= k < file_metas.len() && all_files.contains_key(
                    (#[trigger] file_metas[k]).file_id,
                ) && file == all_files[file_metas[k].file_id],
        requested_files(all_files, file_metas).len() == file_metas.filter(
            |meta: Arc<FileMeta<B>>| all_files.contains_key(meta.file_id),
        ).len(),
    decreases file_metas.len(),
{
    reveal(Seq::filter);
    let known = |meta: Arc<FileMeta<B>>| all_files.contains_key(meta.file_id);
    let files = requested_files(all_files, file_metas);
    if file_metas.len() == 0 {
        assert(file_metas =~= Seq::<Arc<FileMeta<B>>>::empty());
        let meta: Arc<FileMeta<B>> = arbitrary();
        law_named_files_are_selected_in_turn(all_files, file_metas, meta);
    } else {
        let before = file_metas.drop_last();
        let last = file_metas.last();
        let earlier = requested_files(all_files, before);
        assert(before.push(last) =~= file_metas);
        law_named_files_are_selected_in_turn(all_files, before, last);
        lemma_requested_files(all_files, before);
        assert forall|k: int|
            0 <= k < file_metas.len() && all_files.contains_key(
                (#[trigger] file_metas[k]).file_id,
            ) implies files.contains(all_files[file_metas[k].file_id]) by {
            if k < before.len() {
                assert(before[k] == file_metas[k]);
                let n = choose|n: int|
                    0 <= n < earlier.len() && earlier[n] == all_files[before[k].file_id];
                assert(files[n] == earlier[n]);
            } else {
                assert(files[files.len() - 1] == all_files[last.file_id]);
            }
        }
        assert forall|file: FileHandle<B>| #[trigger]
            files.contains(file) implies exists|k: int|
            0 <= k < file_metas.len() && all_files.contains_key(
                (#[trigger] file_metas[k]).file_id,
            ) && file == all_files[file_metas[k].file_id] by {
            let n = files.index_of(file);
            if n < earlier.len() {
                assert(files[n] == earlier[n]);
                assert(earlier.contains(file));
                let k = choose|k: int|
                    0 <= k < before.len() && all_files.contains_key(
                        (#[trigger] before[k]).file_id,
                    ) && file == all_files[before[k].file_id];
                assert(file_metas[k] == before[k]);
            } else {
                assert(file_metas[file_metas.len() - 1] == last);
            }
        }
    }
}

/// A task is for its file, with the purger of that file, and reads through the access layer of the
/// region. It passes on what the region has flushed and sends to the worker's own channel. Its
/// builder has the metadata and options of the region's version, the row group size and the
/// services of the worker, and builds for the operation that was asked for.
pub proof fn law_task_is_made_from_its_region_and_worker<B: Backend, S>(
    worker: RegionWorkerLoop<B, S>,
    region: MitoRegion<B>,
    file: FileHandle<B>,
    build_type: IndexBuildType,
)
    ensures
        ({
            let task = worker.task_for(region, file, build_type);
            let builder = *task.indexer_builder;
            &&& task.file_meta == file.meta
            &&& task.file_purger == file.file_purger
            &&& task.access_layer == region.access_layer
            &&& task.flushed_entry_id == Some(region.version.flushed_entry_id)
            &&& task.flushed_sequence == Some(region.version.flushed_sequence)
            &&& task.request_sender == worker.sender
            &&& builder.op_type == build_type
            &&& builder.metadata == region.version.metadata
            &&& builder.index_options == region.version.index_options
            &&& builder.row_group_size == worker.config.row_group_size
            &&& builder.intermediate_manager == worker.intermediate_manager
            &&& worker.write_cache matches Some(cache) ==> (
            builder.puffin_manager matches SstPuffinManager::WriteCache { write_cache, region_id }
                && write_cache == cache && region_id == region.region_id)
            &&& worker.write_cache is None ==> (
            builder.puffin_manager matches SstPuffinManager::AccessLayer { access_layer }
                && access_layer == region.access_layer)
        }),
{
}

/// The builder of a task has the worker's own settings of each index: each mode, each memory
/// threshold, and whether to compress.
pub proof fn law_task_has_the_settings_of_its_worker<B: Backend, S>(
    worker: RegionWorkerLoop<B, S>,
    region: MitoRegion<B>,
    file: FileHandle<B>,
    build_type: IndexBuildType,
)
    ensures
        ({
            let builder = *worker.task_for(region, file, build_type).indexer_builder;
            let inverted = builder.inverted_index_config;
            let fulltext = builder.fulltext_index_config;
            let bloom_filter = builder.bloom_filter_index_config;
            let config = worker.config;
            &&& inverted.create_on_flush == config.inverted_index.create_on_flush
            &&& inverted.create_on_compaction == config.inverted_index.create_on_compaction
            &&& inverted.mem_threshold_on_create == config.inverted_index.mem_threshold_on_create
            &&& fulltext.create_on_flush == config.fulltext_index.create_on_flush
            &&& fulltext.create_on_compaction == config.fulltext_index.create_on_compaction
            &&& fulltext.compress == config.fulltext_index.compress
            &&& fulltext.mem_threshold_on_create == config.fulltext_index.mem_threshold_on_create
            &&& bloom_filter.create_on_flush == config.bloom_filter_index.create_on_flush
            &&& bloom_filter.create_on_compaction == config.bloom_filter_index.create_on_compaction
            &&& bloom_filter.mem_threshold_on_create
                == config.bloom_filter_index.mem_threshold_on_create
        }),
{
}

/// There is one task for each file, in the order of the files.
pub proof fn law_each_file_has_one_task<B: Backend, S>(
    worker: RegionWorkerLoop<B, S>,
    region: MitoRegion<B>,
    files: Seq<FileHandle<B>>,
    build_type: IndexBuildType,
    i: int,
)
    requires
        0 <= i < files.len(),
    ensures
        worker.tasks_for(region, files, build_type).len() == files.len(),
        worker.tasks_for(region, files, build_type)[i] == worker.task_for(
            region,
            files[i],
            build_type,
        ),
        worker.tasks_for(region, files, build_type)[i].file_meta == files[i].meta,
{
}

/// States that lead somewhere in some steps are one more than the steps, with the first and the
/// last in their places.
pub proof fn law_steps_lie_between_states<S>(states: Seq<S>, first: S, last: S, steps: nat)
    requires
        leads(states, first, last, steps),
    ensures
        states.len() == steps + 1,
        states[0] == first,
        states[states.len() - 1] == last,
        steps == 0 ==> first == last,
{
}

/// Every file that is selected is undeleted in some level, and is the file of the last level that
/// has its id undeleted.
pub proof fn law_selected_files_are_the_latest<B: Backend>(
    request: &RegionBuildIndexRequest<B>,
    version: &Version<B>,
    files: Vec<FileHandle<B>>,
    k: int,
)
    requires
        call_ensures(RegionBuildIndexRequest::<B>::select_files, (request, version), files),
        0 <= k < files@.len(),
    ensures
        !files@[k].deleted,
        exists|id: FileId, i: int|
            {
                &&& 0 <= i < version.levels@.len()
                &&& #[trigger] version.levels@[i].files@.contains_key(id)
                &&& version.levels@[i].files@[id] == files@[k]
                &&& forall|j: int|
                    i < j < version.levels@.len() && (
                    #[trigger] version.levels@[j]).files@.contains_key(id)
                        ==> version.levels@[j].files@[id].deleted
            },
{
    let levels = version.levels@;
    let all_files = live_files(levels);
    law_only_live_files_are_selected(*request, levels, files@, k);
    let id = choose|id: FileId| #[trigger]
        all_files.contains_key(id) && all_files[id] == files@[k];
    let i = lemma_latest_undeleted(levels, id);
    law_latest_undeleted_file_is_the_live_one(levels, id, i);
    assert(version.levels@[i].files@.contains_key(id));
}

proof fn lemma_latest_undeleted<B: Backend>(levels: Seq<LevelMeta<B>>, id: FileId) -> (i: int)
    requires
        live_files(levels).contains_key(id),
    ensures
        0 <= i < levels.len(),
        levels[i].files@.contains_key(id),
        !levels[i].files@[id].deleted,
        forall|j: int|
            i < j < levels.len() && (#[trigger] levels[j]).files@.contains_key(id)
                ==> levels[j].files@[id].deleted,
    decreases levels.len(),
{
    if levels.last().files@.contains_key(id) && !levels.last().files@[id].deleted {
        levels.len() - 1
    } else {
        let before = levels.drop_last();
        let i = lemma_latest_undeleted(before, id);
        assert forall|j: int|
            i < j < levels.len() && (#[trigger] levels[j]).files@.contains_key(
                id,
            ) implies levels[j].files@[id].deleted by {
            if j < before.len() {
                assert(before[j] == levels[j]);
            }
        }
        i
    }
}

/// Asked to rebuild the indexes of a region that it does not have, the worker has nothing to do.
pub proof fn law_unknown_region_has_no_tasks<B: Backend, S>(
    worker: &RegionWorkerLoop<B, S>,
    request: &RegionBuildIndexRequest<B>,
    tasks: Vec<IndexBuildTask<B, IndexerBuilderImpl<B>>>,
)
    requires
        !worker.regions@.contains_key(request.region_id),
        call_ensures(RegionWorkerLoop::<B, S>::rebuild_tasks, (worker, request), tasks),
    ensures
        tasks@.len() == 0,
{
}

/// Each task of a rebuild is for an undeleted file of the region that the request names, passes on
/// what that region has flushed, and indexes for the operation that the request names.
pub proof fn law_rebuild_follows_the_request<B: Backend, S>(
    worker: &RegionWorkerLoop<B, S>,
    request: &RegionBuildIndexRequest<B>,
    tasks: Vec<IndexBuildTask<B, IndexerBuilderImpl<B>>>,
    k: int,
)
    requires
        worker.regions@.contains_key(request.region_id),
        call_ensures(RegionWorkerLoop::<B, S>::rebuild_tasks, (worker, request), tasks),
        0 <= k < tasks@.len(),
    ensures
        ({
            let region = worker.regions@[request.region_id];
            &&& tasks@[k].indexer_builder.op_type == request.build_type
            &&& tasks@[k].indexer_builder.metadata == region.version.metadata
            &&& tasks@[k].access_layer == region.access_layer
            &&& tasks@[k].flushed_entry_id == Some(region.version.flushed_entry_id)
            &&& tasks@[k].flushed_sequence == Some(region.version.flushed_sequence)
            &&& tasks@[k].request_sender == worker.sender
        }),
        exists|id: FileId, i: int|
            {
                &&& 0 <= i < worker.regions@[request.region_id].version.levels@.len()
                &&& #[trigger] worker.regions@[request.region_id].version.levels@[i].files@.contains_key(
                    id,
                )
                &&& !worker.regions@[request.region_id].version.levels@[i].files@[id].deleted
                &&& worker.regions@[request.region_id].version.levels@[i].files@[id].meta
                    == tasks@[k].file_meta
                &&& worker.regions@[request.region_id].version.levels@[i].files@[id].file_purger
                    == tasks@[k].file_purger
            },
{
    let region = worker.regions@[request.region_id];
    let levels = region.version.levels@;
    let files = choose|files: Seq<FileHandle<B>>|
        {
            &&& #[trigger] request.selects(levels, files)
            &&& tasks@ == worker.tasks_for(region, files, request.build_type)
        };
    law_only_live_files_are_selected(*request, levels, files, k);
    let id = choose|id: FileId| #[trigger]
        live_files(levels).contains_key(id) && live_files(levels)[id] == files[k];
    let i = lemma_latest_undeleted(levels, id);
    law_latest_undeleted_file_is_the_live_one(levels, id, i);
    assert(worker.regions@[request.region_id].version.levels@[i].files@.contains_key(id));
}

/// Scheduling rebuilds changes nothing of the worker but the state of its scheduler, and not even
/// that where the worker does not have the region.
pub proof fn law_rebuild_changes_only_the_scheduler<
    B: Backend,
    S: Scheduler<IndexBuildJob<B, IndexerBuilderImpl<B>>>,
>(
    call: &mut RegionWorkerLoop<B, S>,
    request: RegionBuildIndexRequest<B>,
    scheduled: Vec<ScheduledBuild<B, S::Error>>,
)
    requires
        call_ensures(RegionWorkerLoop::<B, S>::handle_rebuild_index, (call, request), scheduled),
    ensures
        final(call).regions == old(call).regions,
        final(call).config == old(call).config,
        final(call).write_cache == old(call).write_cache,
        final(call).intermediate_manager == old(call).intermediate_manager,
        final(call).sender == old(call).sender,
        !old(call).regions@.contains_key(request.region_id) ==> {
            &&& scheduled@.len() == 0
            &&& final(call).index_build_scheduler == old(call).index_build_scheduler
        },
{
}

} // verus!
