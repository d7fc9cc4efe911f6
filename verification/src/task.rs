//! Building the index of one SST after the file was written.
//!
//! The work is the backend's: it opens the file, reads it, feeds the creators and records the
//! result. An [`IndexBuildStep`] says what it has to do next.
use std::sync::Arc;
use std::time::Duration;
use vstd::prelude::*;

use crate::backend::Backend;
use crate::builder::{BuildStep, IndexerBuilder, IndexerBuilderImpl};
use crate::file::{FileHandle, FileMeta, RegionId};
use crate::indexer::Indexer;
use crate::output::IndexOutput;

verus! {

/// Position in the write-ahead log.
pub type EntryId = u64;

/// Number of a write.
pub type SequenceNumber = u64;

/// A change to the files of a region.
pub struct RegionEdit<B: Backend> {
    /// Files to add; one that is there already is replaced.
    pub files_to_add: Vec<Arc<FileMeta<B>>>,
    /// Files to remove.
    pub files_to_remove: Vec<Arc<FileMeta<B>>>,
    /// Last sequence number that was flushed.
    pub flushed_sequence: Option<SequenceNumber>,
    /// Last log entry that was flushed.
    pub flushed_entry_id: Option<EntryId>,
    /// Time window that compaction settled on.
    pub compaction_time_window: Option<Duration>,
}

/// Asks the worker of a region to apply an edit.
pub struct RegionEditRequest<B: Backend> {
    /// Region to edit.
    pub region_id: RegionId,
    /// The edit.
    pub edit: RegionEdit<B>,
}

/// Builds the index of an SST.
pub struct IndexBuildTask<B: Backend, I> {
    /// Metadata of the file.
    pub file_meta: Arc<FileMeta<B>>,
    /// Last log entry that was flushed.
    pub flushed_entry_id: Option<EntryId>,
    /// Last sequence number that was flushed.
    pub flushed_sequence: Option<SequenceNumber>,
    /// Reads the file.
    pub access_layer: Arc<B::AccessLayer>,
    /// Removes the file when the last handle is gone.
    pub file_purger: Arc<B::FilePurger>,
    /// Builds the indexer.
    pub indexer_builder: Arc<I>,
    /// Carries the edit to the region's worker.
    pub request_sender: Arc<B::RequestSender>,
}

/// A task that a scheduler can run.
pub struct IndexBuildJob<B: Backend, I> {
    /// The task.
    pub task: IndexBuildTask<B, I>,
}

/// What a task wants of the backend next.
pub enum IndexBuildStep<B: Backend, I> {
    /// Build the indexer.
    Build(IndexerBuilding<B, I>),
    /// Open the SST.
    Open(SstOpening<B, I>),
    /// Read the next batch.
    Read(BatchReading<B, I>),
    /// Update the indexer with a batch.
    Update(BatchUpdating<B, I>),
    /// Finish the indexer.
    Finish(IndexFinishing<B, I>),
    /// Send a region edit and wait for the reply.
    Install(MetadataInstalling<B, I>),
    /// Nothing more: the task has ended.
    Done(Result<(), B::Error>),
}

/// Waits for the indexer.
pub struct IndexerBuilding<B: Backend, I> {
    /// The task.
    pub task: IndexBuildTask<B, I>,
}

/// Waits for a reader of `file`.
pub struct SstOpening<B: Backend, I> {
    /// The task.
    pub task: IndexBuildTask<B, I>,
    /// The indexer.
    pub indexer: Indexer<B>,
    /// The file to read through the task's access layer.
    pub file: FileHandle<B>,
}

/// Waits for the next batch of `reader`.
pub struct BatchReading<B: Backend, I> {
    /// The task.
    pub task: IndexBuildTask<B, I>,
    /// The indexer.
    pub indexer: Indexer<B>,
    /// The reader.
    pub reader: B::Reader,
}

/// Waits until `indexer` was updated with `batch`.
pub struct BatchUpdating<B: Backend, I> {
    /// The task.
    pub task: IndexBuildTask<B, I>,
    /// The indexer.
    pub indexer: Indexer<B>,
    /// The reader.
    pub reader: B::Reader,
    /// The batch.
    pub batch: B::Batch,
}

/// Waits for the output of `indexer`.
pub struct IndexFinishing<B: Backend, I> {
    /// The task.
    pub task: IndexBuildTask<B, I>,
    /// The indexer.
    pub indexer: Indexer<B>,
}

/// Waits until `request` was sent through the task's sender.
pub struct MetadataInstalling<B: Backend, I> {
    /// The task.
    pub task: IndexBuildTask<B, I>,
    /// The request.
    pub request: RegionEditRequest<B>,
}

/// Waits for the reply to the request, if there is one.
pub struct ReplyWaiting<B: Backend, I> {
    /// The task.
    pub task: IndexBuildTask<B, I>,
}

impl<B: Backend, I> IndexBuildTask<B, I> {
    /// Makes a job of the task.
    pub fn into_index_build_job(self) -> (job: IndexBuildJob<B, I>)
        ensures
            job.task == self,
    {
        IndexBuildJob { task: self }
    }

    /// Starts to build the index.
    pub fn index_build(self) -> (step: IndexBuildStep<B, I>)
        ensures
            step == IndexBuildStep::Build(IndexerBuilding { task: self }),
    {
        IndexBuildStep::Build(IndexerBuilding { task: self })
    }

    /// Whether `meta` is the file to index, with the indexes that `output` tells of.
    pub open spec fn indexed_as(self, output: IndexOutput, meta: FileMeta<B>) -> bool {
        &&& meta.region_id == self.file_meta.region_id
        &&& meta.file_id == self.file_meta.file_id
        &&& meta.details == self.file_meta.details
        &&& meta.available_indexes@ == output.created()
        &&& meta.index_file_size == output.file_size
    }

    /// Whether `request` asks the region of the file to add that file, to remove none, and to take
    /// over what is known to be flushed.
    pub open spec fn requested_by(self, request: RegionEditRequest<B>) -> bool {
        &&& request.region_id == self.file_meta.region_id
        &&& request.edit.files_to_add@ == seq![self.file_meta]
        &&& request.edit.files_to_remove@ == Seq::<Arc<FileMeta<B>>>::empty()
        &&& request.edit.flushed_sequence == self.flushed_sequence
        &&& request.edit.flushed_entry_id == self.flushed_entry_id
        &&& request.edit.compaction_time_window is None
    }

    /// Records in the file's metadata which indexes it has now, and says how to edit the region.
    pub fn install_index_metadata(&mut self, output: IndexOutput) -> (request: RegionEditRequest<B>)
        ensures
            old(self).indexed_as(output, *final(self).file_meta),
            *final(self) == (IndexBuildTask { file_meta: final(self).file_meta, ..*old(self) }),
            final(self).requested_by(request),
    {
        self.file_meta = Arc::new(
            FileMeta {
                region_id: self.file_meta.region_id,
                file_id: self.file_meta.file_id,
                available_indexes: output.build_available_indexes(),
                index_file_size: output.file_size,
                details: self.file_meta.details.clone(),
            },
        );
        let edit = RegionEdit {
            files_to_add: vec![self.file_meta.clone()],
            files_to_remove: vec![],
            flushed_sequence: self.flushed_sequence,
            flushed_entry_id: self.flushed_entry_id,
            compaction_time_window: None,
        };
        assert(edit.files_to_add@ =~= seq![self.file_meta]);
        assert(edit.files_to_remove@ =~= Seq::<Arc<FileMeta<B>>>::empty());
        RegionEditRequest { region_id: self.file_meta.region_id, edit }
    }
}

impl<B: Backend, I: IndexerBuilder<B>> IndexerBuilding<B, I> {
    /// Starts to build the indexer of the task's file.
    pub fn build(&self) -> (step: BuildStep<B>)
        ensures
            call_ensures(
                I::build,
                (&*self.task.indexer_builder, self.task.file_meta.file_id),
                step,
            ),
    {
        self.task.indexer_builder.build(self.task.file_meta.file_id)
    }
}

impl<B: Backend, I> IndexerBuilding<B, I> {
    /// The step after `indexer` was built.
    pub open spec fn after_built(self, indexer: Indexer<B>) -> IndexBuildStep<B, I> {
        IndexBuildStep::Open(
            SstOpening {
                task: self.task,
                indexer,
                file: FileHandle {
                    meta: self.task.file_meta,
                    file_purger: self.task.file_purger,
                    deleted: false,
                },
            },
        )
    }

    /// Goes on: `indexer` was built.
    pub fn built(self, indexer: Indexer<B>) -> (step: IndexBuildStep<B, I>)
        ensures
            step == self.after_built(indexer),
    {
        let file = FileHandle::new(self.task.file_meta.clone(), self.task.file_purger.clone());
        IndexBuildStep::Open(SstOpening { task: self.task, indexer, file })
    }
}

impl<B: Backend, I> SstOpening<B, I> {
    /// The step after the attempt to open the file.
    pub open spec fn after_opened(self, reply: Result<B::Reader, B::Error>) -> IndexBuildStep<
        B,
        I,
    > {
        match reply {
            Ok(reader) => IndexBuildStep::Read(
                BatchReading { task: self.task, indexer: self.indexer, reader },
            ),
            Err(error) => IndexBuildStep::Done(Err(error)),
        }
    }

    /// Goes on with the reader, or ends the task where there is none.
    pub fn opened(self, reply: Result<B::Reader, B::Error>) -> (step: IndexBuildStep<B, I>)
        ensures
            step == self.after_opened(reply),
    {
        match reply {
            Ok(reader) => IndexBuildStep::Read(
                BatchReading { task: self.task, indexer: self.indexer, reader },
            ),
            Err(error) => IndexBuildStep::Done(Err(error)),
        }
    }
}

impl<B: Backend, I> BatchReading<B, I> {
    /// The step after the attempt to read a batch.
    pub open spec fn after_read(
        self,
        reply: Result<Option<B::Batch>, B::Error>,
    ) -> IndexBuildStep<B, I> {
        match reply {
            Ok(Some(batch)) => IndexBuildStep::Update(
                BatchUpdating { task: self.task, indexer: self.indexer, reader: self.reader, batch },
            ),
            Ok(None) => IndexBuildStep::Finish(
                IndexFinishing { task: self.task, indexer: self.indexer },
            ),
            Err(error) => IndexBuildStep::Done(Err(error)),
        }
    }

    /// Goes on with the batch, finishes the index where there is no more, or ends the task where
    /// the batch could not be read.
    pub fn read(self, reply: Result<Option<B::Batch>, B::Error>) -> (step: IndexBuildStep<B, I>)
        ensures
            step == self.after_read(reply),
    {
        match reply {
            Ok(Some(batch)) => IndexBuildStep::Update(
                BatchUpdating { task: self.task, indexer: self.indexer, reader: self.reader, batch },
            ),
            Ok(None) => IndexBuildStep::Finish(
                IndexFinishing { task: self.task, indexer: self.indexer },
            ),
            Err(error) => IndexBuildStep::Done(Err(error)),
        }
    }
}

impl<B: Backend, I> BatchUpdating<B, I> {
    /// The step after the update.
    pub open spec fn after_updated(self) -> BatchReading<B, I> {
        BatchReading { task: self.task, indexer: self.indexer, reader: self.reader }
    }

    /// Goes on to the next batch: the indexer was updated with this one.
    pub fn updated(self) -> (reading: BatchReading<B, I>)
        ensures
            reading == self.after_updated(),
    {
        BatchReading { task: self.task, indexer: self.indexer, reader: self.reader }
    }
}

impl<B: Backend, I> IndexFinishing<B, I> {
    /// Whether `step` is the step after the indexer's `output`: without an index file the task
    /// ends, and with one its metadata is installed.
    pub open spec fn leads_to(self, output: IndexOutput, step: IndexBuildStep<B, I>) -> bool {
        if output.file_size == 0 {
            step == IndexBuildStep::<B, I>::Done(Ok(()))
        } else {
            &&& step matches IndexBuildStep::Install(installing)
            &&& self.task.indexed_as(output, *installing.task.file_meta)
            &&& installing.task == (IndexBuildTask {
                file_meta: installing.task.file_meta,
                ..self.task
            })
            &&& installing.task.requested_by(installing.request)
        }
    }

    /// Goes on with the indexer's output.
    pub fn finished(self, output: IndexOutput) -> (step: IndexBuildStep<B, I>)
        ensures
            self.leads_to(output, step),
    {
        if output.file_size > 0 {
            let mut task = self.task;
            let request = task.install_index_metadata(output);
            IndexBuildStep::Install(MetadataInstalling { task, request })
        } else {
            IndexBuildStep::Done(Ok(()))
        }
    }
}

impl<B: Backend, I> MetadataInstalling<B, I> {
    /// Hands out the request to send.
    pub fn take_request(self) -> (parts: (RegionEditRequest<B>, ReplyWaiting<B, I>))
        ensures
            parts.0 == self.request,
            parts.1.task == self.task,
    {
        (self.request, ReplyWaiting { task: self.task })
    }
}

impl<B: Backend, I> ReplyWaiting<B, I> {
    /// Ends the task: the request was sent or could not be sent, and was answered or not.
    pub fn replied(self) -> (step: IndexBuildStep<B, I>)
        ensures
            step == IndexBuildStep::<B, I>::Done(Ok(())),
    {
        IndexBuildStep::Done(Ok(()))
    }
}

/// One batch's turn: it was read, and the indexer was updated with it.
pub struct BatchTurn<B: Backend> {
    /// The reader after the batch.
    pub reader: B::Reader,
    /// The batch.
    pub batch: B::Batch,
    /// The indexer after the update.
    pub indexer: Indexer<B>,
}

impl<B: Backend, I> IndexBuildStep<B, I> {
    /// The step after a batch's turn.
    pub open spec fn after_turn(self, turn: BatchTurn<B>) -> Self {
        match self {
            IndexBuildStep::Read(reading) => {
                match (BatchReading { reader: turn.reader, ..reading }).after_read(
                    Ok(Some(turn.batch)),
                ) {
                    IndexBuildStep::Update(updating) => IndexBuildStep::Read(
                        (BatchUpdating { indexer: turn.indexer, ..updating }).after_updated(),
                    ),
                    other => other,
                }
            },
            other => other,
        }
    }

    /// The step after the turns of some batches.
    pub open spec fn after_turns(self, turns: Seq<BatchTurn<B>>) -> Self
        decreases turns.len(),
    {
        if turns.len() == 0 {
            self
        } else {
            self.after_turns(turns.drop_last()).after_turn(turns.last())
        }
    }
}

/// However many batches a file has, the task keeps on reading until there are no more, and stays
/// as it was meanwhile: only the reader and the indexer change.
pub proof fn law_every_batch_has_its_turn<B: Backend, I>(
    reading: BatchReading<B, I>,
    turns: Seq<BatchTurn<B>>,
)
    ensures
        IndexBuildStep::Read(reading).after_turns(turns) == IndexBuildStep::Read(
            if turns.len() == 0 {
                reading
            } else {
                BatchReading {
                    task: reading.task,
                    indexer: turns.last().indexer,
                    reader: turns.last().reader,
                }
            },
        ),
    decreases turns.len(),
{
    if turns.len() > 0 {
        law_every_batch_has_its_turn(reading, turns.drop_last());
    }
}

/// A task that is not kept from reading its file hands on the file as it was, with the indexer that
/// all batches have updated, and the region is edited exactly where that indexer wrote a file.
pub proof fn law_region_is_edited_for_an_index_file<B: Backend, I>(
    building: IndexerBuilding<B, I>,
    indexer: Indexer<B>,
    reader: B::Reader,
    turns: Seq<BatchTurn<B>>,
    output: IndexOutput,
    step: IndexBuildStep<B, I>,
)
    requires
        ({
            let opening = building.after_built(indexer)->Open_0;
            let reading = opening.after_opened(Ok(reader)).after_turns(turns)->Read_0;
            let finishing = reading.after_read(Ok(None))->Finish_0;
            finishing.leads_to(output, step)
        }),
    ensures
        step is Install <==> output.file_size > 0,
        step is Done <==> output.file_size == 0,
        step matches IndexBuildStep::Done(result) ==> result is Ok,
        step matches IndexBuildStep::Install(installing) ==> {
            &&& building.task.indexed_as(output, *installing.task.file_meta)
            &&& installing.task.requested_by(installing.request)
            &&& installing.request.region_id == building.task.file_meta.region_id
            &&& installing.request.edit.flushed_entry_id == building.task.flushed_entry_id
            &&& installing.request.edit.flushed_sequence == building.task.flushed_sequence
        },
{
    let opening = building.after_built(indexer)->Open_0;
    let first = opening.after_opened(Ok(reader))->Read_0;
    law_every_batch_has_its_turn(first, turns);
}

/// A file that cannot be opened, or a batch that cannot be read, ends the task with that error,
/// and the region is not edited.
pub proof fn law_failed_read_ends_the_task<B: Backend, I>(
    opening: SstOpening<B, I>,
    reader: B::Reader,
    turns: Seq<BatchTurn<B>>,
    error: B::Error,
)
    ensures
        opening.after_opened(Err(error)) == IndexBuildStep::<B, I>::Done(Err(error)),
        opening.after_opened(Ok(reader)).after_turns(turns) matches IndexBuildStep::Read(reading)
            && reading.after_read(Err(error)) == IndexBuildStep::<B, I>::Done(Err(error)),
{
    law_every_batch_has_its_turn(opening.after_opened(Ok(reader))->Read_0, turns);
}

/// Once the indexer is built, the file to index is opened: a handle to it that is not deleted, with
/// the purger that came with it. The task and the indexer are handed on as they are.
pub proof fn law_built_indexer_is_handed_on<B: Backend, I>(
    building: IndexerBuilding<B, I>,
    indexer: Indexer<B>,
)
    ensures
        building.after_built(indexer) matches IndexBuildStep::Open(opening) && {
            &&& opening.task == building.task
            &&& opening.indexer == indexer
            &&& opening.file.meta == building.task.file_meta
            &&& opening.file.file_purger == building.task.file_purger
            &&& !opening.file.deleted
        },
{
}

/// A file that was opened is read with the reader that was brought. The task and the indexer are
/// handed on as they are.
pub proof fn law_opened_file_is_read<B: Backend, I>(opening: SstOpening<B, I>, reader: B::Reader)
    ensures
        opening.after_opened(Ok(reader)) matches IndexBuildStep::Read(reading) && {
            &&& reading.task == opening.task
            &&& reading.indexer == opening.indexer
            &&& reading.reader == reader
        },
{
}

/// The indexer that is updated with a batch, and the one that is finished when there are no more,
/// is the indexer that was there while reading, with all its creators. After the update, reading
/// goes on with the same reader.
pub proof fn law_reading_hands_the_indexer_on<B: Backend, I>(
    reading: BatchReading<B, I>,
    updating: BatchUpdating<B, I>,
    batch: B::Batch,
    error: B::Error,
)
    ensures
        reading.after_read(Ok(Some(batch))) matches IndexBuildStep::Update(next) && {
            &&& next.task == reading.task
            &&& next.indexer == reading.indexer
            &&& next.reader == reading.reader
            &&& next.batch == batch
        },
        reading.after_read(Ok(None)) matches IndexBuildStep::Finish(next) && {
            &&& next.task == reading.task
            &&& next.indexer == reading.indexer
        },
        reading.after_read(Err(error)) matches IndexBuildStep::Done(result) && result
            == Err::<(), B::Error>(error),
        updating.after_updated().task == updating.task,
        updating.after_updated().indexer == updating.indexer,
        updating.after_updated().reader == updating.reader,
{
}

/// Over a whole run, the indexer that is finished is the one that the last batch has left, or the
/// one that was built where there was no batch, and the task is the one that was started.
pub proof fn law_finished_indexer_took_in_every_batch<B: Backend, I>(
    building: IndexerBuilding<B, I>,
    indexer: Indexer<B>,
    reader: B::Reader,
    turns: Seq<BatchTurn<B>>,
)
    ensures
        building.after_built(indexer) matches IndexBuildStep::Open(opening)
            && opening.after_opened(Ok(reader)).after_turns(turns) matches IndexBuildStep::Read(
            reading,
        ) && reading.after_read(Ok(None)) matches IndexBuildStep::Finish(finishing) && {
            &&& finishing.task == building.task
            &&& turns.len() == 0 ==> finishing.indexer == indexer
            &&& turns.len() > 0 ==> finishing.indexer == turns[turns.len() - 1].indexer
        },
{
    let opening = building.after_built(indexer)->Open_0;
    law_every_batch_has_its_turn(opening.after_opened(Ok(reader))->Read_0, turns);
}

/// A file is recorded as indexed by an output exactly where its identity and everything else of it
/// is as before, its index file has the size of the output, and it lists the created indexes.
pub proof fn law_indexing_changes_only_the_indexes<B: Backend, I>(
    task: IndexBuildTask<B, I>,
    output: IndexOutput,
    meta: FileMeta<B>,
)
    ensures
        task.indexed_as(output, meta) <==> {
            &&& meta.region_id == task.file_meta.region_id
            &&& meta.file_id == task.file_meta.file_id
            &&& meta.details == task.file_meta.details
            &&& meta.index_file_size == output.file_size
            &&& meta.available_indexes@ == output.created()
        },
{
}

/// The edit that is asked for adds the file and nothing else, removes nothing, leaves the time
/// window open, goes to the region of the file and keeps what is known to be flushed.
pub proof fn law_edit_adds_the_file_alone<B: Backend, I>(
    task: IndexBuildTask<B, I>,
    request: RegionEditRequest<B>,
)
    ensures
        task.requested_by(request) <==> {
            &&& request.region_id == task.file_meta.region_id
            &&& request.edit.files_to_add@.len() == 1
            &&& request.edit.files_to_add@[0] == task.file_meta
            &&& request.edit.files_to_remove@.len() == 0
            &&& request.edit.flushed_entry_id == task.flushed_entry_id
            &&& request.edit.flushed_sequence == task.flushed_sequence
            &&& request.edit.compaction_time_window is None
        },
{
    if request.edit.files_to_add@.len() == 1 && request.edit.files_to_add@[0] == task.file_meta {
        assert(request.edit.files_to_add@ =~= seq![task.file_meta]);
    }
    if request.edit.files_to_remove@.len() == 0 {
        assert(request.edit.files_to_remove@ =~= Seq::<Arc<FileMeta<B>>>::empty());
    }
}

/// With an index file of any size above zero the edit of the region follows, and without one the
/// task ends well. The file in the edit is the same file, with the size and the kinds of the
/// output, and the task is otherwise unchanged.
pub proof fn law_index_file_leads_to_the_edit<B: Backend, I>(
    finishing: IndexFinishing<B, I>,
    output: IndexOutput,
    step: IndexBuildStep<B, I>,
)
    requires
        finishing.leads_to(output, step),
    ensures
        output.file_size == 0 ==> (step matches IndexBuildStep::Done(result) && result is Ok),
        output.file_size != 0 ==> (step matches IndexBuildStep::Install(installing) && {
            let before = finishing.task;
            let after = installing.task;
            let edit = installing.request.edit;
            &&& after.file_meta.region_id == before.file_meta.region_id
            &&& after.file_meta.file_id == before.file_meta.file_id
            &&& after.file_meta.details == before.file_meta.details
            &&& after.file_meta.index_file_size == output.file_size
            &&& after.file_meta.available_indexes@ == output.created()
            &&& after.flushed_entry_id == before.flushed_entry_id
            &&& after.flushed_sequence == before.flushed_sequence
            &&& after.access_layer == before.access_layer
            &&& after.file_purger == before.file_purger
            &&& after.indexer_builder == before.indexer_builder
            &&& after.request_sender == before.request_sender
            &&& installing.request.region_id == before.file_meta.region_id
            &&& edit.files_to_add@.len() == 1
            &&& edit.files_to_add@[0] == after.file_meta
            &&& edit.files_to_remove@.len() == 0
            &&& edit.flushed_entry_id == before.flushed_entry_id
            &&& edit.flushed_sequence == before.flushed_sequence
            &&& edit.compaction_time_window is None
        }),
{
}

/// A task starts with building its indexer, and a job runs the task that it was made of.
pub proof fn law_task_starts_as_it_is<B: Backend, I>(
    task: IndexBuildTask<B, I>,
    step: IndexBuildStep<B, I>,
    job: IndexBuildJob<B, I>,
)
    requires
        call_ensures(IndexBuildTask::<B, I>::index_build, (task,), step),
        call_ensures(IndexBuildTask::<B, I>::into_index_build_job, (task,), job),
    ensures
        step matches IndexBuildStep::Build(building) && building.task == task,
        job.task == task,
{
}

/// The request is sent as it was made, and whatever comes of it, the task ends well.
pub proof fn law_request_ends_the_task<B: Backend, I>(
    installing: MetadataInstalling<B, I>,
    parts: (RegionEditRequest<B>, ReplyWaiting<B, I>),
    step: IndexBuildStep<B, I>,
)
    requires
        call_ensures(MetadataInstalling::<B, I>::take_request, (installing,), parts),
        call_ensures(ReplyWaiting::<B, I>::replied, (parts.1,), step),
    ensures
        parts.0 == installing.request,
        parts.1.task == installing.task,
        step matches IndexBuildStep::Done(result) && result is Ok,
{
}

/// The indexer of a task is built by the task's own builder, for the task's own file.
pub proof fn law_indexer_is_built_for_the_file<B: Backend>(
    building: &IndexerBuilding<B, IndexerBuilderImpl<B>>,
    step: BuildStep<B>,
)
    requires
        call_ensures(IndexerBuilding::<B, IndexerBuilderImpl<B>>::build, (building,), step),
    ensures
        step matches BuildStep::ListColumns(listing) ==> {
            &&& listing.builder == *building.task.indexer_builder
            &&& listing.indexer.file_id == building.task.file_meta.file_id
        },
        step matches BuildStep::CreateFulltext(creation) ==> {
            &&& creation.builder == *building.task.indexer_builder
            &&& creation.indexer.file_id == building.task.file_meta.file_id
            &&& creation.args.file_id == building.task.file_meta.file_id
        },
        step matches BuildStep::CreateBloomFilter(creation) ==> {
            &&& creation.builder == *building.task.indexer_builder
            &&& creation.indexer.file_id == building.task.file_meta.file_id
            &&& creation.args.file_id == building.task.file_meta.file_id
        },
{
}

} // verus!
