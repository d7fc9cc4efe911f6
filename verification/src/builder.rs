//! Decides which index creators an SST gets.
//!
//! The creators come from the backend, which may have to wait for them. So a build goes step by
//! step: each [`BuildStep`] says what is wanted of the backend, and the answer leads to the next.
use std::sync::Arc;
use vstd::prelude::*;

use crate::backend::Backend;
use crate::config::{
    BloomFilterConfig, FulltextIndexConfig, IndexOptions, InvertedIndexConfig, Mode,
    OperationType,
};
use crate::file::{FileId, RegionId};
use crate::indexer::{Indexer, SstPuffinManager};
use crate::output::ColumnId;

verus! {

/// Rows that a bloom filter inside a fulltext index covers.
pub const DEFAULT_FULLTEXT_BLOOM_ROW_GRANULARITY: usize = 8096;

/// Metadata of a region.
pub struct RegionMetadata<B: Backend> {
    /// Id of the region.
    pub region_id: RegionId,
    /// Its columns and their options.
    pub schema: Arc<B::RegionSchema>,
}

/// What the creator of an inverted index is made from.
pub struct InvertedIndexerArgs<B: Backend> {
    /// File to index.
    pub file_id: FileId,
    /// Metadata of the file's region.
    pub metadata: Arc<RegionMetadata<B>>,
    /// Holds the intermediate files.
    pub intermediate_manager: Arc<B::IntermediateManager>,
    /// Memory that the creation may take.
    pub mem_threshold: Option<usize>,
    /// Number of rows in a segment.
    pub segment_row_count: usize,
    /// Columns to index.
    pub indexed_column_ids: Vec<ColumnId>,
}

/// What the creator of a fulltext index is made from.
pub struct FulltextIndexerArgs<B: Backend> {
    /// Region of the file.
    pub region_id: RegionId,
    /// File to index.
    pub file_id: FileId,
    /// Holds the intermediate files.
    pub intermediate_manager: Arc<B::IntermediateManager>,
    /// Metadata of the file's region.
    pub metadata: Arc<RegionMetadata<B>>,
    /// Whether to compress the index data.
    pub compress: bool,
    /// Rows that a bloom filter inside the index covers.
    pub bloom_row_granularity: usize,
    /// Memory that the creation may take.
    pub mem_limit: Option<usize>,
}

/// What the creator of a bloom filter is made from.
pub struct BloomFilterIndexerArgs<B: Backend> {
    /// File to index.
    pub file_id: FileId,
    /// Metadata of the file's region.
    pub metadata: Arc<RegionMetadata<B>>,
    /// Holds the intermediate files.
    pub intermediate_manager: Arc<B::IntermediateManager>,
    /// Memory that the creation may take.
    pub mem_limit: Option<usize>,
}

/// Builds the indexer of a file.
pub trait IndexerBuilder<B: Backend> {
    /// Starts to build the indexer of `file_id`.
    fn build(&self, file_id: FileId) -> BuildStep<B>;
}

/// Builds indexers from a region's metadata and the settings of its indexes.
pub struct IndexerBuilderImpl<B: Backend> {
    /// Operation that the file comes from.
    pub op_type: OperationType,
    /// Metadata of the file's region.
    pub metadata: Arc<RegionMetadata<B>>,
    /// Number of rows in a row group of the file.
    pub row_group_size: usize,
    /// Stores the index file.
    pub puffin_manager: SstPuffinManager<B>,
    /// Holds the intermediate files.
    pub intermediate_manager: Arc<B::IntermediateManager>,
    /// Options of the region's indexes.
    pub index_options: Arc<IndexOptions>,
    /// Settings of the inverted index.
    pub inverted_index_config: InvertedIndexConfig,
    /// Settings of the fulltext index.
    pub fulltext_index_config: FulltextIndexConfig,
    /// Settings of the bloom filter.
    pub bloom_filter_index_config: BloomFilterConfig,
}

impl<B: Backend> Clone for IndexerBuilderImpl<B> {
    fn clone(&self) -> (builder: Self)
        ensures
            builder == *self,
    {
        IndexerBuilderImpl {
            op_type: self.op_type,
            metadata: self.metadata.clone(),
            row_group_size: self.row_group_size,
            puffin_manager: self.puffin_manager.clone(),
            intermediate_manager: self.intermediate_manager.clone(),
            index_options: self.index_options.clone(),
            inverted_index_config: self.inverted_index_config,
            fulltext_index_config: self.fulltext_index_config,
            bloom_filter_index_config: self.bloom_filter_index_config,
        }
    }
}

/// What a build wants next.
pub enum BuildStep<B: Backend> {
    /// The columns that the inverted index is to cover.
    ListColumns(ColumnListing<B>),
    /// The creator of the inverted index.
    CreateInverted(InvertedCreation<B>),
    /// The creator of the fulltext index.
    CreateFulltext(FulltextCreation<B>),
    /// The creator of the bloom filter.
    CreateBloomFilter(BloomFilterCreation<B>),
    /// That an indexer without any creator is aborted.
    Abort(BuildAbort<B>),
    /// Nothing more: this is the indexer.
    Done(Indexer<B>),
}

/// Waits for the columns that the region's schema marks for an inverted index.
pub struct ColumnListing<B: Backend> {
    /// The builder.
    pub builder: IndexerBuilderImpl<B>,
    /// The indexer so far.
    pub indexer: Indexer<B>,
}

/// Waits for the creator of the inverted index.
pub struct InvertedCreation<B: Backend> {
    /// The builder.
    pub builder: IndexerBuilderImpl<B>,
    /// The indexer so far.
    pub indexer: Indexer<B>,
    /// What the creator is made from.
    pub args: InvertedIndexerArgs<B>,
}

/// Waits for the creator of the fulltext index.
pub struct FulltextCreation<B: Backend> {
    /// The builder.
    pub builder: IndexerBuilderImpl<B>,
    /// The indexer so far.
    pub indexer: Indexer<B>,
    /// What the creator is made from.
    pub args: FulltextIndexerArgs<B>,
}

/// Waits for the creator of the bloom filter.
pub struct BloomFilterCreation<B: Backend> {
    /// The builder.
    pub builder: IndexerBuilderImpl<B>,
    /// The indexer so far.
    pub indexer: Indexer<B>,
    /// What the creator is made from.
    pub args: BloomFilterIndexerArgs<B>,
}

/// Waits until an indexer without any creator is aborted.
pub struct BuildAbort<B: Backend> {
    /// The indexer.
    pub indexer: Indexer<B>,
}

/// The number of rows in a segment: as many as wanted where that divides a row group evenly, and
/// otherwise a whole row group.
pub open spec fn aligned_segment(segment_row_count: usize, row_group_size: usize) -> usize {
    if row_group_size % segment_row_count == 0 {
        segment_row_count
    } else {
        row_group_size
    }
}

/// The creator that a reply brings: none where there is nothing to index, and none where it could
/// not be created.
pub open spec fn creator_of<T, E>(reply: Result<Option<T>, E>) -> Option<T> {
    match reply {
        Ok(creator) => creator,
        Err(_) => None,
    }
}

fn take_creator<T, E>(reply: Result<Option<T>, E>) -> (creator: Option<T>)
    ensures
        creator == creator_of(reply),
{
    match reply {
        Ok(creator) => creator,
        Err(_) => None,
    }
}

impl<B: Backend> IndexerBuilderImpl<B> {
    /// What the inverted index creator of `file_id` is made from, if the schema marks
    /// `indexed_column_ids`. There is none unless the index is enabled for the operation, there is
    /// a column to index, and neither a segment nor a row group is without rows.
    pub open spec fn inverted_args(
        self,
        file_id: FileId,
        indexed_column_ids: Vec<ColumnId>,
    ) -> Option<InvertedIndexerArgs<B>> {
        if self.inverted_index_config.creates(self.op_type) && indexed_column_ids@.len() > 0
            && self.index_options.inverted_index.segment_row_count > 0 && self.row_group_size > 0 {
            Some(
                InvertedIndexerArgs {
                    file_id,
                    metadata: self.metadata,
                    intermediate_manager: self.intermediate_manager,
                    mem_threshold: self.inverted_index_config.mem_threshold_on_create,
                    segment_row_count: aligned_segment(
                        self.index_options.inverted_index.segment_row_count,
                        self.row_group_size,
                    ),
                    indexed_column_ids,
                },
            )
        } else {
            None
        }
    }

    /// What the fulltext index creator of `file_id` is made from, if the index is enabled for the
    /// operation.
    pub open spec fn fulltext_args(self, file_id: FileId) -> Option<FulltextIndexerArgs<B>> {
        if self.fulltext_index_config.creates(self.op_type) {
            Some(
                FulltextIndexerArgs {
                    region_id: self.metadata.region_id,
                    file_id,
                    intermediate_manager: self.intermediate_manager,
                    metadata: self.metadata,
                    compress: self.fulltext_index_config.compress,
                    bloom_row_granularity: DEFAULT_FULLTEXT_BLOOM_ROW_GRANULARITY,
                    mem_limit: self.fulltext_index_config.mem_threshold_on_create,
                },
            )
        } else {
            None
        }
    }

    /// What the bloom filter creator of `file_id` is made from, if the index is enabled for the
    /// operation.
    pub open spec fn bloom_filter_args(self, file_id: FileId) -> Option<
        BloomFilterIndexerArgs<B>,
    > {
        if self.bloom_filter_index_config.creates(self.op_type) {
            Some(
                BloomFilterIndexerArgs {
                    file_id,
                    metadata: self.metadata,
                    intermediate_manager: self.intermediate_manager,
                    mem_limit: self.bloom_filter_index_config.mem_threshold_on_create,
                },
            )
        } else {
            None
        }
    }

    /// The first step of the build for `file_id`: asks for the columns of the inverted index where
    /// that index is enabled for the operation, and otherwise goes on to the fulltext index.
    pub open spec fn first_step(self, file_id: FileId) -> BuildStep<B> {
        let indexer = Indexer::<B>::idle(file_id, self.metadata.region_id);
        if self.inverted_index_config.creates(self.op_type) {
            BuildStep::ListColumns(ColumnListing { builder: self, indexer })
        } else {
            self.after_inverted(indexer)
        }
    }

    /// The step after the inverted index's turn.
    pub open spec fn after_inverted(self, indexer: Indexer<B>) -> BuildStep<B> {
        match self.fulltext_args(indexer.file_id) {
            Some(args) => BuildStep::CreateFulltext(
                FulltextCreation { builder: self, indexer, args },
            ),
            None => self.after_fulltext(indexer),
        }
    }

    /// The step after the fulltext index's turn.
    pub open spec fn after_fulltext(self, indexer: Indexer<B>) -> BuildStep<B> {
        match self.bloom_filter_args(indexer.file_id) {
            Some(args) => BuildStep::CreateBloomFilter(
                BloomFilterCreation { builder: self, indexer, args },
            ),
            None => self.after_bloom_filter(indexer),
        }
    }

    /// The step after the bloom filter's turn.
    pub open spec fn after_bloom_filter(self, indexer: Indexer<B>) -> BuildStep<B> {
        if indexer.has_no_creator() {
            BuildStep::Abort(BuildAbort { indexer })
        } else {
            BuildStep::Done(Indexer { puffin_manager: Some(self.puffin_manager), ..indexer })
        }
    }

    /// Decides on the inverted index of `file_id`, if the schema marks `indexed_column_ids`.
    pub fn build_inverted_indexer(
        &self,
        file_id: FileId,
        indexed_column_ids: Vec<ColumnId>,
    ) -> (args: Option<InvertedIndexerArgs<B>>)
        ensures
            args == self.inverted_args(file_id, indexed_column_ids),
    {
        if !self.inverted_index_config.create_on(self.op_type) {
            return None;
        }
        if indexed_column_ids.len() == 0 {
            return None;
        }
        let mut segment_row_count: usize = self.index_options.inverted_index.segment_row_count;
        if segment_row_count == 0 {
            return None;
        }
        if self.row_group_size == 0 {
            return None;
        }
        // if segment row count not aligned with row group size, adjust it to be aligned.
        if self.row_group_size % segment_row_count != 0 {
            segment_row_count = self.row_group_size;
        }
        Some(
            InvertedIndexerArgs {
                file_id,
                metadata: self.metadata.clone(),
                intermediate_manager: self.intermediate_manager.clone(),
                mem_threshold: self.inverted_index_config.mem_threshold_on_create,
                segment_row_count,
                indexed_column_ids,
            },
        )
    }

    /// Decides on the fulltext index of `file_id`.
    pub fn build_fulltext_indexer(&self, file_id: FileId) -> (args: Option<FulltextIndexerArgs<B>>)
        ensures
            args == self.fulltext_args(file_id),
    {
        if !self.fulltext_index_config.create_on(self.op_type) {
            return None;
        }
        Some(
            FulltextIndexerArgs {
                region_id: self.metadata.region_id,
                file_id,
                intermediate_manager: self.intermediate_manager.clone(),
                metadata: self.metadata.clone(),
                compress: self.fulltext_index_config.compress,
                bloom_row_granularity: DEFAULT_FULLTEXT_BLOOM_ROW_GRANULARITY,
                mem_limit: self.fulltext_index_config.mem_threshold_on_create,
            },
        )
    }

    /// Decides on the bloom filter of `file_id`.
    pub fn build_bloom_filter_indexer(&self, file_id: FileId) -> (args: Option<
        BloomFilterIndexerArgs<B>,
    >)
        ensures
            args == self.bloom_filter_args(file_id),
    {
        if !self.bloom_filter_index_config.create_on(self.op_type) {
            return None;
        }
        Some(
            BloomFilterIndexerArgs {
                file_id,
                metadata: self.metadata.clone(),
                intermediate_manager: self.intermediate_manager.clone(),
                mem_limit: self.bloom_filter_index_config.mem_threshold_on_create,
            },
        )
    }

    fn fulltext_turn(self, indexer: Indexer<B>) -> (step: BuildStep<B>)
        ensures
            step == self.after_inverted(indexer),
    {
        match self.build_fulltext_indexer(indexer.file_id) {
            Some(args) => BuildStep::CreateFulltext(
                FulltextCreation { builder: self, indexer, args },
            ),
            None => self.bloom_filter_turn(indexer),
        }
    }

    fn bloom_filter_turn(self, indexer: Indexer<B>) -> (step: BuildStep<B>)
        ensures
            step == self.after_fulltext(indexer),
    {
        match self.build_bloom_filter_indexer(indexer.file_id) {
            Some(args) => BuildStep::CreateBloomFilter(
                BloomFilterCreation { builder: self, indexer, args },
            ),
            None => self.complete(indexer),
        }
    }

    fn complete(self, indexer: Indexer<B>) -> (step: BuildStep<B>)
        ensures
            step == self.after_bloom_filter(indexer),
    {
        let mut indexer = indexer;
        if indexer.inverted_indexer.is_none() && indexer.fulltext_indexer.is_none()
            && indexer.bloom_filter_indexer.is_none() {
            return BuildStep::Abort(BuildAbort { indexer });
        }
        indexer.puffin_manager = Some(self.puffin_manager);
        BuildStep::Done(indexer)
    }
}

impl<B: Backend> IndexerBuilder<B> for IndexerBuilderImpl<B> {
    fn build(&self, file_id: FileId) -> (step: BuildStep<B>)
        ensures
            step == self.first_step(file_id),
    {
        let indexer = Indexer {
            file_id,
            region_id: self.metadata.region_id,
            puffin_manager: None,
            inverted_indexer: None,
            last_mem_inverted_index: 0,
            fulltext_indexer: None,
            last_mem_fulltext_index: 0,
            bloom_filter_indexer: None,
            last_mem_bloom_filter: 0,
        };
        if self.inverted_index_config.create_on(self.op_type) {
            BuildStep::ListColumns(ColumnListing { builder: self.clone(), indexer })
        } else {
            self.clone().fulltext_turn(indexer)
        }
    }
}

impl<B: Backend> ColumnListing<B> {
    /// The metadata whose schema says which columns are marked.
    pub fn metadata(&self) -> (metadata: &Arc<RegionMetadata<B>>)
        ensures
            *metadata == self.builder.metadata,
    {
        &self.builder.metadata
    }

    /// The columns that are left out although they are marked.
    pub fn ignore_column_ids(&self) -> (ids: &Vec<ColumnId>)
        ensures
            *ids == self.builder.index_options.inverted_index.ignore_column_ids,
    {
        &self.builder.index_options.inverted_index.ignore_column_ids
    }

    /// The step after the schema was found to mark `indexed_column_ids`.
    pub open spec fn after_listed(self, indexed_column_ids: Vec<ColumnId>) -> BuildStep<B> {
        match self.builder.inverted_args(self.indexer.file_id, indexed_column_ids) {
            Some(args) => BuildStep::CreateInverted(
                InvertedCreation { builder: self.builder, indexer: self.indexer, args },
            ),
            None => self.builder.after_inverted(self.indexer),
        }
    }

    /// Goes on: the schema marks `indexed_column_ids`.
    pub fn listed(self, indexed_column_ids: Vec<ColumnId>) -> (step: BuildStep<B>)
        ensures
            step == self.after_listed(indexed_column_ids),
    {
        match self.builder.build_inverted_indexer(self.indexer.file_id, indexed_column_ids) {
            Some(args) => BuildStep::CreateInverted(
                InvertedCreation { builder: self.builder, indexer: self.indexer, args },
            ),
            None => self.builder.fulltext_turn(self.indexer),
        }
    }
}

impl<B: Backend> InvertedCreation<B> {
    /// The step after `creator` was made.
    pub open spec fn after_created(self, creator: B::InvertedIndexer) -> BuildStep<B> {
        self.builder.after_inverted(
            Indexer { inverted_indexer: Some(creator), ..self.indexer },
        )
    }

    /// Goes on: `creator` was made.
    pub fn created(self, creator: B::InvertedIndexer) -> (step: BuildStep<B>)
        ensures
            step == self.after_created(creator),
    {
        let mut indexer = self.indexer;
        indexer.inverted_indexer = Some(creator);
        self.builder.fulltext_turn(indexer)
    }
}

impl<B: Backend> FulltextCreation<B> {
    /// The step after the reply to the request for a creator.
    pub open spec fn after_created(
        self,
        reply: Result<Option<B::FulltextIndexer>, B::Error>,
    ) -> BuildStep<B> {
        self.builder.after_fulltext(
            Indexer { fulltext_indexer: creator_of(reply), ..self.indexer },
        )
    }

    /// Goes on with the reply to the request for a creator. Without a creator, whether because
    /// no column needs one or because it could not be made, there is no fulltext index.
    pub fn created(self, reply: Result<Option<B::FulltextIndexer>, B::Error>) -> (step: BuildStep<
        B,
    >)
        ensures
            step == self.after_created(reply),
    {
        let mut indexer = self.indexer;
        indexer.fulltext_indexer = take_creator(reply);
        self.builder.bloom_filter_turn(indexer)
    }
}

impl<B: Backend> BloomFilterCreation<B> {
    /// The step after the reply to the request for a creator.
    pub open spec fn after_created(
        self,
        reply: Result<Option<B::BloomFilterIndexer>, B::Error>,
    ) -> BuildStep<B> {
        self.builder.after_bloom_filter(
            Indexer { bloom_filter_indexer: creator_of(reply), ..self.indexer },
        )
    }

    /// Goes on with the reply to the request for a creator. Without a creator, whether because
    /// no column needs one or because it could not be made, there is no bloom filter.
    pub fn created(
        self,
        reply: Result<Option<B::BloomFilterIndexer>, B::Error>,
    ) -> (step: BuildStep<B>)
        ensures
            step == self.after_created(reply),
    {
        let mut indexer = self.indexer;
        indexer.bloom_filter_indexer = take_creator(reply);
        self.builder.complete(indexer)
    }
}

impl<B: Backend> BuildAbort<B> {
    /// Ends the build: the indexer was aborted, and the result stands for no file.
    pub fn aborted(self) -> (indexer: Indexer<B>)
        ensures
            indexer == Indexer::<B>::idle(0, 0),
    {
        Indexer::default()
    }
}

/// What the backend answers to the steps of a build.
pub struct BuildReplies<B: Backend> {
    /// The columns that the schema marks for the inverted index.
    pub indexed_column_ids: Vec<ColumnId>,
    /// The creator of the inverted index.
    pub inverted: B::InvertedIndexer,
    /// The creator of the fulltext index.
    pub fulltext: Result<Option<B::FulltextIndexer>, B::Error>,
    /// The creator of the bloom filter.
    pub bloom_filter: Result<Option<B::BloomFilterIndexer>, B::Error>,
}

impl<B: Backend> BuildStep<B> {
    /// How many answers the step is away from the indexer, at most.
    pub open spec fn distance(self) -> nat {
        match self {
            BuildStep::ListColumns(_) => 5,
            BuildStep::CreateInverted(_) => 4,
            BuildStep::CreateFulltext(_) => 3,
            BuildStep::CreateBloomFilter(_) => 2,
            BuildStep::Abort(_) => 1,
            BuildStep::Done(_) => 0,
        }
    }

    /// The indexer that comes of this step when every answer is taken from `replies`.
    pub open spec fn outcome(self, replies: BuildReplies<B>) -> Indexer<B>
        decreases self.distance(),
    {
        match self {
            BuildStep::ListColumns(listing) => listing.after_listed(
                replies.indexed_column_ids,
            ).outcome(replies),
            BuildStep::CreateInverted(creation) => creation.after_created(
                replies.inverted,
            ).outcome(replies),
            BuildStep::CreateFulltext(creation) => creation.after_created(
                replies.fulltext,
            ).outcome(replies),
            BuildStep::CreateBloomFilter(creation) => creation.after_created(
                replies.bloom_filter,
            ).outcome(replies),
            BuildStep::Abort(_) => Indexer::idle(0, 0),
            BuildStep::Done(indexer) => indexer,
        }
    }
}

impl<B: Backend> IndexerBuilderImpl<B> {
    /// The inverted index creator of a file.
    pub open spec fn inverted_creator(self, file_id: FileId, replies: BuildReplies<B>) -> Option<
        B::InvertedIndexer,
    > {
        if self.inverted_args(file_id, replies.indexed_column_ids) is Some {
            Some(replies.inverted)
        } else {
            None
        }
    }

    /// The fulltext index creator of a file.
    pub open spec fn fulltext_creator(self, replies: BuildReplies<B>) -> Option<
        B::FulltextIndexer,
    > {
        if self.fulltext_index_config.creates(self.op_type) {
            creator_of(replies.fulltext)
        } else {
            None
        }
    }

    /// The bloom filter creator of a file.
    pub open spec fn bloom_filter_creator(self, replies: BuildReplies<B>) -> Option<
        B::BloomFilterIndexer,
    > {
        if self.bloom_filter_index_config.creates(self.op_type) {
            creator_of(replies.bloom_filter)
        } else {
            None
        }
    }
}

/// A build ends in an indexer that has, of each kind, the creator that is due to the file,
/// whichever the others are. Its index file goes to the builder's puffin manager. Where no creator
/// is due at all, it ends in the default indexer.
pub proof fn law_build_ends_in_the_due_creators<B: Backend>(
    builder: IndexerBuilderImpl<B>,
    file_id: FileId,
    replies: BuildReplies<B>,
)
    ensures
        ({
            let due = Indexer::<B> {
                puffin_manager: Some(builder.puffin_manager),
                inverted_indexer: builder.inverted_creator(file_id, replies),
                fulltext_indexer: builder.fulltext_creator(replies),
                bloom_filter_indexer: builder.bloom_filter_creator(replies),
                ..Indexer::<B>::idle(file_id, builder.metadata.region_id)
            };
            builder.first_step(file_id).outcome(replies) == if due.has_no_creator() {
                Indexer::<B>::idle(0, 0)
            } else {
                due
            }
        }),
{
    reveal_with_fuel(BuildStep::outcome, 6);
}

/// An index that the settings disable for the operation gets no creator, whatever the backend
/// would answer.
pub proof fn law_disabled_index_has_no_creator<B: Backend>(
    builder: IndexerBuilderImpl<B>,
    file_id: FileId,
    replies: BuildReplies<B>,
)
    ensures
        ({
            let indexer = builder.first_step(file_id).outcome(replies);
            &&& !builder.inverted_index_config.creates(builder.op_type)
                ==> indexer.inverted_indexer is None
            &&& !builder.fulltext_index_config.creates(builder.op_type)
                ==> indexer.fulltext_indexer is None
            &&& !builder.bloom_filter_index_config.creates(builder.op_type)
                ==> indexer.bloom_filter_indexer is None
        }),
{
    law_build_ends_in_the_due_creators(builder, file_id, replies);
}

/// The settings of one index do not change which creators the other indexes get. Those of the
/// inverted index are its config, the index options and the size of a row group.
pub proof fn law_indexes_are_decided_independently<B: Backend>(
    builder: IndexerBuilderImpl<B>,
    file_id: FileId,
    replies: BuildReplies<B>,
    inverted_index_config: InvertedIndexConfig,
    index_options: Arc<IndexOptions>,
    row_group_size: usize,
    fulltext_index_config: FulltextIndexConfig,
    bloom_filter_index_config: BloomFilterConfig,
)
    ensures
        ({
            let indexer = builder.first_step(file_id).outcome(replies);
            let other_inverted = IndexerBuilderImpl {
                inverted_index_config,
                index_options,
                row_group_size,
                ..builder
            }.first_step(file_id).outcome(replies);
            let other_fulltext = IndexerBuilderImpl {
                fulltext_index_config,
                ..builder
            }.first_step(file_id).outcome(replies);
            let other_bloom_filter = IndexerBuilderImpl {
                bloom_filter_index_config,
                ..builder
            }.first_step(file_id).outcome(replies);
            &&& other_inverted.fulltext_indexer == indexer.fulltext_indexer
            &&& other_inverted.bloom_filter_indexer == indexer.bloom_filter_indexer
            &&& other_fulltext.inverted_indexer == indexer.inverted_indexer
            &&& other_fulltext.bloom_filter_indexer == indexer.bloom_filter_indexer
            &&& other_bloom_filter.inverted_indexer == indexer.inverted_indexer
            &&& other_bloom_filter.fulltext_indexer == indexer.fulltext_indexer
        }),
{
    law_build_ends_in_the_due_creators(builder, file_id, replies);
    law_build_ends_in_the_due_creators(
        IndexerBuilderImpl { inverted_index_config, index_options, row_group_size, ..builder },
        file_id,
        replies,
    );
    law_build_ends_in_the_due_creators(
        IndexerBuilderImpl { fulltext_index_config, ..builder },
        file_id,
        replies,
    );
    law_build_ends_in_the_due_creators(
        IndexerBuilderImpl { bloom_filter_index_config, ..builder },
        file_id,
        replies,
    );
}

/// What is set for a compaction does not matter to a flushed file, and the other way round.
pub proof fn law_settings_of_the_other_operation_do_not_matter<B: Backend>(
    builder: IndexerBuilderImpl<B>,
    file_id: FileId,
    replies: BuildReplies<B>,
    mode: Mode,
)
    ensures
        ({
            let other = match builder.op_type {
                OperationType::Flush => IndexerBuilderImpl {
                    inverted_index_config: InvertedIndexConfig {
                        create_on_compaction: mode,
                        ..builder.inverted_index_config
                    },
                    fulltext_index_config: FulltextIndexConfig {
                        create_on_compaction: mode,
                        ..builder.fulltext_index_config
                    },
                    bloom_filter_index_config: BloomFilterConfig {
                        create_on_compaction: mode,
                        ..builder.bloom_filter_index_config
                    },
                    ..builder
                },
                OperationType::Compact => IndexerBuilderImpl {
                    inverted_index_config: InvertedIndexConfig {
                        create_on_flush: mode,
                        ..builder.inverted_index_config
                    },
                    fulltext_index_config: FulltextIndexConfig {
                        create_on_flush: mode,
                        ..builder.fulltext_index_config
                    },
                    bloom_filter_index_config: BloomFilterConfig {
                        create_on_flush: mode,
                        ..builder.bloom_filter_index_config
                    },
                    ..builder
                },
            };
            other.first_step(file_id).outcome(replies) == builder.first_step(file_id).outcome(
                replies,
            )
        }),
{
    reveal_with_fuel(BuildStep::outcome, 6);
}

/// The inverted index gets its creator exactly where it is enabled for the operation, the schema
/// marks a column for it, and neither a segment nor a row group is without rows.
pub proof fn law_inverted_index_needs_columns_and_rows<B: Backend>(
    builder: IndexerBuilderImpl<B>,
    file_id: FileId,
    replies: BuildReplies<B>,
)
    ensures
        builder.first_step(file_id).outcome(replies).inverted_indexer is Some <==> {
            &&& builder.inverted_index_config.creates(builder.op_type)
            &&& replies.indexed_column_ids@.len() > 0
            &&& builder.index_options.inverted_index.segment_row_count > 0
            &&& builder.row_group_size > 0
        },
{
    law_build_ends_in_the_due_creators(builder, file_id, replies);
}

/// A creator that could not be made is the same to the build as one that no column needs: the
/// error does not show.
pub proof fn law_failed_creation_is_hidden<B: Backend>(
    builder: IndexerBuilderImpl<B>,
    file_id: FileId,
    replies: BuildReplies<B>,
    error: B::Error,
)
    ensures
        builder.first_step(file_id).outcome(BuildReplies { fulltext: Err(error), ..replies })
            == builder.first_step(file_id).outcome(BuildReplies { fulltext: Ok(None), ..replies }),
        builder.first_step(file_id).outcome(BuildReplies { bloom_filter: Err(error), ..replies })
            == builder.first_step(file_id).outcome(
            BuildReplies { bloom_filter: Ok(None), ..replies },
        ),
{
    law_build_ends_in_the_due_creators(
        builder,
        file_id,
        BuildReplies { fulltext: Err(error), ..replies },
    );
    law_build_ends_in_the_due_creators(
        builder,
        file_id,
        BuildReplies { fulltext: Ok(None), ..replies },
    );
    law_build_ends_in_the_due_creators(
        builder,
        file_id,
        BuildReplies { bloom_filter: Err(error), ..replies },
    );
    law_build_ends_in_the_due_creators(
        builder,
        file_id,
        BuildReplies { bloom_filter: Ok(None), ..replies },
    );
}

/// An indexer that comes of a build has somewhere to put its index file exactly where it has a
/// creator, and has told the memory gauge of nothing yet.
pub proof fn law_built_indexer_stores_what_it_creates<B: Backend>(
    builder: IndexerBuilderImpl<B>,
    file_id: FileId,
    replies: BuildReplies<B>,
)
    ensures
        ({
            let indexer = builder.first_step(file_id).outcome(replies);
            &&& indexer.puffin_manager == if indexer.has_no_creator() {
                None
            } else {
                Some(builder.puffin_manager)
            }
            &&& indexer.reported() == Indexer::<B>::idle(0, 0).reported()
        }),
{
    law_build_ends_in_the_due_creators(builder, file_id, replies);
}

/// A segment of an inverted index has rows, and a row group is made of whole segments. It has the
/// wanted number of rows wherever that is possible.
pub proof fn law_segments_divide_row_groups<B: Backend>(
    builder: IndexerBuilderImpl<B>,
    file_id: FileId,
    indexed_column_ids: Vec<ColumnId>,
)
    requires
        builder.inverted_args(file_id, indexed_column_ids) is Some,
    ensures
        ({
            let segment = builder.inverted_args(
                file_id,
                indexed_column_ids,
            )->0.segment_row_count;
            let wanted = builder.index_options.inverted_index.segment_row_count;
            &&& segment > 0
            &&& builder.row_group_size % segment == 0
            &&& builder.row_group_size % wanted == 0 ==> segment == wanted
        }),
{
    let size = builder.row_group_size as int;
    assert(size > 0 ==> size % size == 0) by (nonlinear_arith);
}

/// A segment is of the wanted size exactly where whole segments of that size make up a row group,
/// and is a whole row group in every other case.
pub proof fn law_unaligned_segment_is_a_row_group<B: Backend>(
    builder: IndexerBuilderImpl<B>,
    file_id: FileId,
    indexed_column_ids: Vec<ColumnId>,
)
    requires
        builder.inverted_args(file_id, indexed_column_ids) is Some,
    ensures
        ({
            let segment = builder.inverted_args(
                file_id,
                indexed_column_ids,
            )->0.segment_row_count;
            let wanted = builder.index_options.inverted_index.segment_row_count;
            &&& builder.row_group_size as int % wanted as int == 0 ==> segment == wanted
            &&& builder.row_group_size as int % wanted as int != 0 ==> segment
                == builder.row_group_size
        }),
{
}

/// The inverted index creator is asked for exactly where the mode for the file's operation is
/// `Auto`, there is a column to index, and neither a segment nor a row group is without rows. It
/// is made from the file, the builder's own metadata and services, the threshold that is set for
/// it, and all the columns that were found.
pub proof fn law_inverted_creator_is_made_from_the_settings<B: Backend>(
    builder: IndexerBuilderImpl<B>,
    file_id: FileId,
    indexed_column_ids: Vec<ColumnId>,
)
    ensures
        builder.inverted_args(file_id, indexed_column_ids) is Some <==> {
            &&& builder.op_type is Flush ==> builder.inverted_index_config.create_on_flush is Auto
            &&& builder.op_type is Compact
                ==> builder.inverted_index_config.create_on_compaction is Auto
            &&& indexed_column_ids@.len() != 0
            &&& builder.index_options.inverted_index.segment_row_count != 0
            &&& builder.row_group_size != 0
        },
        builder.inverted_args(file_id, indexed_column_ids) matches Some(args) ==> {
            &&& args.file_id == file_id
            &&& args.metadata == builder.metadata
            &&& args.intermediate_manager == builder.intermediate_manager
            &&& args.mem_threshold == builder.inverted_index_config.mem_threshold_on_create
            &&& args.indexed_column_ids == indexed_column_ids
        },
{
}

/// The fulltext index creator is asked for exactly where the mode for the file's operation is
/// `Auto`. It is made from the file and its region, the builder's own metadata and services, and
/// what is set for it.
pub proof fn law_fulltext_creator_is_made_from_the_settings<B: Backend>(
    builder: IndexerBuilderImpl<B>,
    file_id: FileId,
)
    ensures
        builder.op_type is Flush ==> (builder.fulltext_args(file_id) is Some
            <==> builder.fulltext_index_config.create_on_flush is Auto),
        builder.op_type is Compact ==> (builder.fulltext_args(file_id) is Some
            <==> builder.fulltext_index_config.create_on_compaction is Auto),
        builder.fulltext_args(file_id) matches Some(args) ==> {
            &&& args.region_id == builder.metadata.region_id
            &&& args.file_id == file_id
            &&& args.intermediate_manager == builder.intermediate_manager
            &&& args.metadata == builder.metadata
            &&& args.compress == builder.fulltext_index_config.compress
            &&& args.bloom_row_granularity == 8096
            &&& args.mem_limit == builder.fulltext_index_config.mem_threshold_on_create
        },
{
}

/// The bloom filter creator is asked for exactly where the mode for the file's operation is
/// `Auto`. It is made from the file, the builder's own metadata and services, and the limit that
/// is set for it.
pub proof fn law_bloom_filter_creator_is_made_from_the_settings<B: Backend>(
    builder: IndexerBuilderImpl<B>,
    file_id: FileId,
)
    ensures
        builder.op_type is Flush ==> (builder.bloom_filter_args(file_id) is Some
            <==> builder.bloom_filter_index_config.create_on_flush is Auto),
        builder.op_type is Compact ==> (builder.bloom_filter_args(file_id) is Some
            <==> builder.bloom_filter_index_config.create_on_compaction is Auto),
        builder.bloom_filter_args(file_id) matches Some(args) ==> {
            &&& args.file_id == file_id
            &&& args.metadata == builder.metadata
            &&& args.intermediate_manager == builder.intermediate_manager
            &&& args.mem_limit == builder.bloom_filter_index_config.mem_threshold_on_create
        },
{
}

/// A reply with a creator brings that creator, and any other reply brings none.
pub proof fn law_reply_brings_its_creator<T, E>(creator: T, error: E)
    ensures
        creator_of(Ok::<Option<T>, E>(Some(creator))) == Some(creator),
        creator_of(Ok::<Option<T>, E>(None)) is None,
        creator_of(Err::<Option<T>, E>(error)) is None,
{
}

/// A build starts with an indexer for its file and region that has nothing else. It asks for the
/// columns of the inverted index where the mode for the operation is `Auto`, and where it is not,
/// it starts as it would go on after the inverted index.
pub proof fn law_build_starts_with_the_inverted_index<B: Backend>(
    builder: IndexerBuilderImpl<B>,
    file_id: FileId,
    indexer: Indexer<B>,
)
    requires
        indexer.file_id == file_id,
        indexer.region_id == builder.metadata.region_id,
        indexer.puffin_manager is None,
        indexer.inverted_indexer is None,
        indexer.fulltext_indexer is None,
        indexer.bloom_filter_indexer is None,
        indexer.last_mem_inverted_index == 0,
        indexer.last_mem_fulltext_index == 0,
        indexer.last_mem_bloom_filter == 0,
    ensures
        ({
            let enabled = if builder.op_type is Flush {
                builder.inverted_index_config.create_on_flush is Auto
            } else {
                builder.inverted_index_config.create_on_compaction is Auto
            };
            let step = builder.first_step(file_id);
            &&& enabled ==> (step matches BuildStep::ListColumns(listing) && listing.builder
                == builder && listing.indexer == indexer)
            &&& !enabled ==> step == builder.after_inverted(indexer)
        }),
{
    assert(indexer == Indexer::<B>::idle(file_id, builder.metadata.region_id));
}

/// Once the columns are known, the creator of the inverted index is asked for with what it is made
/// from, and where there is to be none, the build goes on after the inverted index. Either way the
/// builder and the indexer stay as they are.
pub proof fn law_columns_lead_to_the_inverted_creator<B: Backend>(
    listing: ColumnListing<B>,
    indexed_column_ids: Vec<ColumnId>,
)
    ensures
        ({
            let args = listing.builder.inverted_args(listing.indexer.file_id, indexed_column_ids);
            let step = listing.after_listed(indexed_column_ids);
            &&& args is Some ==> (step matches BuildStep::CreateInverted(creation)
                && creation.builder == listing.builder && creation.indexer == listing.indexer
                && Some(creation.args) == args)
            &&& args is None ==> step == listing.builder.after_inverted(listing.indexer)
        }),
{
}

/// After the inverted index, the creator of the fulltext index is asked for with what it is made
/// from; then the creator of the bloom filter; and an index that is to have none is passed over.
/// Meanwhile the builder and the indexer stay as they are.
pub proof fn law_fulltext_index_comes_before_the_bloom_filter<B: Backend>(
    builder: IndexerBuilderImpl<B>,
    indexer: Indexer<B>,
)
    ensures
        builder.fulltext_args(indexer.file_id) matches Some(args) ==> (builder.after_inverted(
            indexer,
        ) matches BuildStep::CreateFulltext(creation) && creation.builder == builder
            && creation.indexer == indexer && creation.args == args),
        builder.fulltext_args(indexer.file_id) is None ==> builder.after_inverted(indexer)
            == builder.after_fulltext(indexer),
        builder.bloom_filter_args(indexer.file_id) matches Some(args) ==> (builder.after_fulltext(
            indexer,
        ) matches BuildStep::CreateBloomFilter(creation) && creation.builder == builder
            && creation.indexer == indexer && creation.args == args),
        builder.bloom_filter_args(indexer.file_id) is None ==> builder.after_fulltext(indexer)
            == builder.after_bloom_filter(indexer),
{
}

/// At its end a build hands out the indexer with all its creators and with the builder's puffin
/// manager. An indexer without any creator is to be aborted instead, as it is.
pub proof fn law_build_ends_with_the_puffin_manager<B: Backend>(
    builder: IndexerBuilderImpl<B>,
    indexer: Indexer<B>,
)
    ensures
        indexer.inverted_indexer is Some || indexer.fulltext_indexer is Some
            || indexer.bloom_filter_indexer is Some ==> (builder.after_bloom_filter(
            indexer,
        ) matches BuildStep::Done(built) && {
            &&& built.puffin_manager == Some(builder.puffin_manager)
            &&& built.file_id == indexer.file_id
            &&& built.region_id == indexer.region_id
            &&& built.inverted_indexer == indexer.inverted_indexer
            &&& built.fulltext_indexer == indexer.fulltext_indexer
            &&& built.bloom_filter_indexer == indexer.bloom_filter_indexer
            &&& built.last_mem_inverted_index == indexer.last_mem_inverted_index
            &&& built.last_mem_fulltext_index == indexer.last_mem_fulltext_index
            &&& built.last_mem_bloom_filter == indexer.last_mem_bloom_filter
        }),
        indexer.inverted_indexer is None && indexer.fulltext_indexer is None
            && indexer.bloom_filter_indexer is None ==> (builder.after_bloom_filter(
            indexer,
        ) matches BuildStep::Abort(abort) && abort.indexer == indexer),
{
}

/// A creator that was made goes to its own place in the indexer, which is otherwise unchanged, and
/// the build goes on after that index. Without a creator the indexer is not changed in any way
/// but that this place is empty.
pub proof fn law_creator_goes_to_its_place<B: Backend>(
    inverted: InvertedCreation<B>,
    inverted_creator: B::InvertedIndexer,
    fulltext: FulltextCreation<B>,
    fulltext_creator: B::FulltextIndexer,
    bloom_filter: BloomFilterCreation<B>,
    bloom_filter_creator: B::BloomFilterIndexer,
    error: B::Error,
)
    ensures
        inverted.after_created(inverted_creator) == inverted.builder.after_inverted(
            Indexer { inverted_indexer: Some(inverted_creator), ..inverted.indexer },
        ),
        fulltext.after_created(Ok(Some(fulltext_creator))) == fulltext.builder.after_fulltext(
            Indexer { fulltext_indexer: Some(fulltext_creator), ..fulltext.indexer },
        ),
        fulltext.after_created(Ok(None)) == fulltext.builder.after_fulltext(
            Indexer { fulltext_indexer: None, ..fulltext.indexer },
        ),
        fulltext.after_created(Err(error)) == fulltext.builder.after_fulltext(
            Indexer { fulltext_indexer: None, ..fulltext.indexer },
        ),
        bloom_filter.after_created(Ok(Some(bloom_filter_creator)))
            == bloom_filter.builder.after_bloom_filter(
            Indexer { bloom_filter_indexer: Some(bloom_filter_creator), ..bloom_filter.indexer },
        ),
        bloom_filter.after_created(Ok(None)) == bloom_filter.builder.after_bloom_filter(
            Indexer { bloom_filter_indexer: None, ..bloom_filter.indexer },
        ),
        bloom_filter.after_created(Err(error)) == bloom_filter.builder.after_bloom_filter(
            Indexer { bloom_filter_indexer: None, ..bloom_filter.indexer },
        ),
{
}

/// Over a whole build, the modes for the file's operation decide. An index whose mode is `Disable`
/// gets no creator, whatever the backend would answer. One whose mode is `Auto` gets the creator
/// that the backend answers with, if any, except that an inverted index without columns, without
/// rows in a segment or without rows in a row group gets none.
pub proof fn law_modes_decide_over_the_whole_build<B: Backend>(
    builder: IndexerBuilderImpl<B>,
    file_id: FileId,
    replies: BuildReplies<B>,
)
    ensures
        ({
            let flush = builder.op_type is Flush;
            let inverted_enabled = if flush {
                builder.inverted_index_config.create_on_flush is Auto
            } else {
                builder.inverted_index_config.create_on_compaction is Auto
            };
            let fulltext_enabled = if flush {
                builder.fulltext_index_config.create_on_flush is Auto
            } else {
                builder.fulltext_index_config.create_on_compaction is Auto
            };
            let bloom_filter_enabled = if flush {
                builder.bloom_filter_index_config.create_on_flush is Auto
            } else {
                builder.bloom_filter_index_config.create_on_compaction is Auto
            };
            let indexable = replies.indexed_column_ids@.len() != 0
                && builder.index_options.inverted_index.segment_row_count != 0
                && builder.row_group_size != 0;
            let indexer = builder.first_step(file_id).outcome(replies);
            let empty = indexer.inverted_indexer is None && indexer.fulltext_indexer is None
                && indexer.bloom_filter_indexer is None;
            &&& inverted_enabled && indexable ==> indexer.inverted_indexer == Some(
                replies.inverted,
            )
            &&& !inverted_enabled || !indexable ==> indexer.inverted_indexer is None
            &&& fulltext_enabled ==> match replies.fulltext {
                Ok(creator) => indexer.fulltext_indexer == creator,
                Err(_) => indexer.fulltext_indexer is None,
            }
            &&& !fulltext_enabled ==> indexer.fulltext_indexer is None
            &&& bloom_filter_enabled ==> match replies.bloom_filter {
                Ok(creator) => indexer.bloom_filter_indexer == creator,
                Err(_) => indexer.bloom_filter_indexer is None,
            }
            &&& !bloom_filter_enabled ==> indexer.bloom_filter_indexer is None
            &&& !empty ==> {
                &&& indexer.file_id == file_id
                &&& indexer.region_id == builder.metadata.region_id
                &&& indexer.puffin_manager == Some(builder.puffin_manager)
            }
            &&& empty ==> {
                &&& indexer.file_id == 0
                &&& indexer.region_id == 0
                &&& indexer.puffin_manager is None
            }
            &&& indexer.last_mem_inverted_index == 0
            &&& indexer.last_mem_fulltext_index == 0
            &&& indexer.last_mem_bloom_filter == 0
        }),
{
    law_build_ends_in_the_due_creators(builder, file_id, replies);
}

/// The outcome of a step is the outcome of the step that its answer leads to.
pub proof fn law_outcome_follows_the_answers<B: Backend>(
    replies: BuildReplies<B>,
    listing: ColumnListing<B>,
    inverted: InvertedCreation<B>,
    fulltext: FulltextCreation<B>,
    bloom_filter: BloomFilterCreation<B>,
    indexer: Indexer<B>,
)
    ensures
        BuildStep::ListColumns(listing).outcome(replies) == listing.after_listed(
            replies.indexed_column_ids,
        ).outcome(replies),
        BuildStep::CreateInverted(inverted).outcome(replies) == inverted.after_created(
            replies.inverted,
        ).outcome(replies),
        BuildStep::CreateFulltext(fulltext).outcome(replies) == fulltext.after_created(
            replies.fulltext,
        ).outcome(replies),
        BuildStep::CreateBloomFilter(bloom_filter).outcome(replies) == bloom_filter.after_created(
            replies.bloom_filter,
        ).outcome(replies),
        BuildStep::Done(indexer).outcome(replies) == indexer,
{
}

/// While the columns are looked for, the region's own metadata and the columns to leave out are
/// those of the builder. A build that was aborted gives an indexer that stands for no file.
pub proof fn law_build_shows_its_own_settings<B: Backend>(
    listing: &ColumnListing<B>,
    metadata: &Arc<RegionMetadata<B>>,
    ids: &Vec<ColumnId>,
    abort: BuildAbort<B>,
    indexer: Indexer<B>,
)
    requires
        call_ensures(ColumnListing::<B>::metadata, (listing,), metadata),
        call_ensures(ColumnListing::<B>::ignore_column_ids, (listing,), ids),
        call_ensures(BuildAbort::<B>::aborted, (abort,), indexer),
    ensures
        *metadata == listing.builder.metadata,
        *ids == listing.builder.index_options.inverted_index.ignore_column_ids,
        indexer.file_id == 0,
        indexer.region_id == 0,
        indexer.puffin_manager is None,
        indexer.inverted_indexer is None,
        indexer.fulltext_indexer is None,
        indexer.bloom_filter_indexer is None,
{
}

} // verus!
