//! Settings that decide which indexes are created and how.
use vstd::prelude::*;

use crate::output::ColumnId;

verus! {

/// Whether an index is created without being asked for.
#[derive(Debug, Clone, Copy, PartialEq, Eq, Structural)]
pub enum Mode {
    /// Create the index automatically.
    Auto,
    /// Do not create the index.
    Disable,
}

impl Mode {
    /// Whether the index is created automatically.
    pub fn auto(&self) -> (auto: bool)
        ensures
            auto == (*self is Auto),
    {
        match self {
            Mode::Auto => true,
            Mode::Disable => false,
        }
    }
}

/// The operation that an SST comes from.
#[derive(Debug, Clone, Copy, PartialEq, Eq, Structural)]
pub enum OperationType {
    /// The file was written from a memtable.
    Flush,
    /// The file was written by a compaction.
    Compact,
}

/// What a request to build an index is made for: the same two operations.
pub type IndexBuildType = OperationType;

/// Whether an index is created for a file that `op_type` wrote.
pub open spec fn creates_on(
    op_type: OperationType,
    create_on_flush: Mode,
    create_on_compaction: Mode,
) -> bool {
    match op_type {
        OperationType::Flush => create_on_flush is Auto,
        OperationType::Compact => create_on_compaction is Auto,
    }
}

/// Settings of the inverted index.
#[derive(Debug, Clone, Copy)]
pub struct InvertedIndexConfig {
    /// Whether to create the index on flush.
    pub create_on_flush: Mode,
    /// Whether to create the index on compaction.
    pub create_on_compaction: Mode,
    /// Memory that the creation may take, in bytes; without a limit if there is none.
    pub mem_threshold_on_create: Option<usize>,
}

impl InvertedIndexConfig {
    /// Whether the index is created for a file that `op_type` wrote.
    pub open spec fn creates(self, op_type: OperationType) -> bool {
        creates_on(op_type, self.create_on_flush, self.create_on_compaction)
    }

    /// Whether the index is created for a file that `op_type` wrote.
    pub fn create_on(&self, op_type: OperationType) -> (create: bool)
        ensures
            create == self.creates(op_type),
    {
        match op_type {
            OperationType::Flush => self.create_on_flush.auto(),
            OperationType::Compact => self.create_on_compaction.auto(),
        }
    }
}

/// Settings of the fulltext index.
#[derive(Debug, Clone, Copy)]
pub struct FulltextIndexConfig {
    /// Whether to create the index on flush.
    pub create_on_flush: Mode,
    /// Whether to create the index on compaction.
    pub create_on_compaction: Mode,
    /// Whether to compress the index data.
    pub compress: bool,
    /// Memory that the creation may take, in bytes; without a limit if there is none.
    pub mem_threshold_on_create: Option<usize>,
}

impl FulltextIndexConfig {
    /// Whether the index is created for a file that `op_type` wrote.
    pub open spec fn creates(self, op_type: OperationType) -> bool {
        creates_on(op_type, self.create_on_flush, self.create_on_compaction)
    }

    /// Whether the index is created for a file that `op_type` wrote.
    pub fn create_on(&self, op_type: OperationType) -> (create: bool)
        ensures
            create == self.creates(op_type),
    {
        match op_type {
            OperationType::Flush => self.create_on_flush.auto(),
            OperationType::Compact => self.create_on_compaction.auto(),
        }
    }
}

/// Settings of the bloom filter.
#[derive(Debug, Clone, Copy)]
pub struct BloomFilterConfig {
    /// Whether to create the index on flush.
    pub create_on_flush: Mode,
    /// Whether to create the index on compaction.
    pub create_on_compaction: Mode,
    /// Memory that the creation may take, in bytes; without a limit if there is none.
    pub mem_threshold_on_create: Option<usize>,
}

impl BloomFilterConfig {
    /// Whether the index is created for a file that `op_type` wrote.
    pub open spec fn creates(self, op_type: OperationType) -> bool {
        creates_on(op_type, self.create_on_flush, self.create_on_compaction)
    }

    /// Whether the index is created for a file that `op_type` wrote.
    pub fn create_on(&self, op_type: OperationType) -> (create: bool)
        ensures
            create == self.creates(op_type),
    {
        match op_type {
            OperationType::Flush => self.create_on_flush.auto(),
            OperationType::Compact => self.create_on_compaction.auto(),
        }
    }
}

/// Options of a region's inverted index.
#[derive(Debug)]
pub struct InvertedIndexOptions {
    /// Columns that are left out of the index.
    pub ignore_column_ids: Vec<ColumnId>,
    /// Number of rows in a segment of the index.
    pub segment_row_count: usize,
}

/// Options of a region's indexes.
#[derive(Debug)]
pub struct IndexOptions {
    /// Options of the inverted index.
    pub inverted_index: InvertedIndexOptions,
}

/// An index is created for a flushed file exactly where its mode for flush is `Auto`, and for a
/// compacted file exactly where its mode for compaction is. No other setting matters.
pub proof fn law_mode_for_the_operation_decides(
    inverted_index: InvertedIndexConfig,
    fulltext_index: FulltextIndexConfig,
    bloom_filter: BloomFilterConfig,
)
    ensures
        inverted_index.creates(OperationType::Flush) == (inverted_index.create_on_flush is Auto),
        inverted_index.creates(OperationType::Compact) == (
        inverted_index.create_on_compaction is Auto),
        fulltext_index.creates(OperationType::Flush) == (fulltext_index.create_on_flush is Auto),
        fulltext_index.creates(OperationType::Compact) == (
        fulltext_index.create_on_compaction is Auto),
        bloom_filter.creates(OperationType::Flush) == (bloom_filter.create_on_flush is Auto),
        bloom_filter.creates(OperationType::Compact) == (
        bloom_filter.create_on_compaction is Auto),
{
}

/// A mode that is not `Auto` never creates an index of any kind for its operation, and one that is
/// always does.
pub proof fn law_every_index_is_created_by_its_mode(
    inverted_index: &InvertedIndexConfig,
    fulltext_index: &FulltextIndexConfig,
    bloom_filter: &BloomFilterConfig,
    op_type: OperationType,
    inverted: bool,
    fulltext: bool,
    bloom: bool,
)
    requires
        call_ensures(InvertedIndexConfig::create_on, (inverted_index, op_type), inverted),
        call_ensures(FulltextIndexConfig::create_on, (fulltext_index, op_type), fulltext),
        call_ensures(BloomFilterConfig::create_on, (bloom_filter, op_type), bloom),
    ensures
        op_type is Flush ==> {
            &&& inverted <==> inverted_index.create_on_flush is Auto
            &&& fulltext <==> fulltext_index.create_on_flush is Auto
            &&& bloom <==> bloom_filter.create_on_flush is Auto
        },
        op_type is Compact ==> {
            &&& inverted <==> inverted_index.create_on_compaction is Auto
            &&& fulltext <==> fulltext_index.create_on_compaction is Auto
            &&& bloom <==> bloom_filter.create_on_compaction is Auto
        },
{
}

} // verus!
