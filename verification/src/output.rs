//! What the creation of an SST's indexes brought about.
use vstd::prelude::*;

use crate::file::{IndexList, IndexType};

verus! {

/// Number of bytes.
pub type ByteCount = u64;

/// Number of rows.
pub type RowCount = usize;

/// Identifies a column of a region.
pub type ColumnId = u32;

/// Base output of the index creation.
#[derive(Debug)]
pub struct IndexBaseOutput {
    /// Size of the index.
    pub index_size: ByteCount,
    /// Number of rows in the index.
    pub row_count: RowCount,
    /// Available columns in the index.
    pub columns: Vec<ColumnId>,
}

impl IndexBaseOutput {
    /// Whether there is an index: one that was not created has no size.
    pub open spec fn available(self) -> bool {
        self.index_size > 0
    }

    /// Whether the index was created.
    pub fn is_available(&self) -> (available: bool)
        ensures
            available == self.available(),
    {
        self.index_size > 0
    }
}

/// Output of the inverted index creation.
pub type InvertedIndexOutput = IndexBaseOutput;

/// Output of the fulltext index creation.
pub type FulltextIndexOutput = IndexBaseOutput;

/// Output of the bloom filter creation.
pub type BloomFilterOutput = IndexBaseOutput;

/// Output of the index creation.
#[derive(Debug)]
pub struct IndexOutput {
    /// Size of the file.
    pub file_size: u64,
    /// Inverted index output.
    pub inverted_index: InvertedIndexOutput,
    /// Fulltext index output.
    pub fulltext_index: FulltextIndexOutput,
    /// Bloom filter output.
    pub bloom_filter: BloomFilterOutput,
}

/// `kind` alone where `present`, nothing otherwise.
pub open spec fn kind_if(present: bool, kind: IndexType) -> Seq<IndexType> {
    if present {
        seq![kind]
    } else {
        seq![]
    }
}

impl IndexOutput {
    /// The kinds of index that were created: inverted index, fulltext index, bloom filter.
    pub open spec fn created(self) -> Seq<IndexType> {
        kind_if(self.inverted_index.available(), IndexType::InvertedIndex)
            + kind_if(self.fulltext_index.available(), IndexType::FulltextIndex)
            + kind_if(self.bloom_filter.available(), IndexType::BloomFilterIndex)
    }

    /// Lists the kinds of index that were created.
    pub fn build_available_indexes(&self) -> (indexes: IndexList)
        ensures
            indexes@ == self.created(),
    {
        let mut indexes = IndexList::new();
        if self.inverted_index.is_available() {
            indexes.push(IndexType::InvertedIndex);
        }
        if self.fulltext_index.is_available() {
            indexes.push(IndexType::FulltextIndex);
        }
        if self.bloom_filter.is_available() {
            indexes.push(IndexType::BloomFilterIndex);
        }
        assert(indexes@ =~= self.created());
        indexes
    }
}

impl Default for IndexBaseOutput {
    fn default() -> (output: Self)
        ensures
            output.index_size == 0,
            output.row_count == 0,
            output.columns@ == Seq::<ColumnId>::empty(),
    {
        IndexBaseOutput { index_size: 0, row_count: 0, columns: Vec::new() }
    }
}

impl Default for IndexOutput {
    fn default() -> (output: Self)
        ensures
            output.file_size == 0,
            output.inverted_index.index_size == 0,
            output.inverted_index.row_count == 0,
            output.inverted_index.columns@ == Seq::<ColumnId>::empty(),
            output.fulltext_index.index_size == 0,
            output.fulltext_index.row_count == 0,
            output.fulltext_index.columns@ == Seq::<ColumnId>::empty(),
            output.bloom_filter.index_size == 0,
            output.bloom_filter.row_count == 0,
            output.bloom_filter.columns@ == Seq::<ColumnId>::empty(),
    {
        IndexOutput {
            file_size: 0,
            inverted_index: IndexBaseOutput::default(),
            fulltext_index: IndexBaseOutput::default(),
            bloom_filter: IndexBaseOutput::default(),
        }
    }
}

impl IndexBaseOutput {
    /// Whether `other` says the same.
    pub open spec fn same_as(self, other: Self) -> bool {
        &&& self.index_size == other.index_size
        &&& self.row_count == other.row_count
        &&& self.columns@ == other.columns@
    }
}

impl Clone for IndexBaseOutput {
    fn clone(&self) -> (output: Self)
        ensures
            output.same_as(*self),
    {
        let output = IndexBaseOutput {
            index_size: self.index_size,
            row_count: self.row_count,
            columns: self.columns.clone(),
        };
        assert(output.columns@ =~= self.columns@);
        output
    }
}

impl Clone for IndexOutput {
    fn clone(&self) -> (output: Self)
        ensures
            output.file_size == self.file_size,
            output.inverted_index.same_as(self.inverted_index),
            output.fulltext_index.same_as(self.fulltext_index),
            output.bloom_filter.same_as(self.bloom_filter),
    {
        IndexOutput {
            file_size: self.file_size,
            inverted_index: self.inverted_index.clone(),
            fulltext_index: self.fulltext_index.clone(),
            bloom_filter: self.bloom_filter.clone(),
        }
    }
}

/// The place of a kind in the list of created indexes.
pub open spec fn kind_rank(kind: IndexType) -> int {
    match kind {
        IndexType::InvertedIndex => 0,
        IndexType::FulltextIndex => 1,
        IndexType::BloomFilterIndex => 2,
    }
}

/// The list of created indexes holds a kind exactly where its index is available, no kind twice,
/// and always in the same order.
pub proof fn law_created_lists_the_available(output: IndexOutput)
    ensures
        output.created().contains(IndexType::InvertedIndex)
            <==> output.inverted_index.available(),
        output.created().contains(IndexType::FulltextIndex)
            <==> output.fulltext_index.available(),
        output.created().contains(IndexType::BloomFilterIndex)
            <==> output.bloom_filter.available(),
        output.created().no_duplicates(),
        forall|i: int, j: int|
            0 <= i < j < output.created().len() ==> kind_rank(#[trigger] output.created()[i])
                < kind_rank(#[trigger] output.created()[j]),
{
    let created = output.created();
    let inverted = kind_if(output.inverted_index.available(), IndexType::InvertedIndex);
    let fulltext = kind_if(output.fulltext_index.available(), IndexType::FulltextIndex);
    if output.inverted_index.available() {
        assert(created[0] == IndexType::InvertedIndex);
    }
    if output.fulltext_index.available() {
        assert(created[inverted.len() as int] == IndexType::FulltextIndex);
    }
    if output.bloom_filter.available() {
        assert(created[(inverted + fulltext).len() as int] == IndexType::BloomFilterIndex);
    }
}

/// An index is available exactly where it has a size, and nothing else about it matters.
pub proof fn law_size_makes_an_index_available(output: IndexBaseOutput)
    ensures
        output.available() <==> output.index_size != 0,
{
}

/// The list of created indexes has one place for each index with a size: the inverted index comes
/// first, the bloom filter last, and the fulltext index right after the inverted index.
pub proof fn law_sizes_decide_what_is_listed(output: IndexOutput)
    ensures
        ({
            let inverted: int = if output.inverted_index.index_size > 0 {
                1
            } else {
                0
            };
            let fulltext: int = if output.fulltext_index.index_size > 0 {
                1
            } else {
                0
            };
            let bloom_filter: int = if output.bloom_filter.index_size > 0 {
                1
            } else {
                0
            };
            let created = output.created();
            &&& created.len() == inverted + fulltext + bloom_filter
            &&& inverted == 1 ==> created[0] == IndexType::InvertedIndex
            &&& fulltext == 1 ==> created[inverted] == IndexType::FulltextIndex
            &&& bloom_filter == 1 ==> created[inverted + fulltext]
                == IndexType::BloomFilterIndex
        }),
{
}

/// Two outputs that say the same agree on the size, the number of rows and every column.
pub proof fn law_same_outputs_agree_on_everything(output: IndexBaseOutput, other: IndexBaseOutput)
    ensures
        output.same_as(other) <==> output.index_size == other.index_size && output.row_count
            == other.row_count && output.columns@.len() == other.columns@.len() && forall|i: int|
            0 <= i < output.columns@.len() ==> output.columns@[i] == #[trigger] other.columns@[i],
{
    if output.columns@.len() == other.columns@.len() && forall|i: int|
        0 <= i < output.columns@.len() ==> output.columns@[i] == #[trigger] other.columns@[i] {
        assert(output.columns@ =~= other.columns@);
    }
}

/// A default output tells of no file and of no index.
pub proof fn law_default_output_has_no_index(output: IndexOutput)
    requires
        call_ensures(IndexOutput::default, (), output),
    ensures
        output.file_size == 0,
        output.inverted_index.index_size == 0,
        output.fulltext_index.index_size == 0,
        output.bloom_filter.index_size == 0,
        output.created().len() == 0,
{
}

/// A copy of an output tells of the same file and of the same indexes.
pub proof fn law_copied_output_lists_the_same(output: &IndexOutput, copy: IndexOutput)
    requires
        call_ensures(IndexOutput::clone, (output,), copy),
    ensures
        copy.file_size == output.file_size,
        copy.inverted_index.index_size == output.inverted_index.index_size,
        copy.inverted_index.row_count == output.inverted_index.row_count,
        copy.inverted_index.columns@ == output.inverted_index.columns@,
        copy.fulltext_index.index_size == output.fulltext_index.index_size,
        copy.fulltext_index.row_count == output.fulltext_index.row_count,
        copy.fulltext_index.columns@ == output.fulltext_index.columns@,
        copy.bloom_filter.index_size == output.bloom_filter.index_size,
        copy.bloom_filter.row_count == output.bloom_filter.row_count,
        copy.bloom_filter.columns@ == output.bloom_filter.columns@,
        copy.created() == output.created(),
{
}

} // verus!
