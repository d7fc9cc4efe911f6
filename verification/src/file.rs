//! Files of a region and what their metadata says of their indexes.
use smallvec::SmallVec;
use std::sync::Arc;
use vstd::prelude::*;

use crate::backend::Backend;

verus! {

/// Identifies an SST: the number that its UUID stands for.
pub type FileId = u128;

/// Identifies a region.
pub type RegionId = u64;

/// The kinds of index that an SST can have.
#[derive(Debug, Clone, Copy, PartialEq, Eq, Structural)]
pub enum IndexType {
    /// Maps the values of a column to row segments.
    InvertedIndex,
    /// Finds terms in text columns.
    FulltextIndex,
    /// Rules out row groups that cannot hold a value.
    BloomFilterIndex,
}

/// The kinds of index that an SST has, in a [`SmallVec`] that holds up to four in place.
#[verifier::external_body]
pub struct IndexList {
    items: SmallVec<[IndexType; 4]>,
}

/// The index kinds that `list` holds, first to last.
pub uninterp spec fn listed_indexes(list: IndexList) -> Seq<IndexType>;

/// Calls [`SmallVec::new`]: the list that it constructs is empty.
#[verifier::external_body]
fn new_index_list() -> (list: IndexList)
    ensures
        listed_indexes(list) == Seq::<IndexType>::empty(),
{
    IndexList { items: SmallVec::new() }
}

/// Calls [`SmallVec::push`]: the item is appended and the others stay as they are. A full list
/// grows to the next power of two, and an item takes one byte, so below half of `isize::MAX`
/// items the capacity does not overflow.
#[verifier::external_body]
fn push_index(list: &mut IndexList, index_type: IndexType)
    requires
        listed_indexes(*old(list)).len() < isize::MAX / 2,
    ensures
        listed_indexes(*final(list)) == listed_indexes(*old(list)).push(index_type),
{
    list.items.push(index_type)
}

/// Calls [`SmallVec::as_slice`]: the slice holds the list's items in the list's order.
#[verifier::external_body]
fn index_slice(list: &IndexList) -> (slice: &[IndexType])
    ensures
        slice@ == listed_indexes(*list),
{
    list.items.as_slice()
}

impl View for IndexList {
    type V = Seq<IndexType>;

    open spec fn view(&self) -> Seq<IndexType> {
        listed_indexes(*self)
    }
}

impl IndexList {
    /// A list without items.
    pub fn new() -> (list: Self)
        ensures
            list@ == Seq::<IndexType>::empty(),
    {
        new_index_list()
    }

    /// Appends `index_type`.
    pub fn push(&mut self, index_type: IndexType)
        requires
            old(self)@.len() < isize::MAX / 2,
        ensures
            final(self)@ == old(self)@.push(index_type),
    {
        push_index(self, index_type)
    }

    /// The items of the list.
    pub fn as_slice(&self) -> (slice: &[IndexType])
        ensures
            slice@ == self@,
    {
        index_slice(self)
    }
}

/// What a region's manifest records of an SST.
pub struct FileMeta<B: Backend> {
    /// Region that the file belongs to.
    pub region_id: RegionId,
    /// Id of the file.
    pub file_id: FileId,
    /// Kinds of index that the file has.
    pub available_indexes: IndexList,
    /// Size of the index file, in bytes.
    pub index_file_size: u64,
    /// Everything else that is recorded of the file.
    pub details: Arc<B::FileDetails>,
}

/// A handle to an SST.
pub struct FileHandle<B: Backend> {
    /// Metadata of the file.
    pub meta: Arc<FileMeta<B>>,
    /// Removes the file when the last handle is gone.
    pub file_purger: Arc<B::FilePurger>,
    /// Whether the file is marked as deleted.
    pub deleted: bool,
}

impl<B: Backend> FileHandle<B> {
    /// A handle to a file that is not deleted.
    pub fn new(meta: Arc<FileMeta<B>>, file_purger: Arc<B::FilePurger>) -> (handle: Self)
        ensures
            handle == (FileHandle { meta, file_purger, deleted: false }),
    {
        FileHandle { meta, file_purger, deleted: false }
    }

    /// Whether the file is marked as deleted.
    pub fn is_deleted(&self) -> (deleted: bool)
        ensures
            deleted == self.deleted,
    {
        self.deleted
    }
}

impl<B: Backend> Clone for FileHandle<B> {
    fn clone(&self) -> (handle: Self)
        ensures
            handle == *self,
    {
        FileHandle {
            meta: self.meta.clone(),
            file_purger: self.file_purger.clone(),
            deleted: self.deleted,
        }
    }
}

/// A new handle is one to the file that it was made for, and not deleted. Every copy of a handle
/// is a handle to the same file and says the same of whether it is deleted.
pub proof fn law_copies_agree_on_deletion<B: Backend>(
    meta: Arc<FileMeta<B>>,
    file_purger: Arc<B::FilePurger>,
    fresh: FileHandle<B>,
    handle: &FileHandle<B>,
    copy: FileHandle<B>,
    before: bool,
    after: bool,
)
    requires
        call_ensures(FileHandle::<B>::new, (meta, file_purger), fresh),
        call_ensures(FileHandle::<B>::clone, (handle,), copy),
        call_ensures(FileHandle::<B>::is_deleted, (handle,), before),
        call_ensures(FileHandle::<B>::is_deleted, (&copy,), after),
    ensures
        fresh.meta == meta,
        fresh.file_purger == file_purger,
        !fresh.deleted,
        copy.meta == handle.meta,
        copy.file_purger == handle.file_purger,
        before == handle.deleted,
        after == before,
{
}

/// A list shows what it holds.
pub proof fn law_list_shows_what_it_holds(list: IndexList)
    ensures
        list@ == listed_indexes(list),
{
}

} // verus!
