//! The services that a storage engine supplies around the library.
use vstd::prelude::*;

verus! {

/// The kinds of handle that a storage engine hands to this library.
///
/// The library never looks inside a value of one of these types. It decides which handle goes
/// where, and passes it on.
pub trait Backend: Sized {
    /// Reads and writes the files of a region.
    type AccessLayer;

    /// Removes a file once nothing refers to it.
    type FilePurger;

    /// What a file's metadata records beside the fields that the library reads.
    type FileDetails;

    /// The schema of a region: its columns and their options.
    type RegionSchema;

    /// The local cache that a region is written through.
    type WriteCache;

    /// Holds the intermediate files of an index that is being built.
    type IntermediateManager;

    /// Carries requests to the worker that owns a region.
    type RequestSender;

    /// Creates an inverted index.
    type InvertedIndexer;

    /// Creates a fulltext index.
    type FulltextIndexer;

    /// Creates a bloom filter.
    type BloomFilterIndexer;

    /// Reads an SST batch by batch.
    type Reader;

    /// A batch of rows.
    type Batch;

    /// Why a service failed.
    type Error;
}

} // verus!
