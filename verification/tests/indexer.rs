use sst_index::backend::Backend;
use sst_index::indexer::{GaugeUpdate, Indexer, MemoryUsage};
use sst_index::output::IndexOutput;

struct Engine;

impl Backend for Engine {
    type AccessLayer = ();
    type FilePurger = ();
    type FileDetails = ();
    type RegionSchema = ();
    type WriteCache = ();
    type IntermediateManager = ();
    type RequestSender = ();
    type InvertedIndexer = ();
    type FulltextIndexer = ();
    type BloomFilterIndexer = ();
    type Reader = ();
    type Batch = ();
    type Error = ();
}

fn usage(inverted_index: usize, fulltext_index: usize, bloom_filter: usize) -> MemoryUsage {
    MemoryUsage { inverted_index, fulltext_index, bloom_filter }
}

fn deltas(updates: &[GaugeUpdate]) -> Vec<i64> {
    updates.iter().map(|update| update.delta).collect()
}

#[test]
fn memory_is_reported_under_labels() {
    let mut indexer = Indexer::<Engine>::default();
    indexer.inverted_indexer = Some(());
    indexer.fulltext_indexer = Some(());
    indexer.bloom_filter_indexer = Some(());
    let updates = indexer.update(usage(10, 20, 30));
    let labels: Vec<&str> = updates.iter().map(|update| update.label).collect();
    assert_eq!(labels, vec!["inverted_index", "fulltext_index", "bloom_filter_index"]);
    assert_eq!(deltas(&updates), vec![10, 20, 30]);
    assert_eq!(indexer.last_mem_inverted_index, 10);
    assert_eq!(indexer.last_mem_fulltext_index, 20);
    assert_eq!(indexer.last_mem_bloom_filter, 30);
}

#[test]
fn missing_creator_holds_no_memory() {
    let mut indexer = Indexer::<Engine>::default();
    indexer.fulltext_indexer = Some(());
    assert_eq!(deltas(&indexer.update(usage(10, 20, 30))), vec![0, 20, 0]);
}

#[test]
fn repeated_report_adds_nothing() {
    let mut indexer = Indexer::<Engine>::default();
    indexer.inverted_indexer = Some(());
    assert_eq!(deltas(&indexer.flush_mem_metrics(usage(10, 0, 0))), vec![10, 0, 0]);
    assert_eq!(deltas(&indexer.flush_mem_metrics(usage(10, 0, 0))), vec![0, 0, 0]);
}

#[test]
fn gauge_returns_to_zero() {
    let mut indexer = Indexer::<Engine>::default();
    indexer.inverted_indexer = Some(());
    indexer.bloom_filter_indexer = Some(());
    let mut gauge = vec![0i64; 3];
    let mut tell = |updates: [GaugeUpdate; 3]| {
        for (i, update) in updates.iter().enumerate() {
            gauge[i] += update.delta;
        }
        gauge.clone()
    };
    assert_eq!(tell(indexer.update(usage(100, 0, 50))), vec![100, 0, 50]);
    assert_eq!(tell(indexer.update(usage(40, 0, 70))), vec![40, 0, 70]);
    indexer.inverted_indexer = None;
    indexer.bloom_filter_indexer = None;
    let (output, updates) = indexer.finish(
        IndexOutput { file_size: 77, ..IndexOutput::default() },
        usage(40, 0, 70),
    );
    assert_eq!(output.file_size, 77);
    assert_eq!(tell(updates), vec![0, 0, 0]);
}

#[test]
fn aborted_indexer_gives_its_memory_back() {
    let mut indexer = Indexer::<Engine>::default();
    indexer.bloom_filter_indexer = Some(());
    indexer.update(usage(0, 0, 5));
    indexer.bloom_filter_indexer = None;
    assert_eq!(deltas(&indexer.abort(usage(0, 0, 0))), vec![0, 0, -5]);
}

#[test]
fn gauge_counts_with_a_sign() {
    let mut indexer = Indexer::<Engine>::default();
    indexer.inverted_indexer = Some(());
    let largest = i64::MAX as usize;
    assert!(indexer.can_flush_mem_metrics(usage(largest, 0, 0)));
    assert_eq!(indexer.update(usage(largest, 0, 0))[0].delta, i64::MAX);
    // One more byte is the least value that the gauge knows.
    assert!(!indexer.can_flush_mem_metrics(usage(largest + 1, 0, 0)));
    indexer.update(usage(0, 0, 0));
    assert!(indexer.can_flush_mem_metrics(usage(largest + 1, 0, 0)));
    assert_eq!(indexer.update(usage(usize::MAX, 0, 0))[0].delta, -1);
}
