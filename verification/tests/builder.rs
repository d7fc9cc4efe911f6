use std::sync::Arc;

use sst_index::backend::Backend;
use sst_index::builder::{
    BuildStep, IndexerBuilder, IndexerBuilderImpl, RegionMetadata,
    DEFAULT_FULLTEXT_BLOOM_ROW_GRANULARITY,
};
use sst_index::config::{
    BloomFilterConfig, FulltextIndexConfig, IndexOptions, InvertedIndexConfig,
    InvertedIndexOptions, Mode, OperationType,
};
use sst_index::file::FileId;
use sst_index::indexer::{Indexer, SstPuffinManager};

struct Engine;

struct Schema {
    inverted: Vec<u32>,
    fulltext: Vec<u32>,
    skipping_bloom: Vec<u32>,
}

impl Backend for Engine {
    type AccessLayer = &'static str;
    type FilePurger = ();
    type FileDetails = ();
    type RegionSchema = Schema;
    type WriteCache = &'static str;
    type IntermediateManager = &'static str;
    type RequestSender = ();
    type InvertedIndexer = (FileId, usize, Vec<u32>);
    type FulltextIndexer = (FileId, usize);
    type BloomFilterIndexer = FileId;
    type Reader = ();
    type Batch = ();
    type Error = String;
}

struct MetaConfig {
    with_inverted: bool,
    with_fulltext: bool,
    with_skipping_bloom: bool,
}

const REGION: u64 = (1 << 32) | 2;

const FILE: FileId = 0x5bd1_e995_0000_4000_8000_0000_0000_0001;

fn mock_region_metadata(config: MetaConfig) -> Arc<RegionMetadata<Engine>> {
    Arc::new(RegionMetadata {
        region_id: REGION,
        schema: Arc::new(Schema {
            inverted: if config.with_inverted { vec![1] } else { vec![] },
            fulltext: if config.with_fulltext { vec![4] } else { vec![] },
            skipping_bloom: if config.with_skipping_bloom { vec![5] } else { vec![] },
        }),
    })
}

fn inverted_config() -> InvertedIndexConfig {
    InvertedIndexConfig {
        create_on_flush: Mode::Auto,
        create_on_compaction: Mode::Auto,
        mem_threshold_on_create: Some(64 << 20),
    }
}

fn fulltext_config() -> FulltextIndexConfig {
    FulltextIndexConfig {
        create_on_flush: Mode::Auto,
        create_on_compaction: Mode::Auto,
        compress: true,
        mem_threshold_on_create: Some(32 << 20),
    }
}

fn bloom_filter_config() -> BloomFilterConfig {
    BloomFilterConfig {
        create_on_flush: Mode::Auto,
        create_on_compaction: Mode::Auto,
        mem_threshold_on_create: None,
    }
}

fn index_options(segment_row_count: usize) -> Arc<IndexOptions> {
    Arc::new(IndexOptions {
        inverted_index: InvertedIndexOptions { ignore_column_ids: vec![], segment_row_count },
    })
}

fn builder(path: &'static str, metadata: Arc<RegionMetadata<Engine>>) -> IndexerBuilderImpl<Engine> {
    IndexerBuilderImpl {
        op_type: OperationType::Flush,
        metadata,
        row_group_size: 1024,
        puffin_manager: SstPuffinManager::AccessLayer { access_layer: Arc::new("memory") },
        intermediate_manager: Arc::new(path),
        index_options: index_options(1024),
        inverted_index_config: inverted_config(),
        fulltext_index_config: fulltext_config(),
        bloom_filter_index_config: bloom_filter_config(),
    }
}

/// Runs a build against the schema of the builder's region.
fn run(mut step: BuildStep<Engine>) -> Indexer<Engine> {
    loop {
        step = match step {
            BuildStep::ListColumns(listing) => {
                let ignored = listing.ignore_column_ids().clone();
                let marked = listing.metadata().schema.inverted.clone();
                listing.listed(marked.into_iter().filter(|id| !ignored.contains(id)).collect())
            }
            BuildStep::CreateInverted(creation) => {
                let creator = (
                    creation.args.file_id,
                    creation.args.segment_row_count,
                    creation.args.indexed_column_ids.clone(),
                );
                creation.created(creator)
            }
            BuildStep::CreateFulltext(creation) => {
                let columns = &creation.args.metadata.schema.fulltext;
                let creator = (creation.args.file_id, creation.args.bloom_row_granularity);
                let reply = if columns.is_empty() { None } else { Some(creator) };
                creation.created(Ok(reply))
            }
            BuildStep::CreateBloomFilter(creation) => {
                let columns = &creation.args.metadata.schema.skipping_bloom;
                let reply = if columns.is_empty() { None } else { Some(creation.args.file_id) };
                creation.created(Ok(reply))
            }
            BuildStep::Abort(abort) => return abort.aborted(),
            BuildStep::Done(indexer) => return indexer,
        }
    }
}

fn all() -> Arc<RegionMetadata<Engine>> {
    mock_region_metadata(MetaConfig {
        with_inverted: true,
        with_fulltext: true,
        with_skipping_bloom: true,
    })
}

#[test]
fn test_build_indexer_basic() {
    let metadata = mock_region_metadata(MetaConfig {
        with_inverted: true,
        with_fulltext: true,
        with_skipping_bloom: true,
    });
    let indexer = run(IndexerBuilderImpl {
        op_type: OperationType::Flush,
        row_group_size: 1024,
        ..builder("test_build_indexer_basic_", metadata)
    }
    .build(FILE));

    assert!(indexer.inverted_indexer.is_some());
    assert!(indexer.fulltext_indexer.is_some());
    assert!(indexer.bloom_filter_indexer.is_some());
}

#[test]
fn test_build_indexer_disable_create() {
    let metadata = mock_region_metadata(MetaConfig {
        with_inverted: true,
        with_fulltext: true,
        with_skipping_bloom: true,
    });
    let indexer = run(IndexerBuilderImpl {
        op_type: OperationType::Flush,
        row_group_size: 1024,
        inverted_index_config: InvertedIndexConfig {
            create_on_flush: Mode::Disable,
            ..inverted_config()
        },
        ..builder("test_build_indexer_disable_create_", metadata.clone())
    }
    .build(FILE));

    assert!(indexer.inverted_indexer.is_none());
    assert!(indexer.fulltext_indexer.is_some());
    assert!(indexer.bloom_filter_indexer.is_some());

    let indexer = run(IndexerBuilderImpl {
        op_type: OperationType::Compact,
        row_group_size: 1024,
        fulltext_index_config: FulltextIndexConfig {
            create_on_compaction: Mode::Disable,
            ..fulltext_config()
        },
        ..builder("test_build_indexer_disable_create_", metadata.clone())
    }
    .build(FILE));

    assert!(indexer.inverted_indexer.is_some());
    assert!(indexer.fulltext_indexer.is_none());
    assert!(indexer.bloom_filter_indexer.is_some());

    let indexer = run(IndexerBuilderImpl {
        op_type: OperationType::Compact,
        row_group_size: 1024,
        bloom_filter_index_config: BloomFilterConfig {
            create_on_compaction: Mode::Disable,
            ..bloom_filter_config()
        },
        ..builder("test_build_indexer_disable_create_", metadata)
    }
    .build(FILE));

    assert!(indexer.inverted_indexer.is_some());
    assert!(indexer.fulltext_indexer.is_some());
    assert!(indexer.bloom_filter_indexer.is_none());
}

#[test]
fn test_build_indexer_no_required() {
    let metadata = mock_region_metadata(MetaConfig {
        with_inverted: false,
        with_fulltext: true,
        with_skipping_bloom: true,
    });
    let indexer = run(IndexerBuilderImpl {
        op_type: OperationType::Flush,
        row_group_size: 1024,
        ..builder("test_build_indexer_no_required_", metadata)
    }
    .build(FILE));

    assert!(indexer.inverted_indexer.is_none());
    assert!(indexer.fulltext_indexer.is_some());
    assert!(indexer.bloom_filter_indexer.is_some());

    let metadata = mock_region_metadata(MetaConfig {
        with_inverted: true,
        with_fulltext: false,
        with_skipping_bloom: true,
    });
    let indexer = run(IndexerBuilderImpl {
        op_type: OperationType::Flush,
        row_group_size: 1024,
        ..builder("test_build_indexer_no_required_", metadata)
    }
    .build(FILE));

    assert!(indexer.inverted_indexer.is_some());
    assert!(indexer.fulltext_indexer.is_none());
    assert!(indexer.bloom_filter_indexer.is_some());

    let metadata = mock_region_metadata(MetaConfig {
        with_inverted: true,
        with_fulltext: true,
        with_skipping_bloom: false,
    });
    let indexer = run(IndexerBuilderImpl {
        op_type: OperationType::Flush,
        row_group_size: 1024,
        ..builder("test_build_indexer_no_required_", metadata)
    }
    .build(FILE));

    assert!(indexer.inverted_indexer.is_some());
    assert!(indexer.fulltext_indexer.is_some());
    assert!(indexer.bloom_filter_indexer.is_none());
}

#[test]
fn test_build_indexer_zero_row_group() {
    let metadata = mock_region_metadata(MetaConfig {
        with_inverted: true,
        with_fulltext: true,
        with_skipping_bloom: true,
    });
    let indexer = run(IndexerBuilderImpl {
        op_type: OperationType::Flush,
        row_group_size: 0,
        ..builder("test_build_indexer_zero_row_group_", metadata)
    }
    .build(FILE));

    assert!(indexer.inverted_indexer.is_none());
}

#[test]
fn zero_segment_row_count_means_no_inverted_index() {
    let indexer = run(IndexerBuilderImpl {
        index_options: index_options(0),
        ..builder("zero_segment_", all())
    }
    .build(FILE));
    assert!(indexer.inverted_indexer.is_none());
    assert!(indexer.fulltext_indexer.is_some());
    assert!(indexer.bloom_filter_indexer.is_some());
}

#[test]
fn segment_row_count_is_aligned() {
    let segment = |segment_row_count: usize, row_group_size: usize| {
        IndexerBuilderImpl {
            row_group_size,
            index_options: index_options(segment_row_count),
            ..builder("segments_", all())
        }
        .build_inverted_indexer(FILE, vec![1])
        .unwrap()
        .segment_row_count
    };
    assert_eq!(segment(256, 1024), 256);
    assert_eq!(segment(1024, 1024), 1024);
    assert_eq!(segment(1000, 1024), 1024);
    assert_eq!(segment(2048, 1024), 1024);
    assert_eq!(segment(1, 7), 1);
}

#[test]
fn ignored_columns_are_not_indexed() {
    let mut builder = builder("ignored_", all());
    builder.index_options = Arc::new(IndexOptions {
        inverted_index: InvertedIndexOptions { ignore_column_ids: vec![1], segment_row_count: 64 },
    });
    let indexer = run(builder.build(FILE));
    assert!(indexer.inverted_indexer.is_none());
    assert!(indexer.fulltext_indexer.is_some());
}

#[test]
fn creators_are_made_from_the_settings() {
    let builder = builder("settings_", all());

    let inverted = builder.build_inverted_indexer(FILE, vec![1, 9]).unwrap();
    assert_eq!(inverted.file_id, FILE);
    assert_eq!(inverted.metadata.region_id, REGION);
    assert_eq!(*inverted.intermediate_manager, "settings_");
    assert_eq!(inverted.mem_threshold, Some(64 << 20));
    assert_eq!(inverted.indexed_column_ids, vec![1, 9]);

    let fulltext = builder.build_fulltext_indexer(FILE).unwrap();
    assert_eq!(fulltext.region_id, REGION);
    assert_eq!(fulltext.file_id, FILE);
    assert!(fulltext.compress);
    assert_eq!(fulltext.bloom_row_granularity, 8096);
    assert_eq!(DEFAULT_FULLTEXT_BLOOM_ROW_GRANULARITY, 8096);
    assert_eq!(fulltext.mem_limit, Some(32 << 20));

    let bloom_filter = builder.build_bloom_filter_indexer(FILE).unwrap();
    assert_eq!(bloom_filter.file_id, FILE);
    assert_eq!(bloom_filter.mem_limit, None);
}

#[test]
fn indexer_with_creators_knows_where_to_store() {
    let indexer = run(builder("store_", all()).build(FILE));
    assert_eq!(indexer.file_id, FILE);
    assert_eq!(indexer.region_id, REGION);
    assert_eq!(indexer.inverted_indexer, Some((FILE, 1024, vec![1])));
    assert_eq!(indexer.fulltext_indexer, Some((FILE, 8096)));
    assert_eq!(indexer.bloom_filter_indexer, Some(FILE));
    assert_eq!(indexer.last_mem_inverted_index, 0);
    match indexer.puffin_manager {
        Some(SstPuffinManager::AccessLayer { access_layer }) => assert_eq!(*access_layer, "memory"),
        _ => panic!("no puffin manager"),
    }
}

#[test]
fn indexer_without_creators_is_the_default() {
    let metadata = mock_region_metadata(MetaConfig {
        with_inverted: false,
        with_fulltext: false,
        with_skipping_bloom: false,
    });
    let indexer = run(builder("nothing_", metadata).build(FILE));
    assert_eq!(indexer.file_id, 0);
    assert_eq!(indexer.region_id, 0);
    assert!(indexer.puffin_manager.is_none());
    assert!(indexer.inverted_indexer.is_none());
    assert!(indexer.fulltext_indexer.is_none());
    assert!(indexer.bloom_filter_indexer.is_none());
}

#[test]
fn failed_creation_leaves_the_others() {
    let builder = IndexerBuilderImpl {
        inverted_index_config: InvertedIndexConfig {
            create_on_flush: Mode::Disable,
            ..inverted_config()
        },
        ..builder("failed_", all())
    };
    let step = match builder.build(FILE) {
        BuildStep::CreateFulltext(creation) => creation.created(Err("disk".to_string())),
        _ => panic!("fulltext index comes first"),
    };
    let step = match step {
        BuildStep::CreateBloomFilter(creation) => creation.created(Ok(Some(FILE))),
        _ => panic!("bloom filter comes next"),
    };
    match step {
        BuildStep::Done(indexer) => {
            assert!(indexer.fulltext_indexer.is_none());
            assert!(indexer.bloom_filter_indexer.is_some());
            assert!(indexer.puffin_manager.is_some());
        }
        _ => panic!("the build is done"),
    }
}

#[test]
fn build_where_all_creations_fail_is_aborted() {
    let builder = IndexerBuilderImpl {
        inverted_index_config: InvertedIndexConfig {
            create_on_flush: Mode::Disable,
            ..inverted_config()
        },
        ..builder("aborted_", all())
    };
    let step = match builder.build(FILE) {
        BuildStep::CreateFulltext(creation) => creation.created(Err("disk".to_string())),
        _ => panic!("fulltext index comes first"),
    };
    let step = match step {
        BuildStep::CreateBloomFilter(creation) => creation.created(Err("disk".to_string())),
        _ => panic!("bloom filter comes next"),
    };
    match step {
        BuildStep::Abort(abort) => {
            assert_eq!(abort.indexer.file_id, FILE);
            assert_eq!(abort.aborted().file_id, 0);
        }
        _ => panic!("the build is aborted"),
    }
}

#[test]
fn settings_of_the_other_operation_do_not_matter() {
    let mut builder = builder("other_", all());
    builder.inverted_index_config.create_on_compaction = Mode::Disable;
    builder.fulltext_index_config.create_on_compaction = Mode::Disable;
    builder.bloom_filter_index_config.create_on_compaction = Mode::Disable;

    let flushed = run(builder.build(FILE));
    assert!(flushed.inverted_indexer.is_some());
    assert!(flushed.fulltext_indexer.is_some());
    assert!(flushed.bloom_filter_indexer.is_some());

    builder.op_type = OperationType::Compact;
    assert!(matches!(builder.build(FILE), BuildStep::Abort(_)));
}
