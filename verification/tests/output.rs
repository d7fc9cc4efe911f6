use sst_index::file::{IndexList, IndexType};
use sst_index::output::{IndexBaseOutput, IndexOutput};

fn of_size(index_size: u64) -> IndexBaseOutput {
    IndexBaseOutput { index_size, row_count: 10, columns: vec![1, 2] }
}

#[test]
fn base_output_is_available_with_a_size() {
    assert!(!IndexBaseOutput::default().is_available());
    assert!(!of_size(0).is_available());
    assert!(of_size(1).is_available());
    assert!(of_size(u64::MAX).is_available());
}

#[test]
fn available_indexes_are_listed_in_order() {
    let list = |inverted: u64, fulltext: u64, bloom_filter: u64| {
        IndexOutput {
            file_size: 100,
            inverted_index: of_size(inverted),
            fulltext_index: of_size(fulltext),
            bloom_filter: of_size(bloom_filter),
        }
        .build_available_indexes()
        .as_slice()
        .to_vec()
    };
    assert_eq!(list(0, 0, 0), vec![]);
    assert_eq!(list(7, 0, 0), vec![IndexType::InvertedIndex]);
    assert_eq!(list(0, 7, 0), vec![IndexType::FulltextIndex]);
    assert_eq!(list(0, 0, 7), vec![IndexType::BloomFilterIndex]);
    assert_eq!(list(7, 0, 7), vec![IndexType::InvertedIndex, IndexType::BloomFilterIndex]);
    assert_eq!(
        list(1, 2, 3),
        vec![IndexType::InvertedIndex, IndexType::FulltextIndex, IndexType::BloomFilterIndex]
    );
}

#[test]
fn default_output_has_no_index() {
    let output = IndexOutput::default();
    assert_eq!(output.file_size, 0);
    assert!(output.build_available_indexes().as_slice().is_empty());
}

#[test]
fn cloned_output_says_the_same() {
    let output = IndexOutput {
        file_size: 9,
        inverted_index: of_size(4),
        fulltext_index: of_size(0),
        bloom_filter: of_size(5),
    };
    let clone = output.clone();
    assert_eq!(clone.file_size, 9);
    assert_eq!(clone.inverted_index.index_size, 4);
    assert_eq!(clone.inverted_index.row_count, 10);
    assert_eq!(clone.bloom_filter.columns, vec![1, 2]);
}

#[test]
fn index_list_grows_past_its_inline_room() {
    let mut list = IndexList::new();
    for _ in 0..6 {
        list.push(IndexType::FulltextIndex);
    }
    list.push(IndexType::InvertedIndex);
    assert_eq!(list.as_slice().len(), 7);
    assert_eq!(list.as_slice()[5], IndexType::FulltextIndex);
    assert_eq!(list.as_slice()[6], IndexType::InvertedIndex);
}
