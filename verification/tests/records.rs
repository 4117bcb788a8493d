use search_history::record::{TestSearchResult, TestSearchResults};

fn record(name: &str, line: u64, bytes: &[u8]) -> TestSearchResult {
    TestSearchResult::new(Some(name.to_string()), line, bytes.to_vec())
}

#[test]
fn new_record_keeps_its_fields() {
    let r = record("a.txt", 7, b"seven");
    assert_eq!(r.get_file_name().as_deref(), Some("a.txt"));
    assert_eq!(r.get_line_number(), 7);
    assert_eq!(r.get_matched_bytes(), &b"seven".to_vec());
}

#[test]
fn record_without_file_can_be_stamped_later() {
    let mut r = TestSearchResult::new(None, 3, b"x".to_vec());
    assert!(r.get_file_name().is_none());
    r.set_file_name(Some("late.txt".to_string()));
    assert_eq!(r.get_file_name().as_deref(), Some("late.txt"));
    assert_eq!(r.get_line_number(), 3);
    assert_eq!(r.get_matched_bytes(), &b"x".to_vec());
}

#[test]
fn new_collection_is_empty() {
    let results = TestSearchResults::new();
    assert!(!results.has_results());
    assert_eq!(results.len(), 0);
    assert!(results.consume_results().is_empty());
}

#[test]
fn store_result_appends_in_order() {
    let mut results = TestSearchResults::new();
    results.store_result(record("a", 1, b"one"));
    results.store_result(record("b", 2, b"two"));
    assert!(results.has_results());
    assert_eq!(results.len(), 2);
    let list = results.consume_results();
    assert_eq!(list[0].get_line_number(), 1);
    assert_eq!(list[1].get_line_number(), 2);
    assert_eq!(list[1].get_file_name().as_deref(), Some("b"));
}

#[test]
fn get_mut_changes_the_collection_itself() {
    let mut results = TestSearchResults::new();
    results.store_result(record("a", 1, b"one"));
    results.get_mut().push(record("b", 2, b"two"));
    results.get_mut()[0].set_file_name(Some("c".to_string()));
    assert_eq!(results.len(), 2);
    let list = results.consume_results();
    assert_eq!(list[0].get_file_name().as_deref(), Some("c"));
    assert_eq!(list[1].get_matched_bytes(), &b"two".to_vec());
}

#[test]
fn store_batch_keeps_both_orders() {
    let mut results = TestSearchResults::new();
    results.store_result(record("a", 1, b"one"));
    let batch = TestSearchResults::from_records(vec![record("b", 2, b"two"), record("b", 5, b"five")]);
    results.store_batch(batch);
    let lines: Vec<u64> = results.consume_results().iter().map(|r| r.get_line_number()).collect();
    assert_eq!(lines, vec![1, 2, 5]);
}

#[test]
fn cloned_collection_holds_the_same_records() {
    let mut results = TestSearchResults::new();
    results.store_result(record("a", 1, b"one"));
    results.store_result(TestSearchResult::new(None, 2, b"two".to_vec()));
    let copy = results.clone();
    results.store_result(record("c", 3, b"three"));
    assert_eq!(results.len(), 3);
    let list = copy.consume_results();
    assert_eq!(list.len(), 2);
    assert_eq!(list[0].get_file_name().as_deref(), Some("a"));
    assert_eq!(list[0].get_matched_bytes(), &b"one".to_vec());
    assert!(list[1].get_file_name().is_none());
    assert_eq!(list[1].clone().get_line_number(), 2);
}
