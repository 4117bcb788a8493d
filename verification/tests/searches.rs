use search_history::error::{ErrorKind, FileError};
use search_history::haystack::{Candidate, EntryKind};
use search_history::matcher::BinaryDetection;
use search_history::record::TestSearchResults;
use search_history::search::{rg_search, search_item, search_parallel, HiArgs, WalkItem};

fn args(pattern: &str) -> HiArgs {
    HiArgs::new(pattern.to_string(), "./".to_string())
}

fn file(path: &str, content: &[u8]) -> WalkItem {
    WalkItem::new(Ok(Candidate::new(path.to_string(), 1, EntryKind::File)), Ok(content.to_vec()))
}

fn named(path: &str, content: &[u8]) -> WalkItem {
    WalkItem::new(Ok(Candidate::new(path.to_string(), 0, EntryKind::File)), Ok(content.to_vec()))
}

fn unreadable(path: &str, why: &str) -> WalkItem {
    WalkItem::new(Ok(Candidate::new(path.to_string(), 1, EntryKind::File)), Err(why.to_string()))
}

fn directory(path: &str) -> WalkItem {
    WalkItem::new(Ok(Candidate::new(path.to_string(), 0, EntryKind::Directory)), Ok(Vec::new()))
}

fn summary(results: TestSearchResults) -> Vec<(String, u64, Vec<u8>)> {
    results
        .consume_results()
        .iter()
        .map(|r| (r.get_file_name().clone().unwrap(), r.get_line_number(), r.get_matched_bytes().clone()))
        .collect()
}

fn sorted(mut records: Vec<(String, u64, Vec<u8>)>) -> Vec<(String, u64, Vec<u8>)> {
    records.sort();
    records
}

fn rec(path: &str, line: u64, bytes: &[u8]) -> (String, u64, Vec<u8>) {
    (path.to_string(), line, bytes.to_vec())
}

#[test]
fn two_files_with_foo_give_two_records() {
    let mut errors = Vec::new();
    let walk = vec![directory("."), file("a.txt", b"foo\nbar\n"), file("b.txt", b"foo\n")];
    let results = rg_search(&args("foo"), walk, &mut errors).unwrap();
    assert_eq!(summary(results), vec![rec("a.txt", 1, b"foo"), rec("b.txt", 1, b"foo")]);
    assert!(errors.is_empty());
}

#[test]
fn two_files_with_foo_give_the_same_records_in_the_other_order() {
    let mut errors = Vec::new();
    let walk = vec![file("b.txt", b"foo\n"), directory("."), file("a.txt", b"foo\nbar\n")];
    let results = rg_search(&args("foo"), walk, &mut errors).unwrap();
    assert_eq!(
        sorted(summary(results)),
        vec![rec("a.txt", 1, b"foo"), rec("b.txt", 1, b"foo")]
    );
}

#[test]
fn no_match_is_a_success_without_records() {
    let mut errors = Vec::new();
    let walk = vec![directory("."), file("a.txt", b"foo\nbar\n"), file("b.txt", b"foo\n")];
    let results = rg_search(&args("quux"), walk, &mut errors).unwrap();
    assert!(!results.has_results());
    assert_eq!(results.len(), 0);
    assert!(errors.is_empty());
}

#[test]
fn empty_walk_is_a_success_without_records() {
    let mut errors = Vec::new();
    let results = rg_search(&args("foo"), Vec::new(), &mut errors).unwrap();
    assert_eq!(results.len(), 0);
}

#[test]
fn invalid_pattern_fails_before_anything_is_searched() {
    let mut errors = vec![FileError::new("earlier".to_string(), "kept".to_string())];
    let walk = vec![unreadable("a.txt", "denied"), file("b.txt", b"foo\n")];
    let e = rg_search(&args("fo(o"), walk, &mut errors).unwrap_err();
    assert_eq!(e.kind(), ErrorKind::InvalidPattern);
    assert_eq!(errors.len(), 1);
    let e = search_parallel(&args("[z-a]"), Vec::new(), &mut errors).unwrap_err();
    assert_eq!(e.kind(), ErrorKind::InvalidPattern);
}

#[test]
fn every_matching_line_is_recorded_once() {
    let mut errors = Vec::new();
    let walk = vec![
        file("one.txt", b"x\nneedle\nneedle again\n"),
        file("two.txt", b"nothing here\n"),
        file("three.txt", b"needle\nx\nx\nneedle\nneedle"),
        file("four.txt", b""),
    ];
    let results = search_parallel(&args("needle"), walk, &mut errors).unwrap();
    assert_eq!(
        summary(results),
        vec![
            rec("one.txt", 2, b"needle"),
            rec("one.txt", 3, b"needle again"),
            rec("three.txt", 1, b"needle"),
            rec("three.txt", 4, b"needle"),
            rec("three.txt", 5, b"needle"),
        ]
    );
}

#[test]
fn order_of_the_walk_changes_the_order_only() {
    let contents: Vec<(&str, &[u8])> = vec![
        ("one.txt", b"x\nneedle\nneedle again\n"),
        ("two.txt", b"nothing here\n"),
        ("three.txt", b"needle\nx\nx\nneedle\nneedle"),
    ];
    let mut errors = Vec::new();
    let forward = contents.iter().map(|(p, c)| file(p, c)).collect();
    let backward = contents.iter().rev().map(|(p, c)| file(p, c)).collect();
    let first = summary(search_parallel(&args("needle"), forward, &mut errors).unwrap());
    let second = summary(search_parallel(&args("needle"), backward, &mut errors).unwrap());
    assert_eq!(first.len(), 5);
    assert_eq!(second.len(), 5);
    assert_ne!(first, second);
    assert_eq!(sorted(first), sorted(second));
}

#[test]
fn same_search_twice_gives_the_same_records() {
    let mut errors = Vec::new();
    let walk = || vec![file("a.txt", b"foo\nbar\nfoo\n"), unreadable("b.txt", "gone"), file("c.txt", b"food\n")];
    let first = summary(rg_search(&args("foo"), walk(), &mut errors).unwrap());
    let second = summary(rg_search(&args("foo"), walk(), &mut errors).unwrap());
    assert_eq!(first.len(), 3);
    assert_eq!(first, second);
}

#[test]
fn stop_after_first_match_ends_with_the_first_matching_file() {
    let mut request = args("foo");
    request.set_quit_after_match(true);
    assert!(request.quit_after_match());
    let mut errors = Vec::new();
    let walk = vec![
        file("none.txt", b"bar\n"),
        file("a.txt", b"foo\nfoo too\n"),
        unreadable("never.txt", "not even tried"),
        file("b.txt", b"foo\n"),
    ];
    let results = rg_search(&request, walk, &mut errors).unwrap();
    assert_eq!(summary(results), vec![rec("a.txt", 1, b"foo"), rec("a.txt", 2, b"foo too")]);
    assert!(errors.is_empty());
}

#[test]
fn stop_after_first_match_without_any_match_runs_to_the_end() {
    let mut request = args("foo");
    request.set_quit_after_match(true);
    let mut errors = Vec::new();
    let walk = vec![file("a.txt", b"bar\n"), unreadable("b.txt", "denied")];
    let results = rg_search(&request, walk, &mut errors).unwrap();
    assert_eq!(results.len(), 0);
    assert_eq!(errors.len(), 1);
}

#[test]
fn unreadable_file_does_not_end_the_search() {
    let mut errors = Vec::new();
    let walk = vec![
        file("a.txt", b"foo\n"),
        unreadable("locked.txt", "permission denied"),
        file("b.txt", b"bar\nfoo\n"),
    ];
    let results = rg_search(&args("foo"), walk, &mut errors).unwrap();
    assert_eq!(summary(results), vec![rec("a.txt", 1, b"foo"), rec("b.txt", 2, b"foo")]);
    assert_eq!(errors.len(), 1);
    assert_eq!(errors[0].path(), "locked.txt");
    assert_eq!(errors[0].message(), "permission denied");
}

#[test]
fn failed_step_of_the_walk_is_reported_without_a_path() {
    let mut errors = Vec::new();
    let walk = vec![
        WalkItem::new(Err("loop in links".to_string()), Ok(b"foo\n".to_vec())),
        file("a.txt", b"foo\n"),
    ];
    let results = rg_search(&args("foo"), walk, &mut errors).unwrap();
    assert_eq!(summary(results), vec![rec("a.txt", 1, b"foo")]);
    assert_eq!(errors.len(), 1);
    assert_eq!(errors[0].path(), "");
    assert_eq!(errors[0].message(), "loop in links");
}

#[test]
fn named_binary_file_is_searched_and_found_one_is_skipped() {
    let mut request = args("foo");
    request.set_binary_detection(BinaryDetection::Quit(0), BinaryDetection::Convert(0));
    let mut errors = Vec::new();
    let blob: &[u8] = b"\0\0foo\n";
    let walk = vec![named("named.bin", blob), file("dir/found.bin", blob)];
    let results = rg_search(&request, walk, &mut errors).unwrap();
    assert_eq!(summary(results), vec![rec("named.bin", 3, b"foo")]);
    assert!(errors.is_empty());
}

#[test]
fn request_keeps_what_it_was_given() {
    let mut request = HiArgs::new("foo".to_string(), "/srv".to_string());
    assert_eq!(request.pattern(), "foo");
    assert_eq!(request.root(), "/srv");
    assert!(!request.quit_after_match());
    request.set_search_zip(true);
    request.set_preprocessor(Some("cat".to_string()));
    assert_eq!(request.matcher().unwrap().pattern(), "foo");
    let worker = request.search_worker(request.matcher().unwrap());
    assert_eq!(worker.get_results().len(), 0);
}

#[test]
fn search_item_hands_out_the_batch_of_one_item() {
    let request = args("foo");
    let mut worker = request.search_worker(request.matcher().unwrap());
    let builder = request.haystack_builder();
    let mut errors = Vec::new();
    let batch = search_item(&builder, &mut worker, file("a.txt", b"x\nfoo\n"), &mut errors);
    assert_eq!(summary(batch), vec![rec("a.txt", 2, b"foo")]);
    assert_eq!(worker.get_results().len(), 0);
    let batch = search_item(&builder, &mut worker, directory("sub"), &mut errors);
    assert_eq!(batch.len(), 0);
    let batch = search_item(&builder, &mut worker, unreadable("b.txt", "busy"), &mut errors);
    assert_eq!(batch.len(), 0);
    assert_eq!(errors.len(), 1);
    assert_eq!(errors[0].path(), "b.txt");
}

#[test]
fn match_on_line_seventy_thousand_is_recorded_with_that_number() {
    let mut content = b"x\n".repeat(69999);
    content.extend_from_slice(b"foo\n");
    let mut errors = Vec::new();
    let results = rg_search(&args("foo"), vec![file("big.txt", &content)], &mut errors).unwrap();
    assert_eq!(summary(results), vec![rec("big.txt", 70000, b"foo")]);
    assert!(errors.is_empty());
}

#[test]
fn stop_after_first_match_stops_at_a_match_far_down_a_file() {
    let mut content = b"x\n".repeat(69999);
    content.extend_from_slice(b"foo\n");
    let mut request = args("foo");
    request.set_quit_after_match(true);
    let mut errors = Vec::new();
    let walk = vec![file("big.txt", &content), file("b.txt", b"foo\n")];
    let results = rg_search(&request, walk, &mut errors).unwrap();
    assert_eq!(summary(results), vec![rec("big.txt", 70000, b"foo")]);
}

#[test]
fn invalid_pattern_fails_with_what_the_engine_says_of_it() {
    let mut errors = Vec::new();
    let e = rg_search(&args("fo(o"), Vec::new(), &mut errors).unwrap_err();
    assert_eq!(e.kind(), ErrorKind::InvalidPattern);
    assert!(e.reason().contains("unclosed group"));
    let again = args("fo(o").matcher().unwrap_err();
    assert_eq!(again.reason(), e.reason());
}

#[test]
fn request_hands_out_its_policies() {
    let mut request = args("foo");
    assert!(!request.get_config().search_zip());
    assert!(request.get_config().preprocessor().is_none());
    request.set_search_zip(true);
    request.set_preprocessor(Some("cat".to_string()));
    request.set_binary_detection(BinaryDetection::Off, BinaryDetection::Convert(0));
    assert!(request.get_config().search_zip());
    assert_eq!(request.get_config().preprocessor().as_deref(), Some("cat"));
    assert_eq!(request.get_config().binary_implicit(), BinaryDetection::Off);
    assert_eq!(request.get_config().binary_explicit(), BinaryDetection::Convert(0));
}
