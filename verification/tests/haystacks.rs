use search_history::haystack::{Candidate, EntryKind, HaystackBuilder};

fn candidate(path: &str, depth: usize, kind: EntryKind) -> Candidate {
    Candidate::new(path.to_string(), depth, kind)
}

#[test]
fn file_named_by_the_caller_is_explicit() {
    let h = HaystackBuilder::new().build(candidate("notes.txt", 0, EntryKind::File)).unwrap();
    assert_eq!(h.path(), "notes.txt");
    assert!(h.is_explicit());
}

#[test]
fn file_found_by_the_walk_is_not_explicit() {
    let h = HaystackBuilder::new().build(candidate("src/a.rs", 2, EntryKind::File)).unwrap();
    assert_eq!(h.path(), "src/a.rs");
    assert!(!h.is_explicit());
}

#[test]
fn named_path_that_is_no_regular_file_is_still_searched() {
    let h = HaystackBuilder::new().build(candidate("/dev/stdin", 0, EntryKind::Other)).unwrap();
    assert!(h.is_explicit());
}

#[test]
fn directories_are_never_searched() {
    let b = HaystackBuilder::new();
    assert!(b.build(candidate("src", 0, EntryKind::Directory)).is_none());
    assert!(b.build(candidate("src/sub", 1, EntryKind::Directory)).is_none());
}

#[test]
fn found_entry_that_is_no_regular_file_is_turned_away() {
    assert!(HaystackBuilder::new().build(candidate("src/sock", 1, EntryKind::Other)).is_none());
}

#[test]
fn failed_step_of_the_walk_yields_no_haystack() {
    let b = HaystackBuilder::new();
    assert!(b.build_from_result(Err("permission denied".to_string())).is_none());
    let h = b.build_from_result(Ok(candidate("a.txt", 1, EntryKind::File))).unwrap();
    assert_eq!(h.path(), "a.txt");
}

#[test]
fn cloned_candidate_and_haystack_are_the_same() {
    let c = candidate("a.txt", 0, EntryKind::File);
    let h = HaystackBuilder::new().build(c.clone()).unwrap();
    let again = HaystackBuilder::new().build(c).unwrap();
    assert_eq!(h.clone().path(), again.path());
    assert_eq!(h.clone().is_explicit(), again.is_explicit());
}

#[test]
fn candidate_hands_out_its_fields() {
    let c = candidate("dir/a.txt", 2, EntryKind::File);
    assert_eq!(c.path(), "dir/a.txt");
    assert_eq!(c.depth(), 2);
    assert_eq!(c.kind(), EntryKind::File);
}

#[test]
fn chooses_agrees_with_build() {
    let b = HaystackBuilder::new();
    let cases = vec![
        candidate("a", 0, EntryKind::File),
        candidate("a", 0, EntryKind::Directory),
        candidate("a", 0, EntryKind::Other),
        candidate("a", 1, EntryKind::File),
        candidate("a", 1, EntryKind::Directory),
        candidate("a", 1, EntryKind::Other),
    ];
    let expected = vec![true, false, true, true, false, false];
    for (c, want) in cases.into_iter().zip(expected) {
        assert_eq!(b.chooses(&c), want);
        assert_eq!(b.build(c).is_some(), want);
    }
}
