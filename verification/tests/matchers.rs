use search_history::error::ErrorKind;
use search_history::matcher::{BinaryDetection, PatternMatcher};

#[test]
fn pattern_that_compiles_gives_a_matcher_for_it() {
    let m = PatternMatcher::new("fo+").unwrap();
    assert_eq!(m.pattern(), "fo+");
    assert_eq!(m.clone().pattern(), "fo+");
}

#[test]
fn invalid_pattern_is_refused_at_construction() {
    let e = PatternMatcher::new("fo(o").unwrap_err();
    assert_eq!(e.kind(), ErrorKind::InvalidPattern);
    assert!(e.reason().contains("unclosed group"));
    let other = PatternMatcher::new("a{2,1}").unwrap_err();
    assert_ne!(other.reason(), e.reason());
}

#[test]
fn scan_reports_matching_lines_with_numbers_and_terminators() {
    let m = PatternMatcher::new("foo").unwrap();
    let hits = m.scan(BinaryDetection::Off, b"foo\nbar\nxfoo").unwrap();
    assert_eq!(hits.len(), 2);
    assert_eq!(hits[0].line_number, 1);
    assert_eq!(hits[0].bytes, b"foo\n".to_vec());
    assert_eq!(hits[1].line_number, 3);
    assert_eq!(hits[1].bytes, b"xfoo".to_vec());
}

#[test]
fn scan_without_match_reports_nothing() {
    let m = PatternMatcher::new("foo").unwrap();
    assert!(m.scan(BinaryDetection::Off, b"bar\nbaz\n").unwrap().is_empty());
    assert!(m.scan(BinaryDetection::Off, b"").unwrap().is_empty());
}

#[test]
fn scan_goes_by_the_pattern_of_the_matcher() {
    let data = b"alpha\nbeta\ngamma\n";
    let a = PatternMatcher::new("^b").unwrap().scan(BinaryDetection::Off, data).unwrap();
    let b = PatternMatcher::new("a$").unwrap().scan(BinaryDetection::Off, data).unwrap();
    assert_eq!(a.iter().map(|h| h.line_number).collect::<Vec<u64>>(), vec![2]);
    assert_eq!(b.iter().map(|h| h.line_number).collect::<Vec<u64>>(), vec![1, 2, 3]);
}

#[test]
fn scan_twice_reports_the_same() {
    let m = PatternMatcher::new("o").unwrap();
    let data = b"one\ntwo\nthree\nfour\n";
    let first = m.scan(BinaryDetection::Quit(0), data).unwrap();
    let second = m.clone().scan(BinaryDetection::Quit(0), data).unwrap();
    assert_eq!(first.len(), 3);
    assert_eq!(first.len(), second.len());
    for (x, y) in first.iter().zip(second.iter()) {
        assert_eq!(x.line_number, y.line_number);
        assert_eq!(x.bytes, y.bytes);
    }
}

#[test]
fn quit_detection_ends_the_scan_at_the_binary_byte() {
    let m = PatternMatcher::new("foo").unwrap();
    assert!(m.scan(BinaryDetection::Quit(0), b"\0foo\nbar\nxfoo").unwrap().is_empty());
}

#[test]
fn convert_detection_reads_the_binary_byte_as_a_line_end() {
    let m = PatternMatcher::new("foo").unwrap();
    let hits = m.scan(BinaryDetection::Convert(0), b"\0foo\nbar\nxfoo").unwrap();
    assert_eq!(hits.iter().map(|h| h.line_number).collect::<Vec<u64>>(), vec![2, 4]);
    assert_eq!(hits[0].bytes, b"foo\n".to_vec());
}

#[test]
fn no_detection_scans_binary_data_as_it_is() {
    let m = PatternMatcher::new("foo").unwrap();
    let hits = m.scan(BinaryDetection::Off, b"\0foo\nbar\nxfoo").unwrap();
    assert_eq!(hits.iter().map(|h| h.line_number).collect::<Vec<u64>>(), vec![1, 3]);
    assert_eq!(hits[0].bytes, b"\0foo\n".to_vec());
}

#[test]
fn find_gives_the_range_of_the_first_match() {
    let m = PatternMatcher::new("o+").unwrap();
    assert_eq!(m.find(b"a foo boooo"), Some((3, 5)));
    assert_eq!(m.find(b"oo"), Some((0, 2)));
    assert_eq!(m.find(b"line one\nline two\n"), Some((5, 6)));
    assert_eq!(m.find(b"bar"), None);
    assert_eq!(m.find(b""), None);
}

#[test]
fn find_can_match_nothing_at_all() {
    let m = PatternMatcher::new("x*").unwrap();
    assert_eq!(m.find(b"abc"), Some((0, 0)));
    assert_eq!(m.find(b""), Some((0, 0)));
}

#[test]
fn is_match_says_whether_the_pattern_occurs() {
    let m = PatternMatcher::new("^b.r$").unwrap();
    assert!(m.is_match(b"bar"));
    assert!(m.is_match(b"bur"));
    assert!(!m.is_match(b"a bar"));
    assert!(!m.is_match(b""));
}

#[test]
fn found_range_lies_within_the_buffer() {
    let m = PatternMatcher::new("o*$").unwrap();
    let buffer = b"foo";
    let (start, end) = m.find(buffer).unwrap();
    assert_eq!((start, end), (1, 3));
    assert!(start <= end && end <= buffer.len());
    assert_eq!(m.find(b"bar"), Some((3, 3)));
}
