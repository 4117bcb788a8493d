//! The per-file accumulator that a content scan reports its matches to.

use vstd::prelude::*;
use crate::record::{RecordView, TestSearchResult, TestSearchResults};

verus! {

/// The line number recorded for a reported one: the number itself, or `0`
/// where the scan could not tell the line.
pub open spec fn recorded_line(line_number: Option<u64>) -> int {
    match line_number {
        Some(n) => n as int,
        None => 0,
    }
}

/// A matched line without its trailing line feed, if it ends in one.
pub open spec fn line_content(bytes: Seq<u8>) -> Seq<u8> {
    if bytes.len() > 0 && bytes.last() == 10u8 {
        bytes.drop_last()
    } else {
        bytes
    }
}

/// The record that the sink makes of one reported match. It names no file:
/// the sink does not know which file is being scanned.
pub open spec fn sunk_record(line_number: Option<u64>, bytes: Seq<u8>) -> RecordView {
    RecordView {
        file_name: None,
        line_number: recorded_line(line_number),
        matched_bytes: line_content(bytes),
    }
}

/// Collects the matches of the file that is being scanned. One sink serves
/// every file of a worker: `begin` empties it, `matched` adds a record, and
/// `take_results` hands the records out and leaves it empty again.
#[derive(Debug)]
pub struct CustomSink {
    match_count: u64,
    results_store: TestSearchResults,
}

impl View for CustomSink {
    type V = Seq<RecordView>;

    closed spec fn view(&self) -> Seq<RecordView> {
        self.results_store@
    }
}

impl Clone for CustomSink {
    /// A sink with the same records and the same count.
    fn clone(&self) -> (copy: CustomSink)
        ensures
            copy@ == self@,
    {
        proof {
            use_type_invariant(self);
        }
        CustomSink { match_count: self.match_count, results_store: self.results_store.clone() }
    }
}

impl CustomSink {
    /// The counter agrees with the number of buffered records.
    #[verifier::type_invariant]
    spec fn counted(&self) -> bool {
        self.match_count as nat == self.results_store@.len()
    }

    /// An empty sink.
    pub fn new() -> (sink: CustomSink)
        ensures
            sink@ == Seq::<RecordView>::empty(),
    {
        CustomSink { match_count: 0, results_store: TestSearchResults::new() }
    }

    /// Starts the scan of a file: forgets every earlier match and sets the
    /// counter to zero. Always asks the scan to go on.
    pub fn begin(&mut self) -> (go_on: bool)
        ensures
            go_on,
            final(self)@ == Seq::<RecordView>::empty(),
    {
        *self = CustomSink::new();
        true
    }

    /// Records one matching line behind those recorded before and counts
    /// it. Always asks the scan to go on, so that later matches of the same
    /// file are found too.
    pub fn matched(&mut self, line_number: Option<u64>, bytes: &[u8]) -> (go_on: bool)
        ensures
            go_on,
            final(self)@ == old(self)@.push(sunk_record(line_number, bytes@)),
    {
        let line: u64 = match line_number {
            Some(n) => n,
            None => 0,
        };
        let mut results_store = self.take_results();
        results_store.store_result(TestSearchResult::new(None, line, strip_line_feed(bytes)));
        let stored: usize = results_store.len();
        *self = CustomSink { match_count: stored as u64, results_store };
        true
    }

    /// Whether the scan since the last `begin` reported a match.
    pub fn has_match(&self) -> (b: bool)
        ensures
            b == (self@.len() > 0),
    {
        proof {
            use_type_invariant(self);
        }
        self.match_count > 0
    }

    /// The number of matches reported since the last `begin`.
    pub fn match_count(&self) -> (n: u64)
        ensures
            n as nat == self@.len(),
    {
        proof {
            use_type_invariant(self);
        }
        self.match_count
    }

    /// The records buffered so far.
    pub fn get_results(&self) -> (results: &TestSearchResults)
        ensures
            results@ == self@,
    {
        &self.results_store
    }

    /// Ends the scan of a file: hands out the buffered records in the order
    /// in which they were reported and leaves the sink empty, its counter
    /// at zero.
    pub fn take_results(&mut self) -> (records: TestSearchResults)
        ensures
            records@ == old(self)@,
            final(self)@ == Seq::<RecordView>::empty(),
    {
        let mut taken = CustomSink::new();
        std::mem::swap(self, &mut taken);
        taken.results_store
    }

    /// Gives up the sink and hands out its records.
    pub fn consume_sink_results(self) -> (records: TestSearchResults)
        ensures
            records@ == self@,
    {
        self.results_store
    }
}

/// Copies a matched line, leaving out its trailing line feed.
pub fn strip_line_feed(bytes: &[u8]) -> (line: Vec<u8>)
    ensures
        line@ == line_content(bytes@),
{
    let n: usize = bytes.len();
    let keep: usize = if n > 0 && bytes[n - 1] == 10u8 { n - 1 } else { n };
    let mut line: Vec<u8> = Vec::new();
    let mut i: usize = 0;
    while i < keep
        invariant
            i <= keep <= bytes@.len(),
            line@ == bytes@.subrange(0, i as int),
        decreases keep - i,
    {
        line.push(bytes[i]);
        i += 1;
    }
    line
}

} // verus!
