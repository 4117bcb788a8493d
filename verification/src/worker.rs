//! The search worker: one matcher, one policy bundle and one sink, bound
//! together to search one file after another.

use vstd::prelude::*;
use crate::error::{FileError, FileErrorView};
use crate::haystack::{Haystack, HaystackView};
use crate::matcher::{
    hit_views, outcome_view, scan_outcome, BinaryDetection, LineHit, PatternMatcher,
};
use crate::record::{record_views, RecordView, TestSearchResults};
use crate::sink::{sunk_record, CustomSink};

verus! {

/// What a policy bundle stands for.
pub struct ConfigView {
    pub preprocessor: Option<Seq<char>>,
    pub search_zip: bool,
    pub binary_implicit: BinaryDetection,
    pub binary_explicit: BinaryDetection,
}

/// The policies of a worker: an optional preprocessor command, whether
/// compressed files are unpacked, and the binary detection for files that
/// the walk found and for files that the caller named.
#[derive(Debug)]
pub struct Config {
    preprocessor: Option<String>,
    search_zip: bool,
    binary_implicit: BinaryDetection,
    binary_explicit: BinaryDetection,
}

impl View for Config {
    type V = ConfigView;

    closed spec fn view(&self) -> ConfigView {
        ConfigView {
            preprocessor: match self.preprocessor {
                Some(command) => Some(command@),
                None => None,
            },
            search_zip: self.search_zip,
            binary_implicit: self.binary_implicit,
            binary_explicit: self.binary_explicit,
        }
    }
}

/// The policies that a worker has unless told otherwise: no preprocessor,
/// no unpacking, and a scan that ends at the first zero byte for every file.
pub open spec fn default_config() -> ConfigView {
    ConfigView {
        preprocessor: None,
        search_zip: false,
        binary_implicit: BinaryDetection::Quit(0),
        binary_explicit: BinaryDetection::Quit(0),
    }
}

impl Default for Config {
    fn default() -> (config: Config)
        ensures
            config@ == default_config(),
    {
        Config {
            preprocessor: None,
            search_zip: false,
            binary_implicit: BinaryDetection::Quit(0),
            binary_explicit: BinaryDetection::Quit(0),
        }
    }
}

impl Clone for Config {
    /// The same policies.
    fn clone(&self) -> (copy: Config)
        ensures
            copy@ == self@,
    {
        Config {
            preprocessor: match &self.preprocessor {
                Some(command) => Some(command.clone()),
                None => None,
            },
            search_zip: self.search_zip,
            binary_implicit: self.binary_implicit,
            binary_explicit: self.binary_explicit,
        }
    }
}

impl Config {
    /// The preprocessor command, if one is set.
    pub fn preprocessor(&self) -> (command: &Option<String>)
        ensures
            match *command {
                Some(c) => self@.preprocessor == Some(c@),
                None => self@.preprocessor is None,
            },
    {
        &self.preprocessor
    }

    /// Whether compressed files are unpacked before they are scanned.
    pub fn search_zip(&self) -> (yes: bool)
        ensures
            yes == self@.search_zip,
    {
        self.search_zip
    }

    /// The binary detection for files that the walk found.
    pub fn binary_implicit(&self) -> (detection: BinaryDetection)
        ensures
            detection == self@.binary_implicit,
    {
        self.binary_implicit
    }

    /// The binary detection for files that the caller named.
    pub fn binary_explicit(&self) -> (detection: BinaryDetection)
        ensures
            detection == self@.binary_explicit,
    {
        self.binary_explicit
    }
}

/// The binary detection that applies to a haystack: the one for named files
/// if the caller named it, else the one for files that the walk found.
pub open spec fn detection_for(config: ConfigView, haystack: HaystackView) -> BinaryDetection {
    if haystack.explicit {
        config.binary_explicit
    } else {
        config.binary_implicit
    }
}

/// The records that a sink makes of the hits of one scan, in their order.
pub open spec fn sunk_all(hits: Seq<(u64, Seq<u8>)>) -> Seq<RecordView> {
    Seq::new(hits.len(), |i: int| sunk_record(Some(hits[i].0), hits[i].1))
}

/// A record with its owning file set to `path`.
pub open spec fn with_file(record: RecordView, path: Seq<char>) -> RecordView {
    RecordView { file_name: Some(path), ..record }
}

/// The given records, each with its owning file set to `path`.
pub open spec fn stamp_all(records: Seq<RecordView>, path: Seq<char>) -> Seq<RecordView> {
    Seq::new(records.len(), |i: int| with_file(records[i], path))
}

/// What the bytes of a file, or the failure to read them, stand for.
pub open spec fn content_view(content: Result<Vec<u8>, String>) -> Result<Seq<u8>, Seq<char>> {
    match content {
        Ok(data) => Ok(data@),
        Err(text) => Err(text@),
    }
}

/// The outcome of scanning a file's content: the failure to read it, if it
/// could not be read, else what the scan of its bytes reports.
pub open spec fn content_outcome(
    pattern: Seq<char>,
    detection: BinaryDetection,
    content: Result<Seq<u8>, Seq<char>>,
) -> Result<Seq<(u64, Seq<u8>)>, Seq<char>> {
    match content {
        Ok(data) => scan_outcome(pattern, detection, data),
        Err(text) => Err(text),
    }
}

/// The batch of records that a file contributes, given the outcome of its
/// scan: one stamped record per line that the scan reports, in the order of
/// the report. A file whose scan failed contributes nothing.
pub open spec fn batch_of(
    path: Seq<char>,
    outcome: Result<Seq<(u64, Seq<u8>)>, Seq<char>>,
) -> Seq<RecordView> {
    match outcome {
        Ok(hits) => stamp_all(sunk_all(hits), path),
        Err(_) => Seq::empty(),
    }
}

/// The failure that is reported for a file, given the outcome of its scan:
/// none where the scan went through, else the scan's own text under the
/// file's path.
pub open spec fn failure_of(
    path: Seq<char>,
    outcome: Result<Seq<(u64, Seq<u8>)>, Seq<char>>,
) -> Option<FileErrorView> {
    match outcome {
        Ok(_) => None,
        Err(text) => Some(FileErrorView { path, message: text }),
    }
}

/// What an optional per-file failure stands for.
pub open spec fn failure_view(failure: Option<FileError>) -> Option<FileErrorView> {
    match failure {
        Some(e) => Some(e@),
        None => None,
    }
}

/// Sets a worker's policies before the worker is built.
#[derive(Debug)]
pub struct SearchWorkerBuilder {
    config: Config,
}

impl View for SearchWorkerBuilder {
    type V = ConfigView;

    closed spec fn view(&self) -> ConfigView {
        self.config@
    }
}

impl SearchWorkerBuilder {
    /// A builder with the default policies.
    pub fn new() -> (builder: SearchWorkerBuilder)
        ensures
            builder@ == default_config(),
    {
        SearchWorkerBuilder { config: Config::default() }
    }

    /// A worker that searches for the matcher's pattern under the policies
    /// set so far. It holds no records and no failure.
    pub fn build(&self, matcher: PatternMatcher) -> (worker: SearchWorker)
        ensures
            worker.pattern() == matcher@,
            worker.config() == self@,
            worker.batch() == Seq::<RecordView>::empty(),
            worker.failure() is None,
    {
        SearchWorker {
            config: self.config.clone(),
            matcher,
            results_store: CustomSink::new(),
            batch: TestSearchResults::new(),
            failure: None,
        }
    }

    /// The policies set so far.
    pub fn get_config(&self) -> (config: &Config)
        ensures
            config@ == self@,
    {
        &self.config
    }

    /// Sets the preprocessor command, or unsets it.
    pub fn preprocessor(&mut self, command: Option<String>)
        ensures
            final(self)@ == (ConfigView {
                preprocessor: match command {
                    Some(c) => Some(c@),
                    None => None,
                },
                ..old(self)@
            }),
    {
        self.config.preprocessor = command;
    }

    /// Sets whether compressed files are unpacked before they are scanned.
    pub fn search_zip(&mut self, yes: bool)
        ensures
            final(self)@ == (ConfigView { search_zip: yes, ..old(self)@ }),
    {
        self.config.search_zip = yes;
    }

    /// Sets the binary detection for files that the walk finds.
    pub fn binary_detection_implicit(&mut self, detection: BinaryDetection)
        ensures
            final(self)@ == (ConfigView { binary_implicit: detection, ..old(self)@ }),
    {
        self.config.binary_implicit = detection;
    }

    /// Sets the binary detection for files that the caller names.
    pub fn binary_detection_explicit(&mut self, detection: BinaryDetection)
        ensures
            final(self)@ == (ConfigView { binary_explicit: detection, ..old(self)@ }),
    {
        self.config.binary_explicit = detection;
    }
}

/// Searches one file at a time. After each search it holds the records of
/// that file, stamped with the file's path, and the failure of that file if
/// there was one, until they are taken.
#[derive(Debug)]
pub struct SearchWorker {
    config: Config,
    matcher: PatternMatcher,
    results_store: CustomSink,
    batch: TestSearchResults,
    failure: Option<FileError>,
}

impl SearchWorker {
    /// The pattern that the worker searches for.
    pub closed spec fn pattern(&self) -> Seq<char> {
        self.matcher@
    }

    /// The worker's policies.
    pub closed spec fn config(&self) -> ConfigView {
        self.config@
    }

    /// The records of the file searched last, as far as they were not taken.
    pub closed spec fn batch(&self) -> Seq<RecordView> {
        self.batch@
    }

    /// The failure of the file searched last, if it was not taken.
    pub closed spec fn failure(&self) -> Option<FileErrorView> {
        failure_view(self.failure)
    }

    /// The binary detection under which the given haystack is scanned.
    pub fn binary_detection_for(&self, haystack: &Haystack) -> (detection: BinaryDetection)
        ensures
            detection == detection_for(self.config(), haystack@),
    {
        if haystack.is_explicit() {
            self.config.binary_explicit
        } else {
            self.config.binary_implicit
        }
    }

    /// Searches one file, given its content or the failure to read it.
    /// Returns whether the file had any match. Afterwards the worker holds
    /// the file's records, in the order in which the scan reported them and
    /// stamped with its path, and the file's failure if it had one. A failure never ends
    /// the search: the file then counts as one without a match.
    pub fn search(&mut self, haystack: &Haystack, content: &Result<Vec<u8>, String>) -> (has_match:
        bool)
        ensures
            final(self).pattern() == old(self).pattern(),
            final(self).config() == old(self).config(),
            final(self).batch() == batch_of(
                haystack@.path,
                content_outcome(
                    old(self).pattern(),
                    detection_for(old(self).config(), haystack@),
                    content_view(*content),
                ),
            ),
            final(self).failure() == failure_of(
                haystack@.path,
                content_outcome(
                    old(self).pattern(),
                    detection_for(old(self).config(), haystack@),
                    content_view(*content),
                ),
            ),
            has_match == (final(self).batch().len() > 0),
    {
        let detection = self.binary_detection_for(haystack);
        let outcome = match content {
            Ok(data) => self.matcher.scan(detection, data.as_slice()),
            Err(text) => Err(text.clone()),
        };
        self.absorb(haystack, outcome)
    }

    /// Takes in the outcome of one file's scan. Returns whether the file had
    /// any match, and leaves the worker holding the file's stamped records
    /// and its failure, as `batch_of` and `failure_of` say.
    pub fn absorb(&mut self, haystack: &Haystack, outcome: Result<Vec<LineHit>, String>) -> (has_match:
        bool)
        ensures
            final(self).pattern() == old(self).pattern(),
            final(self).config() == old(self).config(),
            final(self).batch() == batch_of(haystack@.path, outcome_view(outcome)),
            final(self).failure() == failure_of(haystack@.path, outcome_view(outcome)),
            has_match == (final(self).batch().len() > 0),
    {
        self.results_store.begin();
        match outcome {
            Ok(hits) => {
                let mut i: usize = 0;
                while i < hits.len()
                    invariant
                        i <= hits@.len(),
                        self.results_store@ == sunk_all(hit_views(hits@)).subrange(0, i as int),
                        self.matcher == old(self).matcher,
                        self.config == old(self).config,
                    decreases hits@.len() - i,
                {
                    assert(hit_views(hits@)[i as int] == hits@[i as int]@);
                    self.results_store.matched(Some(hits[i].line_number), hits[i].bytes.as_slice());
                    i += 1;
                }
                let has_match = self.results_store.has_match();
                let drained = self.results_store.take_results();
                self.batch = stamp(drained, haystack.path());
                self.failure = None;
                has_match
            },
            Err(text) => {
                self.batch = TestSearchResults::new();
                self.failure = Some(FileError::new(haystack.path().clone(), text));
                false
            },
        }
    }

    /// The worker's policies, for whoever reads the files: the preprocessor
    /// command, whether compressed files are unpacked, and both binary
    /// detections.
    pub fn get_config(&self) -> (config: &Config)
        ensures
            config@ == self.config(),
    {
        &self.config
    }

    /// The records of the file searched last.
    pub fn get_results(&self) -> (records: &TestSearchResults)
        ensures
            records@ == self.batch(),
    {
        &self.batch
    }

    /// Hands out the records of the file searched last and leaves the
    /// worker without any.
    pub fn consume_searcher_results(&mut self) -> (records: TestSearchResults)
        ensures
            records@ == old(self).batch(),
            final(self).batch() == Seq::<RecordView>::empty(),
            final(self).pattern() == old(self).pattern(),
            final(self).config() == old(self).config(),
            final(self).failure() == old(self).failure(),
    {
        let mut records = TestSearchResults::new();
        std::mem::swap(&mut self.batch, &mut records);
        records
    }

    /// Hands out the failure of the file searched last, if there is one, and
    /// leaves the worker without any.
    pub fn take_failure(&mut self) -> (failure: Option<FileError>)
        ensures
            failure_view(failure) == old(self).failure(),
            final(self).failure() is None,
            final(self).pattern() == old(self).pattern(),
            final(self).config() == old(self).config(),
            final(self).batch() == old(self).batch(),
    {
        let mut failure: Option<FileError> = None;
        std::mem::swap(&mut self.failure, &mut failure);
        failure
    }
}

impl Clone for SearchWorker {
    /// A worker of its own for another thread: the same pattern and
    /// policies, and no records.
    fn clone(&self) -> (copy: SearchWorker)
        ensures
            copy.pattern() == self.pattern(),
            copy.config() == self.config(),
            copy.batch() == Seq::<RecordView>::empty(),
            copy.failure() is None,
    {
        SearchWorker {
            config: self.config.clone(),
            matcher: self.matcher.clone(),
            results_store: CustomSink::new(),
            batch: TestSearchResults::new(),
            failure: None,
        }
    }
}

/// Sets the owning file of every record to `path`, keeping their order.
pub fn stamp(records: TestSearchResults, path: &String) -> (stamped: TestSearchResults)
    ensures
        stamped@ == stamp_all(records@, path@),
{
    let mut list = records.consume_results();
    let ghost before = list@;
    let mut i: usize = 0;
    while i < list.len()
        invariant
            i <= list@.len(),
            list@.len() == before.len(),
            forall|j: int| 0 <= j < i ==> (#[trigger] list@[j])@ == with_file(before[j]@, path@),
            forall|j: int| i <= j < list@.len() ==> (#[trigger] list@[j]) == before[j],
        decreases list@.len() - i,
    {
        list[i].set_file_name(Some(path.clone()));
        i += 1;
    }
    TestSearchResults::from_records(list)
}

} // verus!
