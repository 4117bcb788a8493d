//! A whole search: the request, what the walk hands in for each candidate,
//! and the run over all of it.

use vstd::prelude::*;
use crate::dispatch::{Delivery, DispatchState, ParallelDispatcher};
use crate::error::{FileError, FileErrorView, SearchError};
use crate::haystack::{
    chosen_from, entry_view, Candidate, CandidateView, HaystackBuilder,
};
use crate::matcher::{regex_compiles, regex_error, BinaryDetection, PatternMatcher};
use crate::record::{RecordView, TestSearchResults};
use crate::sink::line_content;
use crate::worker::{
    batch_of, content_outcome, content_view, detection_for, failure_of, Config, ConfigView,
    SearchWorker, SearchWorkerBuilder,
};

verus! {

/// What a search request stands for.
pub struct ArgsView {
    pub pattern: Seq<char>,
    pub root: Seq<char>,
    pub quit_after_match: bool,
    pub config: ConfigView,
}

/// A search request with every option resolved: the search term, the root
/// path of the walk, whether the search stops after the first match, and
/// the worker's policies.
#[derive(Debug)]
pub struct HiArgs {
    pattern: String,
    root: String,
    quit_after_match: bool,
    worker_builder: SearchWorkerBuilder,
}

impl View for HiArgs {
    type V = ArgsView;

    closed spec fn view(&self) -> ArgsView {
        ArgsView {
            pattern: self.pattern@,
            root: self.root@,
            quit_after_match: self.quit_after_match,
            config: self.worker_builder@,
        }
    }
}

impl HiArgs {
    /// A request for `pattern` below `root`, with the default policies,
    /// that runs to the end of the walk.
    pub fn new(pattern: String, root: String) -> (args: HiArgs)
        ensures
            args@ == (ArgsView {
                pattern: pattern@,
                root: root@,
                quit_after_match: false,
                config: crate::worker::default_config(),
            }),
    {
        HiArgs { pattern, root, quit_after_match: false, worker_builder: SearchWorkerBuilder::new() }
    }

    /// Sets whether the search stops after the first match.
    pub fn set_quit_after_match(&mut self, yes: bool)
        ensures
            final(self)@ == (ArgsView { quit_after_match: yes, ..old(self)@ }),
    {
        self.quit_after_match = yes;
    }

    /// Sets the binary detection for files that the walk finds and for
    /// files that the caller names.
    pub fn set_binary_detection(&mut self, implicit: BinaryDetection, explicit: BinaryDetection)
        ensures
            final(self)@ == (ArgsView {
                config: ConfigView {
                    binary_implicit: implicit,
                    binary_explicit: explicit,
                    ..old(self)@.config
                },
                ..old(self)@
            }),
    {
        self.worker_builder.binary_detection_implicit(implicit);
        self.worker_builder.binary_detection_explicit(explicit);
    }

    /// Sets whether compressed files are unpacked before they are scanned.
    pub fn set_search_zip(&mut self, yes: bool)
        ensures
            final(self)@ == (ArgsView {
                config: ConfigView { search_zip: yes, ..old(self)@.config },
                ..old(self)@
            }),
    {
        self.worker_builder.search_zip(yes);
    }

    /// Sets the preprocessor command, or unsets it.
    pub fn set_preprocessor(&mut self, command: Option<String>)
        ensures
            final(self)@ == (ArgsView {
                config: ConfigView {
                    preprocessor: match command {
                        Some(c) => Some(c@),
                        None => None,
                    },
                    ..old(self)@.config
                },
                ..old(self)@
            }),
    {
        self.worker_builder.preprocessor(command);
    }

    /// The search term.
    pub fn pattern(&self) -> (text: &String)
        ensures
            text@ == self@.pattern,
    {
        &self.pattern
    }

    /// The root path of the walk.
    pub fn root(&self) -> (path: &String)
        ensures
            path@ == self@.root,
    {
        &self.root
    }

    /// Whether the search stops after the first match.
    pub fn quit_after_match(&self) -> (yes: bool)
        ensures
            yes == self@.quit_after_match,
    {
        self.quit_after_match
    }

    /// The request's policies, for whoever reads the files.
    pub fn get_config(&self) -> (config: &Config)
        ensures
            config@ == self@.config,
    {
        self.worker_builder.get_config()
    }

    /// The matcher for the search term. Fails, before anything is
    /// searched, exactly if the term is no pattern that the engine accepts.
    pub fn matcher(&self) -> (r: Result<PatternMatcher, SearchError>)
        ensures
            r is Ok == regex_compiles(self@.pattern),
            r matches Ok(matcher) ==> matcher@ == self@.pattern,
            r matches Err(e) ==> e is InvalidPattern && e.spec_reason() == regex_error(
                self@.pattern,
            ),
    {
        PatternMatcher::new(self.pattern.as_str())
    }

    /// A worker that searches with the given matcher under the request's
    /// policies.
    pub fn search_worker(&self, matcher: PatternMatcher) -> (worker: SearchWorker)
        ensures
            worker.pattern() == matcher@,
            worker.config() == self@.config,
            worker.batch() == Seq::<RecordView>::empty(),
            worker.failure() is None,
    {
        self.worker_builder.build(matcher)
    }

    /// The builder that chooses the haystacks among the candidates.
    pub fn haystack_builder(&self) -> HaystackBuilder {
        HaystackBuilder::new()
    }
}

/// What one item of a walk stands for.
pub struct WalkItemView {
    pub entry: Result<CandidateView, Seq<char>>,
    pub content: Result<Seq<u8>, Seq<char>>,
}

/// What the walk hands in for one step: the candidate it found, or the
/// failure of that step, and the bytes of the candidate's file, or the
/// failure to read them.
#[derive(Debug)]
pub struct WalkItem {
    entry: Result<Candidate, String>,
    content: Result<Vec<u8>, String>,
}

impl View for WalkItem {
    type V = WalkItemView;

    closed spec fn view(&self) -> WalkItemView {
        WalkItemView { entry: entry_view(self.entry), content: content_view(self.content) }
    }
}

impl WalkItem {
    /// An item with exactly the given parts.
    pub fn new(entry: Result<Candidate, String>, content: Result<Vec<u8>, String>) -> (item:
        WalkItem)
        ensures
            item@ == (WalkItemView { entry: entry_view(entry), content: content_view(content) }),
    {
        WalkItem { entry, content }
    }
}

/// The views of a list of walk items, in the same order.
pub open spec fn item_views(items: Seq<WalkItem>) -> Seq<WalkItemView> {
    items.map_values(|item: WalkItem| item@)
}

/// The views of a list of per-file failures, in the same order.
pub open spec fn failure_views(failures: Seq<FileError>) -> Seq<FileErrorView> {
    failures.map_values(|e: FileError| e@)
}

/// The lines that the scan reports for one item of the walk, each with its
/// number and its bytes: none if the item is not searched or its scan
/// failed.
pub open spec fn item_hits(pattern: Seq<char>, config: ConfigView, item: WalkItemView) -> Seq<
    (u64, Seq<u8>),
> {
    match chosen_from(item.entry) {
        Some(haystack) => match content_outcome(
            pattern,
            detection_for(config, haystack),
            item.content,
        ) {
            Ok(hits) => hits,
            Err(_) => Seq::empty(),
        },
        None => Seq::empty(),
    }
}

/// The record of one reported line of the file at `path`: the file, the
/// line's number and the line's bytes without the line feed at its end.
pub open spec fn record_of(path: Seq<char>, hit: (u64, Seq<u8>)) -> RecordView {
    RecordView {
        file_name: Some(path),
        line_number: hit.0 as int,
        matched_bytes: line_content(hit.1),
    }
}

/// The records that one item of the walk contributes: none if the item is
/// not searched, else the batch of its file.
pub open spec fn item_batch(pattern: Seq<char>, config: ConfigView, item: WalkItemView) -> Seq<
    RecordView,
> {
    match chosen_from(item.entry) {
        Some(haystack) => batch_of(
            haystack.path,
            content_outcome(pattern, detection_for(config, haystack), item.content),
        ),
        None => Seq::empty(),
    }
}

/// The failure that is reported for one item of the walk, if any: the
/// failure of the walk's step, under an empty path, or the failure of the
/// file that was searched.
pub open spec fn item_failure(pattern: Seq<char>, config: ConfigView, item: WalkItemView) -> Option<
    FileErrorView,
> {
    match item.entry {
        Err(text) => Some(FileErrorView { path: Seq::empty(), message: text }),
        Ok(_) => match chosen_from(item.entry) {
            Some(haystack) => failure_of(
                haystack.path,
                content_outcome(pattern, detection_for(config, haystack), item.content),
            ),
            None => None,
        },
    }
}

/// Whether the run ends with this item: it stops after the first match and
/// the item has one.
pub open spec fn ends_run(pattern: Seq<char>, config: ConfigView, stop: bool, item: WalkItemView) -> bool {
    stop && item_batch(pattern, config, item).len() > 0
}

/// The records of a run over `items` in the given order: the batch of each
/// item, one behind the other, up to and including the item with which the
/// run ends.
pub open spec fn walk_records(
    pattern: Seq<char>,
    config: ConfigView,
    stop: bool,
    items: Seq<WalkItemView>,
) -> Seq<RecordView>
    decreases items.len(),
{
    if items.len() == 0 {
        Seq::empty()
    } else if ends_run(pattern, config, stop, items.first()) {
        item_batch(pattern, config, items.first())
    } else {
        item_batch(pattern, config, items.first()) + walk_records(
            pattern,
            config,
            stop,
            items.drop_first(),
        )
    }
}

/// The failures that a run over `items` reports, in the order of the items,
/// up to and including the item with which the run ends.
pub open spec fn walk_failures(
    pattern: Seq<char>,
    config: ConfigView,
    stop: bool,
    items: Seq<WalkItemView>,
) -> Seq<FileErrorView>
    decreases items.len(),
{
    if items.len() == 0 {
        Seq::empty()
    } else {
        let here = match item_failure(pattern, config, items.first()) {
            Some(failure) => seq![failure],
            None => Seq::empty(),
        };
        if ends_run(pattern, config, stop, items.first()) {
            here
        } else {
            here + walk_failures(pattern, config, stop, items.drop_first())
        }
    }
}

/// The failure of one item as a list: one entry, or none.
pub open spec fn reported(failure: Option<FileErrorView>) -> Seq<FileErrorView> {
    match failure {
        Some(f) => seq![f],
        None => Seq::empty(),
    }
}

/// The part of a callback that needs nothing shared: chooses the haystack,
/// searches it and hands out its batch. The failure of the walk's step or
/// of the file, if there is one, is added to `errors`.
pub fn search_item(
    builder: &HaystackBuilder,
    worker: &mut SearchWorker,
    item: WalkItem,
    errors: &mut Vec<FileError>,
) -> (batch: TestSearchResults)
    ensures
        final(worker).pattern() == old(worker).pattern(),
        final(worker).config() == old(worker).config(),
        batch@ == item_batch(old(worker).pattern(), old(worker).config(), item@),
        chosen_from(item@.entry) is Some ==> final(worker).batch() == Seq::<RecordView>::empty()
            && final(worker).failure() is None,
        chosen_from(item@.entry) is None ==> final(worker).batch() == old(worker).batch()
            && final(worker).failure() == old(worker).failure(),
        failure_views(final(errors)@) == failure_views(old(errors)@) + reported(
            item_failure(old(worker).pattern(), old(worker).config(), item@),
        ),
{
    let WalkItem { entry, content } = item;
    if let Err(text) = &entry {
        errors.push(FileError::new(String::new(), text.clone()));
    }
    match builder.build_from_result(entry) {
        Some(haystack) => {
            worker.search(&haystack, &content);
            if let Some(failure) = worker.take_failure() {
                errors.push(failure);
            }
            worker.consume_searcher_results()
        },
        None => TestSearchResults::new(),
    }
}

/// Runs a search over everything that the walk has handed in, in the given
/// order, with one worker. Fails, before anything is searched, exactly if
/// the search term is no pattern that the engine accepts, and then with
/// what the engine says of it as the reason. Else the result
/// holds the batch of every item up to the end of the run, be it the end of
/// the walk or the first match of a search that stops there; a search that
/// matches nothing succeeds with no records. The failures of single files
/// are added to `errors` and end nothing.
pub fn search_parallel(args: &HiArgs, walk: Vec<WalkItem>, errors: &mut Vec<FileError>) -> (r:
    Result<TestSearchResults, SearchError>)
    ensures
        r is Ok == regex_compiles(args@.pattern),
        r matches Ok(results) ==> {
            &&& results@ == walk_records(
                args@.pattern,
                args@.config,
                args@.quit_after_match,
                item_views(walk@),
            )
            &&& failure_views(final(errors)@) == failure_views(old(errors)@) + walk_failures(
                args@.pattern,
                args@.config,
                args@.quit_after_match,
                item_views(walk@),
            )
        },
        r matches Err(e) ==> {
            &&& e is InvalidPattern
            &&& e.spec_reason() == regex_error(args@.pattern)
            &&& final(errors)@ == old(errors)@
        },
{
    let matcher = match args.matcher() {
        Ok(matcher) => matcher,
        Err(e) => {
            return Err(e);
        },
    };
    let mut worker = args.search_worker(matcher);
    let builder = args.haystack_builder();
    let mut dispatcher = ParallelDispatcher::new(args.quit_after_match());
    dispatcher.start();
    let ghost all = item_views(walk@);
    let ghost pattern = args@.pattern;
    let ghost config = args@.config;
    let ghost stop = args@.quit_after_match;
    let ghost before = failure_views(errors@);
    proof {
        assert(all.skip(0) == all);
    }
    for item in it: walk.into_iter()
        invariant
            it.seq() == walk@,
            all == item_views(walk@),
            worker.pattern() == pattern,
            worker.config() == config,
            dispatcher.stops_early() == stop,
            dispatcher.spec_state() is Walking || dispatcher.spec_state() is StoppedEarly,
            dispatcher.spec_state() is Walking ==> {
                &&& walk_records(pattern, config, stop, all) == dispatcher.results()
                    + walk_records(pattern, config, stop, all.skip(it.index() as int))
                &&& before + walk_failures(pattern, config, stop, all) == failure_views(errors@)
                    + walk_failures(pattern, config, stop, all.skip(it.index() as int))
            },
            dispatcher.spec_state() is StoppedEarly ==> {
                &&& walk_records(pattern, config, stop, all) == dispatcher.results()
                &&& before + walk_failures(pattern, config, stop, all) == failure_views(errors@)
            },
    {
        if dispatcher.state() == DispatchState::Walking {
            proof {
                let here = all.skip(it.index() as int);
                assert(here.drop_first() == all.skip(it.index() + 1));
            }
            let batch = search_item(&builder, &mut worker, item, errors);
            dispatcher.submit(batch, Delivery::Delivered);
        }
    }
    dispatcher.finish();
    Ok(dispatcher.into_results())
}

/// Carries out one search request. To find nothing is no failure: the
/// request then succeeds with no records, which tells it apart from a
/// request that could not be carried out at all.
pub fn rg_search(args: &HiArgs, walk: Vec<WalkItem>, errors: &mut Vec<FileError>) -> (r: Result<
    TestSearchResults,
    SearchError,
>)
    ensures
        r is Ok == regex_compiles(args@.pattern),
        r matches Ok(results) ==> {
            &&& results@ == walk_records(
                args@.pattern,
                args@.config,
                args@.quit_after_match,
                item_views(walk@),
            )
            &&& failure_views(final(errors)@) == failure_views(old(errors)@) + walk_failures(
                args@.pattern,
                args@.config,
                args@.quit_after_match,
                item_views(walk@),
            )
        },
        r matches Err(e) ==> {
            &&& e is InvalidPattern
            &&& e.spec_reason() == regex_error(args@.pattern)
            &&& final(errors)@ == old(errors)@
        },
{
    search_parallel(args, walk, errors)
}

} // verus!
