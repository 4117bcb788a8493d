//! The pattern matcher: a closed set of matching engines behind one
//! interface, and the scan of one file's bytes for matching lines.

use vstd::prelude::*;
use crate::error::SearchError;

verus! {

/// `grep::regex::RegexMatcher`: a compiled pattern. Nothing inside it is
/// visible here.
#[verifier::external_type_specification]
#[verifier::external_body]
pub struct ExRegexMatcher(grep::regex::RegexMatcher);

/// What to do about binary data while a file is scanned.
#[derive(Clone, Copy, Debug, PartialEq, Eq, Structural)]
pub enum BinaryDetection {
    /// Scan whatever bytes there are.
    Off,
    /// Treat the file as ended where this byte first occurs.
    Quit(u8),
    /// Read this byte as a line terminator.
    Convert(u8),
}

/// One matching line as the scan reports it: its 1-based number and its
/// bytes, line terminator included.
#[derive(Debug)]
pub struct LineHit {
    pub line_number: u64,
    pub bytes: Vec<u8>,
}

impl View for LineHit {
    type V = (u64, Seq<u8>);

    open spec fn view(&self) -> (u64, Seq<u8>) {
        (self.line_number, self.bytes@)
    }
}

/// The views of a list of hits, in the same order.
pub open spec fn hit_views(hits: Seq<LineHit>) -> Seq<(u64, Seq<u8>)> {
    hits.map_values(|h: LineHit| h@)
}

/// What an outcome of a scan stands for.
pub open spec fn outcome_view(outcome: Result<Vec<LineHit>, String>) -> Result<
    Seq<(u64, Seq<u8>)>,
    Seq<char>,
> {
    match outcome {
        Ok(hits) => Ok(hit_views(hits@)),
        Err(text) => Err(text@),
    }
}

/// Whether the default regex engine accepts `pattern`.
pub uninterp spec fn regex_compiles(pattern: Seq<char>) -> bool;

/// What the default regex engine says of a `pattern` that it does not
/// accept.
pub uninterp spec fn regex_error(pattern: Seq<char>) -> Seq<char>;

/// Where the pattern first occurs in `buffer`: the byte offsets at which the
/// first match starts and ends, or none if the pattern does not occur.
pub uninterp spec fn first_match(pattern: Seq<char>, buffer: Seq<u8>) -> Option<(usize, usize)>;

/// What a scan of `data` for lines matching `pattern` reports under the
/// given binary detection: the lines that the engine finds, each with its
/// number, or the text of the scan's failure.
pub uninterp spec fn scan_outcome(
    pattern: Seq<char>,
    detection: BinaryDetection,
    data: Seq<u8>,
) -> Result<Seq<(u64, Seq<u8>)>, Seq<char>>;

/// The `Clone` impl of `grep::regex::RegexMatcher`. Nothing is claimed of
/// the copy.
pub assume_specification[ <grep::regex::RegexMatcher as Clone>::clone ](
    matcher: &grep::regex::RegexMatcher,
) -> (copy: grep::regex::RegexMatcher)
;

/// A pattern compiled by the default regex engine, together with the
/// pattern's text.
#[derive(Debug)]
pub struct RegexEngine {
    pattern: String,
    compiled: grep::regex::RegexMatcher,
}

impl View for RegexEngine {
    type V = Seq<char>;

    /// The text of the pattern.
    closed spec fn view(&self) -> Seq<char> {
        self.pattern@
    }
}

impl Clone for RegexEngine {
    /// An engine for the same pattern.
    fn clone(&self) -> (copy: RegexEngine)
        ensures
            copy@ == self@,
    {
        RegexEngine { pattern: self.pattern.clone(), compiled: self.compiled.clone() }
    }
}

/// The matching engines that a search can use.
#[derive(Debug)]
pub enum PatternMatcher {
    RustRegex(RegexEngine),
}

impl Clone for PatternMatcher {
    /// A matcher for the same pattern.
    fn clone(&self) -> (copy: PatternMatcher)
        ensures
            copy@ == self@,
    {
        match self {
            PatternMatcher::RustRegex(engine) => PatternMatcher::RustRegex(engine.clone()),
        }
    }
}

impl View for PatternMatcher {
    type V = Seq<char>;

    closed spec fn view(&self) -> Seq<char> {
        match self {
            PatternMatcher::RustRegex(engine) => engine@,
        }
    }
}

/// Calls `grep::regex::RegexMatcher::new` and, where it fails, the
/// `Display` impl of the `grep::regex::Error` that it hands back. The claim:
/// it succeeds exactly on the patterns that `regex_compiles` holds of; the
/// engine handed back is kept together with the text it was compiled from;
/// and the text of a failure is a function of the pattern, named
/// `regex_error`.
#[verifier::external_body]
fn compile_regex(pattern: &str) -> (r: Result<RegexEngine, String>)
    ensures
        r is Ok == regex_compiles(pattern@),
        r matches Ok(engine) ==> engine@ == pattern@,
        r matches Err(text) ==> text@ == regex_error(pattern@),
{
    match grep::regex::RegexMatcher::new(pattern) {
        Ok(compiled) => Ok(RegexEngine { pattern: pattern.to_string(), compiled }),
        Err(err) => Err(err.to_string()),
    }
}

/// Calls `grep::matcher::Matcher::find` on the engine's compiled pattern.
/// The claim: the range handed back is a function of the pattern's text and
/// the buffer, named `first_match`; it is a byte range of the buffer, and
/// its start is not behind its end, which `grep::matcher::Match::new`
/// asserts of every match.
#[verifier::external_body]
fn find_first(engine: &RegexEngine, buffer: &[u8]) -> (r: Option<(usize, usize)>)
    ensures
        r == first_match(engine@, buffer@),
        r matches Some((start, end)) ==> start <= end <= buffer@.len(),
{
    match grep::matcher::Matcher::find(&engine.compiled, buffer) {
        Ok(Some(found)) => Some((found.start(), found.end())),
        Ok(None) => None,
        Err(_) => None,
    }
}

/// Runs `grep::searcher::Searcher::search_reader` over `data` with the
/// engine's compiled pattern, line numbers on and the given binary
/// detection, and collects what it reports to a `grep::searcher::sinks::Bytes`
/// sink. The claim: the outcome is a function of the pattern's text, the
/// detection and the data, named `scan_outcome`.
#[verifier::external_body]
fn scan_bytes(engine: &RegexEngine, detection: BinaryDetection, data: &[u8]) -> (r: Result<
    Vec<LineHit>,
    String,
>)
    ensures
        outcome_view(r) == scan_outcome(engine@, detection, data@),
{
    let mut hits = Vec::new();
    let mut builder = grep::searcher::SearcherBuilder::new();
    builder.line_number(true).binary_detection(match detection {
        BinaryDetection::Off => grep::searcher::BinaryDetection::none(),
        BinaryDetection::Quit(byte) => grep::searcher::BinaryDetection::quit(byte),
        BinaryDetection::Convert(byte) => grep::searcher::BinaryDetection::convert(byte),
    });
    let sink = grep::searcher::sinks::Bytes(|line_number, bytes| {
        hits.push(LineHit { line_number, bytes: bytes.to_vec() });
        Ok(true)
    });
    let done = builder.build().search_reader(&engine.compiled, data, sink);
    done.map(|()| hits).map_err(|err| err.to_string())
}

impl PatternMatcher {
    /// Compiles `pattern` for the default regex engine. A pattern that the
    /// engine does not accept is refused here, before any file is scanned,
    /// with what the engine says of it as the reason.
    pub fn new(pattern: &str) -> (r: Result<PatternMatcher, SearchError>)
        ensures
            r is Ok == regex_compiles(pattern@),
            r matches Ok(matcher) ==> matcher@ == pattern@,
            r matches Err(e) ==> e is InvalidPattern && e.spec_reason() == regex_error(pattern@),
    {
        PatternMatcher::from_compiled(compile_regex(pattern))
    }

    /// Turns what the regex engine made of a pattern into a matcher, or
    /// into the failure that the search reports, with the engine's text as
    /// its reason.
    pub fn from_compiled(compiled: Result<RegexEngine, String>) -> (r: Result<
        PatternMatcher,
        SearchError,
    >)
        ensures
            match compiled {
                Ok(engine) => r matches Ok(matcher) && matcher@ == engine@,
                Err(text) => r matches Err(e) && e is InvalidPattern && e.spec_reason() == text@,
            },
    {
        match compiled {
            Ok(engine) => Ok(PatternMatcher::RustRegex(engine)),
            Err(text) => Err(SearchError::InvalidPattern(text)),
        }
    }

    /// The text of the pattern that this matcher looks for.
    pub fn pattern(&self) -> (text: &String)
        ensures
            text@ == self@,
    {
        match self {
            PatternMatcher::RustRegex(engine) => &engine.pattern,
        }
    }

    /// Where the pattern first occurs in `buffer`, be it one line or a
    /// larger block: the byte range of the first match, or none.
    pub fn find(&self, buffer: &[u8]) -> (r: Option<(usize, usize)>)
        ensures
            r == first_match(self@, buffer@),
            r matches Some((start, end)) ==> start <= end <= buffer@.len(),
    {
        match self {
            PatternMatcher::RustRegex(engine) => find_first(engine, buffer),
        }
    }

    /// Whether the pattern occurs in `buffer` at all.
    pub fn is_match(&self, buffer: &[u8]) -> (yes: bool)
        ensures
            yes == first_match(self@, buffer@).is_some(),
    {
        self.find(buffer).is_some()
    }

    /// Scans `data` for the lines in which the engine finds the pattern.
    pub fn scan(&self, detection: BinaryDetection, data: &[u8]) -> (r: Result<
        Vec<LineHit>,
        String,
    >)
        ensures
            outcome_view(r) == scan_outcome(self@, detection, data@),
    {
        match self {
            PatternMatcher::RustRegex(engine) => scan_bytes(engine, detection, data),
        }
    }
}

} // verus!
