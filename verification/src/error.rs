//! The failures that end a search, and the per-file failures that do not.

use vstd::prelude::*;

verus! {

/// Why a search could not be carried out at all.
#[derive(Debug)]
pub enum SearchError {
    /// The pattern is not one that the matching engine can compile.
    InvalidPattern(String),
    /// The walk over the root path could not be started.
    UnusableRoot(String),
    /// A lock that the worker threads share was left in an inconsistent
    /// state by a thread that failed while holding it.
    Synchronization(String),
}

/// The kind of a `SearchError`, without its text.
#[derive(Clone, Copy, Debug, PartialEq, Eq, Structural)]
pub enum ErrorKind {
    InvalidPattern,
    UnusableRoot,
    Synchronization,
}

impl SearchError {
    /// The kind of this failure.
    pub open spec fn spec_kind(&self) -> ErrorKind {
        match self {
            SearchError::InvalidPattern(_) => ErrorKind::InvalidPattern,
            SearchError::UnusableRoot(_) => ErrorKind::UnusableRoot,
            SearchError::Synchronization(_) => ErrorKind::Synchronization,
        }
    }

    /// The text that the failure carries.
    pub open spec fn spec_reason(&self) -> Seq<char> {
        match self {
            SearchError::InvalidPattern(text) => text@,
            SearchError::UnusableRoot(text) => text@,
            SearchError::Synchronization(text) => text@,
        }
    }

    /// The kind of this failure.
    #[verifier::when_used_as_spec(spec_kind)]
    pub fn kind(&self) -> (k: ErrorKind)
        ensures
            k == self.spec_kind(),
    {
        match self {
            SearchError::InvalidPattern(_) => ErrorKind::InvalidPattern,
            SearchError::UnusableRoot(_) => ErrorKind::UnusableRoot,
            SearchError::Synchronization(_) => ErrorKind::Synchronization,
        }
    }

    /// The reason to show to whoever asked for the search.
    pub fn reason(&self) -> (text: String)
        ensures
            text@ == self.spec_reason(),
    {
        match self {
            SearchError::InvalidPattern(text) => text.clone(),
            SearchError::UnusableRoot(text) => text.clone(),
            SearchError::Synchronization(text) => text.clone(),
        }
    }
}

/// What a per-file failure stands for: the file and what went wrong.
pub struct FileErrorView {
    pub path: Seq<char>,
    pub message: Seq<char>,
}

/// A failure that concerns one file only. It is reported and the walk goes
/// on with the next file.
#[derive(Debug)]
pub struct FileError {
    path: String,
    message: String,
}

impl View for FileError {
    type V = FileErrorView;

    closed spec fn view(&self) -> FileErrorView {
        FileErrorView { path: self.path@, message: self.message@ }
    }
}

impl FileError {
    /// A failure of the file at `path`.
    pub fn new(path: String, message: String) -> (e: FileError)
        ensures
            e@ == (FileErrorView { path: path@, message: message@ }),
    {
        FileError { path, message }
    }

    /// The file that failed.
    pub fn path(&self) -> (p: &String)
        ensures
            p@ == self@.path,
    {
        &self.path
    }

    /// What went wrong with it.
    pub fn message(&self) -> (m: &String)
        ensures
            m@ == self@.message,
    {
        &self.message
    }
}

} // verus!
