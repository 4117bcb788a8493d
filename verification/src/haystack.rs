//! Candidates that a directory walk turns up, and the files chosen from
//! them for searching.

use vstd::prelude::*;

verus! {

/// What kind of directory entry a candidate is.
#[derive(Clone, Copy, Debug, PartialEq, Eq, Structural)]
pub enum EntryKind {
    /// A regular file.
    File,
    /// A directory.
    Directory,
    /// Anything else: a socket, a device, a link that leads nowhere.
    Other,
}

/// What a candidate stands for.
pub struct CandidateView {
    pub path: Seq<char>,
    pub depth: nat,
    pub kind: EntryKind,
}

/// One entry that the walk has found: its path, how far below the walk's
/// root it lies (`0` for a path that the caller named) and its kind.
#[derive(Debug)]
pub struct Candidate {
    path: String,
    depth: usize,
    kind: EntryKind,
}

impl View for Candidate {
    type V = CandidateView;

    closed spec fn view(&self) -> CandidateView {
        CandidateView { path: self.path@, depth: self.depth as nat, kind: self.kind }
    }
}

impl Clone for Candidate {
    /// The same candidate.
    fn clone(&self) -> (copy: Candidate)
        ensures
            copy@ == self@,
    {
        Candidate { path: self.path.clone(), depth: self.depth, kind: self.kind }
    }
}

impl Candidate {
    /// A candidate with exactly the given fields.
    pub fn new(path: String, depth: usize, kind: EntryKind) -> (c: Candidate)
        ensures
            c@ == (CandidateView { path: path@, depth: depth as nat, kind }),
    {
        Candidate { path, depth, kind }
    }

    /// The candidate's path.
    pub fn path(&self) -> (p: &String)
        ensures
            p@ == self@.path,
    {
        &self.path
    }

    /// How far below the walk's root the candidate lies.
    pub fn depth(&self) -> (d: usize)
        ensures
            d as nat == self@.depth,
    {
        self.depth
    }

    /// What kind of directory entry the candidate is.
    pub fn kind(&self) -> (k: EntryKind)
        ensures
            k == self@.kind,
    {
        self.kind
    }
}

/// What a haystack stands for.
pub struct HaystackView {
    pub path: Seq<char>,
    pub explicit: bool,
}

/// One file chosen for searching. It never changes once it is built.
#[derive(Debug)]
pub struct Haystack {
    path: String,
    explicit: bool,
}

impl View for Haystack {
    type V = HaystackView;

    closed spec fn view(&self) -> HaystackView {
        HaystackView { path: self.path@, explicit: self.explicit }
    }
}

impl Clone for Haystack {
    /// The same haystack.
    fn clone(&self) -> (copy: Haystack)
        ensures
            copy@ == self@,
    {
        Haystack { path: self.path.clone(), explicit: self.explicit }
    }
}

impl Haystack {
    /// The path of the file.
    pub fn path(&self) -> (p: &String)
        ensures
            p@ == self@.path,
    {
        &self.path
    }

    /// Whether the caller named this file, as opposed to the walk finding
    /// it below a directory.
    pub fn is_explicit(&self) -> (b: bool)
        ensures
            b == self@.explicit,
    {
        self.explicit
    }
}

/// Whether the caller named the candidate itself: it is a root of the walk
/// and no directory.
pub open spec fn named_by_caller(c: CandidateView) -> bool {
    c.depth == 0 && c.kind != EntryKind::Directory
}

/// The haystack that a candidate becomes, if it is searched at all. A path
/// that the caller named is always searched; what the walk found is searched
/// only if it is a regular file.
pub open spec fn chosen(c: CandidateView) -> Option<HaystackView> {
    if named_by_caller(c) {
        Some(HaystackView { path: c.path, explicit: true })
    } else if c.kind == EntryKind::File {
        Some(HaystackView { path: c.path, explicit: false })
    } else {
        None
    }
}

/// What one result of the walk stands for: a candidate, or the text of the
/// failure of that step of the walk.
pub open spec fn entry_view(result: Result<Candidate, String>) -> Result<
    CandidateView,
    Seq<char>,
> {
    match result {
        Ok(candidate) => Ok(candidate@),
        Err(text) => Err(text@),
    }
}

/// The haystack that one result of the walk becomes: none for a failed
/// step of the walk, else what `chosen` says of the candidate.
pub open spec fn chosen_from(entry: Result<CandidateView, Seq<char>>) -> Option<HaystackView> {
    match entry {
        Ok(candidate) => chosen(candidate),
        Err(_) => None,
    }
}

/// Turns candidates into haystacks, and turns away those that are not
/// searched.
#[derive(Clone, Copy, Debug)]
pub struct HaystackBuilder {}

impl HaystackBuilder {
    pub fn new() -> HaystackBuilder {
        HaystackBuilder {  }
    }

    /// Whether a candidate is searched at all, which tells whoever reads
    /// the files whether this one need be read.
    pub fn chooses(&self, candidate: &Candidate) -> (yes: bool)
        ensures
            yes == chosen(candidate@).is_some(),
    {
        (candidate.depth == 0 && candidate.kind != EntryKind::Directory) || candidate.kind
            == EntryKind::File
    }

    /// The haystack for a candidate, or none if it is not searched.
    pub fn build(&self, candidate: Candidate) -> (h: Option<Haystack>)
        ensures
            match h {
                Some(haystack) => chosen(candidate@) == Some(haystack@),
                None => chosen(candidate@) is None,
            },
    {
        let explicit = candidate.depth == 0 && candidate.kind != EntryKind::Directory;
        if explicit {
            Some(Haystack { path: candidate.path, explicit: true })
        } else if candidate.kind == EntryKind::File {
            Some(Haystack { path: candidate.path, explicit: false })
        } else {
            None
        }
    }

    /// The haystack for one result of the walk. A step of the walk that
    /// failed yields none.
    pub fn build_from_result(&self, result: Result<Candidate, String>) -> (h: Option<Haystack>)
        ensures
            match h {
                Some(haystack) => chosen_from(entry_view(result)) == Some(haystack@),
                None => chosen_from(entry_view(result)) is None,
            },
    {
        match result {
            Ok(candidate) => self.build(candidate),
            Err(_) => None,
        }
    }
}

} // verus!
