//! The front of the library: the messages that ask for a search, the named
//! results of the searches of one session, and how a run ends.

use vstd::prelude::*;
use vstd::hash_map::StringHashMap;
use crate::error::SearchError;
use crate::record::{RecordView, TestSearchResults};
use crate::search::{ArgsView, HiArgs};
use crate::worker::default_config;

verus! {

/// A message from the editor, by its event name.
#[derive(Debug)]
pub enum RpcMessages {
    /// A request to search.
    Search,
    /// A request to query stored results. No event name stands for it yet.
    Query,
    /// Any other event, with its name.
    Unknown(String),
}

/// The event name that asks for a search.
pub open spec fn search_event() -> Seq<char> {
    "search"@
}

/// The message that an event name stands for.
pub open spec fn message_for(event: String) -> RpcMessages {
    if event@ == search_event() {
        RpcMessages::Search
    } else {
        RpcMessages::Unknown(event)
    }
}

impl vstd::std_specs::convert::FromSpecImpl<String> for RpcMessages {
    open spec fn obeys_from_spec() -> bool {
        true
    }

    open spec fn from_spec(event: String) -> RpcMessages {
        message_for(event)
    }
}

impl From<String> for RpcMessages {
    /// `search` asks for a search; every other name is unknown and kept.
    fn from(event: String) -> (message: RpcMessages) {
        let search = "search".to_owned();
        if event == search {
            RpcMessages::Search
        } else {
            RpcMessages::Unknown(event)
        }
    }
}

/// The results of the searches of one session, each under the name that the
/// caller gave its search.
pub struct SearchStore {
    search_store: StringHashMap<TestSearchResults>,
}

impl View for SearchStore {
    type V = Map<Seq<char>, Seq<RecordView>>;

    closed spec fn view(&self) -> Map<Seq<char>, Seq<RecordView>> {
        self.search_store@.map_values(|results: TestSearchResults| results@)
    }
}

impl SearchStore {
    /// A session without results.
    pub fn new() -> (store: SearchStore)
        ensures
            store@ == Map::<Seq<char>, Seq<RecordView>>::empty(),
    {
        let store = SearchStore { search_store: StringHashMap::new() };
        store
    }

    /// Stores the results of a search under `name`. Results stored under
    /// the same name before are replaced; every other name keeps its own.
    pub fn insert(&mut self, name: String, results: TestSearchResults)
        ensures
            final(self)@ == old(self)@.insert(name@, results@),
    {
        self.search_store.insert(name, results);
    }

    /// The results stored under `name`, if there are any.
    pub fn get(&self, name: &str) -> (found: Option<&TestSearchResults>)
        ensures
            match found {
                Some(results) => self@.contains_key(name@) && results@ == self@[name@],
                None => !self@.contains_key(name@),
            },
    {
        self.search_store.get(name)
    }

    /// Whether results are stored under `name`.
    pub fn contains(&self, name: &str) -> (yes: bool)
        ensures
            yes == self@.contains_key(name@),
    {
        self.search_store.contains_key(name)
    }

    /// Drops the results stored under `name`, if there are any.
    pub fn remove(&mut self, name: &str)
        ensures
            final(self)@ == old(self)@.remove(name@),
    {
        self.search_store.remove(name);
    }
}

/// The search term of a request that names none.
pub open spec fn default_term() -> Seq<char> {
    "test"@
}

/// The root path of a request that names none: the directory in which the
/// program runs.
pub open spec fn default_root() -> Seq<char> {
    "./"@
}

/// The request that a search event stands for: the term and the root that
/// the event names, each with its default where the event names none, with
/// the default policies, running to the end of the walk.
pub open spec fn request_view(term: Option<String>, root: Option<String>) -> ArgsView {
    ArgsView {
        pattern: match term {
            Some(text) => text@,
            None => default_term(),
        },
        root: match root {
            Some(path) => path@,
            None => default_root(),
        },
        quit_after_match: false,
        config: default_config(),
    }
}

/// What the handler asks its caller to do about an event.
#[derive(Clone, Copy, Debug, PartialEq, Eq, Structural)]
pub enum RpcAction {
    /// Run a search and hand its outcome to `finish_search`.
    RunSearch,
    /// Nothing is to be done.
    Ignore,
    /// Tell the editor that the event was not understood.
    Notify,
}

/// What is done about a message.
pub open spec fn action_for(message: RpcMessages) -> RpcAction {
    match message {
        RpcMessages::Search => RpcAction::RunSearch,
        RpcMessages::Query => RpcAction::Ignore,
        RpcMessages::Unknown(_) => RpcAction::Notify,
    }
}

/// The answer to a search request.
#[derive(Debug)]
pub enum Response {
    /// The search was carried out and its results are stored; they number
    /// this many, possibly none.
    Stored(usize),
    /// The search could not be carried out, for this reason.
    Failed(String),
}

/// Receives the editor's events one by one and keeps the session's results.
pub struct EventHandler {
    search_store: SearchStore,
}

impl View for EventHandler {
    type V = Map<Seq<char>, Seq<RecordView>>;

    /// The results stored so far, by name.
    closed spec fn view(&self) -> Map<Seq<char>, Seq<RecordView>> {
        self.search_store@
    }
}

impl EventHandler {
    /// A handler for a new session.
    pub fn new() -> (handler: EventHandler)
        ensures
            handler@ == Map::<Seq<char>, Seq<RecordView>>::empty(),
    {
        EventHandler { search_store: SearchStore::new() }
    }

    /// Says what is to be done about the event with the given name.
    pub fn recv(&self, event: String) -> (action: RpcAction)
        ensures
            action == action_for(message_for(event)),
    {
        match RpcMessages::from(event) {
            RpcMessages::Search => RpcAction::RunSearch,
            RpcMessages::Query => RpcAction::Ignore,
            RpcMessages::Unknown(_) => RpcAction::Notify,
        }
    }

    /// The request of a search event, given the term and the root that the
    /// event names, if it names any.
    pub fn request(&self, term: Option<String>, root: Option<String>) -> (args: HiArgs)
        ensures
            args@ == request_view(term, root),
    {
        let pattern = match term {
            Some(text) => text,
            None => "test".to_owned(),
        };
        let path = match root {
            Some(path) => path,
            None => "./".to_owned(),
        };
        HiArgs::new(pattern, path)
    }

    /// Takes the outcome of the search that was run under `name`. The
    /// results of a search that was carried out are stored under that name,
    /// in place of earlier ones; a failure stores nothing and is answered
    /// with its reason.
    pub fn finish_search(&mut self, name: String, outcome: Result<TestSearchResults, SearchError>) -> (response:
        Response)
        ensures
            match outcome {
                Ok(results) => {
                    &&& response == Response::Stored(results@.len() as usize)
                    &&& final(self)@ == old(self)@.insert(name@, results@)
                },
                Err(e) => {
                    &&& response matches Response::Failed(reason)
                    &&& reason@ == e.spec_reason()
                    &&& final(self)@ == old(self)@
                },
            },
    {
        match outcome {
            Ok(results) => {
                let count = results.len();
                self.search_store.insert(name, results);
                Response::Stored(count)
            },
            Err(e) => Response::Failed(e.reason()),
        }
    }

    /// The session's results.
    pub fn store(&self) -> (store: &SearchStore)
        ensures
            store@ == self@,
    {
        &self.search_store
    }
}

/// What lies behind a failure that ends a run.
#[derive(Clone, Copy, Debug, PartialEq, Eq, Structural)]
pub enum ErrorCause {
    /// Whoever read the output has closed the connection.
    BrokenPipe,
    /// Anything else.
    Other,
}

/// Whether a chain of causes holds a broken connection.
pub open spec fn has_broken_pipe(causes: Seq<ErrorCause>) -> bool {
    exists|i: int| 0 <= i < causes.len() && causes[i] is BrokenPipe
}

/// Whether a run that failed with the given chain of causes still ends in
/// success: it does exactly if a consumer that disconnected is among them.
pub fn ends_gracefully(causes: &Vec<ErrorCause>) -> (yes: bool)
    ensures
        yes == has_broken_pipe(causes@),
{
    let mut i: usize = 0;
    while i < causes.len()
        invariant
            i <= causes@.len(),
            forall|j: int| 0 <= j < i ==> !(causes@[j] is BrokenPipe),
        decreases causes@.len() - i,
    {
        if causes[i] == ErrorCause::BrokenPipe {
            return true;
        }
        i += 1;
    }
    false
}

} // verus!
