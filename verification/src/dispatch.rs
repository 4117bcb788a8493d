//! The shared side of a search: the aggregator that merges every file's
//! batch, and the dispatcher that tells the walk whether to go on.

use vstd::prelude::*;
use crate::record::{RecordView, TestSearchResults};

verus! {

/// What a callback tells the walk to do next.
#[derive(Clone, Copy, Debug, PartialEq, Eq, Structural)]
pub enum WalkSignal {
    /// Go on with the next candidate.
    Continue,
    /// End the walk: the first match was asked for and has been found.
    Stop,
    /// End the walk: whoever consumes the results is gone.
    Abort,
}

/// Where a dispatch run stands.
#[derive(Clone, Copy, Debug, PartialEq, Eq, Structural)]
pub enum DispatchState {
    /// The walk has not begun.
    Idle,
    /// Candidates are being searched.
    Walking,
    /// The walk ran to its end.
    Completed,
    /// The walk was told to stop after the first match.
    StoppedEarly,
    /// The walk was told to stop because the consumer is gone.
    Aborted,
}

/// Whether a batch could be handed on to whoever consumes the results.
#[derive(Clone, Copy, Debug, PartialEq, Eq, Structural)]
pub enum Delivery {
    /// The consumer took it.
    Delivered,
    /// The consumer has disconnected.
    Disconnected,
}

/// Merges the batches of all files into one collection. A batch is merged
/// as a whole: its records follow each other in the collection.
#[derive(Debug)]
pub struct ResultAggregator {
    results: TestSearchResults,
}

impl View for ResultAggregator {
    type V = Seq<RecordView>;

    closed spec fn view(&self) -> Seq<RecordView> {
        self.results@
    }
}

impl ResultAggregator {
    /// An aggregator without records.
    pub fn new() -> (aggregator: ResultAggregator)
        ensures
            aggregator@ == Seq::<RecordView>::empty(),
    {
        ResultAggregator { results: TestSearchResults::new() }
    }

    /// Merges one file's batch: every record of it is added once, behind
    /// all records merged before, and no other record changes.
    pub fn store(&mut self, batch: TestSearchResults)
        ensures
            final(self)@ == old(self)@ + batch@,
    {
        self.results.store_batch(batch);
    }

    /// The number of records merged so far.
    pub fn len(&self) -> (n: usize)
        ensures
            n == self@.len(),
    {
        self.results.len()
    }

    /// Gives up the aggregator and hands out everything it has merged.
    pub fn into_results(self) -> (results: TestSearchResults)
        ensures
            results@ == self@,
    {
        self.results
    }
}

/// Whether a state is one in which a run has ended.
pub open spec fn is_terminal(state: DispatchState) -> bool {
    state is Completed || state is StoppedEarly || state is Aborted
}

/// The signal for a batch that a callback submits while the run is in
/// `state`: nothing to say about an empty batch; the consumer being gone
/// aborts the walk; the first batch of a run that stops after the first
/// match stops it; everything else goes on.
pub open spec fn signal_for(
    state: DispatchState,
    stop_after_first_match: bool,
    batch_len: nat,
    delivery: Delivery,
) -> WalkSignal {
    if batch_len == 0 {
        WalkSignal::Continue
    } else if delivery is Disconnected {
        WalkSignal::Abort
    } else if stop_after_first_match && state is Walking {
        WalkSignal::Stop
    } else {
        WalkSignal::Continue
    }
}

/// The state after a callback got `signal` in `state`.
pub open spec fn state_after(state: DispatchState, signal: WalkSignal) -> DispatchState {
    match signal {
        WalkSignal::Continue => state,
        WalkSignal::Stop => DispatchState::StoppedEarly,
        WalkSignal::Abort => DispatchState::Aborted,
    }
}

/// The one thing that the worker threads of a run share: the aggregator,
/// the state of the run, and whether the run stops after its first match.
#[derive(Debug)]
pub struct ParallelDispatcher {
    aggregator: ResultAggregator,
    state: DispatchState,
    stop_after_first_match: bool,
}

impl ParallelDispatcher {
    /// The records merged so far.
    pub closed spec fn results(&self) -> Seq<RecordView> {
        self.aggregator@
    }

    /// Where the run stands.
    pub closed spec fn spec_state(&self) -> DispatchState {
        self.state
    }

    /// Whether the run stops after its first match.
    pub closed spec fn stops_early(&self) -> bool {
        self.stop_after_first_match
    }

    /// A dispatcher for a run that has not begun.
    pub fn new(stop_after_first_match: bool) -> (dispatcher: ParallelDispatcher)
        ensures
            dispatcher.results() == Seq::<RecordView>::empty(),
            dispatcher.spec_state() is Idle,
            dispatcher.stops_early() == stop_after_first_match,
    {
        ParallelDispatcher {
            aggregator: ResultAggregator::new(),
            state: DispatchState::Idle,
            stop_after_first_match,
        }
    }

    /// Where the run stands.
    #[verifier::when_used_as_spec(spec_state)]
    pub fn state(&self) -> (state: DispatchState)
        ensures
            state == self.spec_state(),
    {
        self.state
    }

    /// Begins the walk.
    pub fn start(&mut self)
        requires
            old(self).spec_state() is Idle,
        ensures
            final(self).spec_state() is Walking,
            final(self).results() == old(self).results(),
            final(self).stops_early() == old(self).stops_early(),
    {
        self.state = DispatchState::Walking;
    }

    /// Takes the batch of one searched file and says what the walk does
    /// next. A batch that was delivered is merged whole, also when the run
    /// has been told to stop before: a callback that was under way then
    /// still counts. A batch that found its consumer gone is dropped.
    pub fn submit(&mut self, batch: TestSearchResults, delivery: Delivery) -> (signal: WalkSignal)
        requires
            !(old(self).spec_state() is Idle),
            !(old(self).spec_state() is Completed),
        ensures
            signal == signal_for(
                old(self).spec_state(),
                old(self).stops_early(),
                batch@.len(),
                delivery,
            ),
            final(self).spec_state() == state_after(old(self).spec_state(), signal),
            final(self).results() == if signal is Abort {
                old(self).results()
            } else {
                old(self).results() + batch@
            },
            final(self).stops_early() == old(self).stops_early(),
    {
        if !batch.has_results() {
            return WalkSignal::Continue;
        }
        match delivery {
            Delivery::Disconnected => {
                self.state = DispatchState::Aborted;
                WalkSignal::Abort
            },
            Delivery::Delivered => {
                self.aggregator.store(batch);
                match self.state {
                    DispatchState::Walking => {
                        if self.stop_after_first_match {
                            self.state = DispatchState::StoppedEarly;
                            WalkSignal::Stop
                        } else {
                            WalkSignal::Continue
                        }
                    },
                    _ => WalkSignal::Continue,
                }
            },
        }
    }

    /// Ends the walk: a run that was still walking has completed; a run
    /// that was stopped or aborted stays so.
    pub fn finish(&mut self)
        requires
            !(old(self).spec_state() is Idle),
        ensures
            final(self).spec_state() == if old(self).spec_state() is Walking {
                DispatchState::Completed
            } else {
                old(self).spec_state()
            },
            is_terminal(final(self).spec_state()),
            final(self).results() == old(self).results(),
            final(self).stops_early() == old(self).stops_early(),
    {
        match self.state {
            DispatchState::Walking => {
                self.state = DispatchState::Completed;
            },
            _ => {},
        }
    }

    /// Gives up the dispatcher of a run that has ended and hands out what
    /// the run has merged, be it all there was or a part.
    pub fn into_results(self) -> (results: TestSearchResults)
        requires
            is_terminal(self.spec_state()),
        ensures
            results@ == self.results(),
    {
        self.aggregator.into_results()
    }
}

} // verus!
