//! What holds of every search, whatever the files and whatever the order in
//! which the walk turns them up.

use vstd::prelude::*;
use vstd::multiset::Multiset;
use vstd::seq_lib::{commutative_foldl, lemma_fold_left_permutation, lemma_multiset_commutative};
use crate::dispatch::{signal_for, state_after, Delivery, DispatchState, WalkSignal};
use crate::haystack::{chosen, chosen_from, CandidateView, EntryKind};
use crate::record::RecordView;
use crate::search::{item_batch, item_hits, record_of, walk_records, WalkItemView};
use crate::worker::{detection_for, ConfigView};

verus! {

/// The number of matching lines in everything that the walk hands in: the
/// lines that the scans report, over all items.
pub open spec fn total_matches(pattern: Seq<char>, config: ConfigView, items: Seq<WalkItemView>) -> nat
    decreases items.len(),
{
    if items.len() == 0 {
        0
    } else {
        item_hits(pattern, config, items.first()).len() + total_matches(
            pattern,
            config,
            items.drop_first(),
        )
    }
}

/// The batch of an item holds one record for each line that the scan
/// reports for it, in the order of the report: the record of that line
/// under the item's path.
pub proof fn lemma_batch_holds_every_reported_line(
    pattern: Seq<char>,
    config: ConfigView,
    item: WalkItemView,
)
    ensures
        item_batch(pattern, config, item).len() == item_hits(pattern, config, item).len(),
        forall|j: int|
            0 <= j < item_hits(pattern, config, item).len() ==> #[trigger] item_batch(
                pattern,
                config,
                item,
            )[j] == record_of(
                chosen_from(item.entry)->0.path,
                item_hits(pattern, config, item)[j],
            ),
{
}

/// Adds the records of one item to a collection in which order does not
/// count.
pub open spec fn add_matches(pattern: Seq<char>, config: ConfigView) -> spec_fn(
    Multiset<RecordView>,
    WalkItemView,
) -> Multiset<RecordView> {
    |found: Multiset<RecordView>, item: WalkItemView|
        found.add(item_batch(pattern, config, item).to_multiset())
}

/// The records of all items, each as often as it occurs, in no order.
pub open spec fn all_matches(pattern: Seq<char>, config: ConfigView, items: Seq<WalkItemView>) -> Multiset<
    RecordView,
> {
    items.fold_left(Multiset::empty(), add_matches(pattern, config))
}

/// A search that runs to the end of the walk yields exactly as many records
/// as the scans report matching lines: none is lost and none is doubled.
pub proof fn lemma_every_match_counted(pattern: Seq<char>, config: ConfigView, items: Seq<WalkItemView>)
    ensures
        walk_records(pattern, config, false, items).len() == total_matches(pattern, config, items),
    decreases items.len(),
{
    if items.len() > 0 {
        lemma_batch_holds_every_reported_line(pattern, config, items.first());
        lemma_every_match_counted(pattern, config, items.drop_first());
    }
}

/// No match is lost: a search that runs to the end of the walk holds, for
/// every line that the scan reports for any searched file, the record of
/// that line under that file's path.
pub proof fn lemma_no_match_is_lost(
    pattern: Seq<char>,
    config: ConfigView,
    items: Seq<WalkItemView>,
    at: int,
    line: int,
)
    requires
        0 <= at < items.len(),
        0 <= line < item_hits(pattern, config, items[at]).len(),
    ensures
        walk_records(pattern, config, false, items).contains(
            record_of(
                chosen_from(items[at].entry)->0.path,
                item_hits(pattern, config, items[at])[line],
            ),
        ),
    decreases at,
{
    let here = item_batch(pattern, config, items.first());
    let rest = walk_records(pattern, config, false, items.drop_first());
    if at == 0 {
        lemma_batch_holds_every_reported_line(pattern, config, items[0]);
        assert((here + rest)[line] == here[line]);
    } else {
        assert(items.drop_first()[at - 1] == items[at]);
        lemma_no_match_is_lost(pattern, config, items.drop_first(), at - 1, line);
        let wanted = record_of(
            chosen_from(items[at].entry)->0.path,
            item_hits(pattern, config, items[at])[line],
        );
        let k = choose|k: int| 0 <= k < rest.len() && rest[k] == wanted;
        assert((here + rest)[here.len() + k] == wanted);
    }
}

proof fn lemma_matches_from(
    pattern: Seq<char>,
    config: ConfigView,
    items: Seq<WalkItemView>,
    found: Multiset<RecordView>,
)
    ensures
        items.fold_left_alt(found, add_matches(pattern, config)) == found.add(
            walk_records(pattern, config, false, items).to_multiset(),
        ),
    decreases items.len(),
{
    let f = add_matches(pattern, config);
    if items.len() == 0 {
        assert(walk_records(pattern, config, false, items).to_multiset() =~= Multiset::empty()) by {
            broadcast use vstd::seq_lib::group_to_multiset_ensures;

        }
    } else {
        let batch = item_batch(pattern, config, items.first());
        let rest = items.subrange(1, items.len() as int);
        lemma_matches_from(pattern, config, rest, f(found, items[0]));
        lemma_multiset_commutative(batch, walk_records(pattern, config, false, rest));
    }
}

/// A search that runs to the end of the walk yields the records of all
/// items, each exactly as often as it occurs among them.
pub proof fn lemma_every_match_recorded_once(
    pattern: Seq<char>,
    config: ConfigView,
    items: Seq<WalkItemView>,
)
    ensures
        walk_records(pattern, config, false, items).to_multiset() == all_matches(
            pattern,
            config,
            items,
        ),
{
    let f = add_matches(pattern, config);
    items.lemma_fold_left_alt(Multiset::empty(), f);
    lemma_matches_from(pattern, config, items, Multiset::empty());
}

/// The order in which the walk turns up its items does not matter to a
/// search that runs to the end: two runs over the same items, in whatever
/// order, yield the same records, each equally often.
pub proof fn lemma_order_does_not_matter(
    pattern: Seq<char>,
    config: ConfigView,
    first: Seq<WalkItemView>,
    second: Seq<WalkItemView>,
)
    requires
        first.to_multiset() == second.to_multiset(),
    ensures
        walk_records(pattern, config, false, first).to_multiset() == walk_records(
            pattern,
            config,
            false,
            second,
        ).to_multiset(),
        walk_records(pattern, config, false, first).len() == walk_records(
            pattern,
            config,
            false,
            second,
        ).len(),
{
    let f = add_matches(pattern, config);
    assert(commutative_foldl(f)) by {
        assert forall|x: WalkItemView, y: WalkItemView, v: Multiset<RecordView>| #[trigger]
            f(f(v, x), y) == f(f(v, y), x) by {
        }
    }
    lemma_fold_left_permutation(first, second, f, Multiset::empty());
    lemma_every_match_recorded_once(pattern, config, first);
    lemma_every_match_recorded_once(pattern, config, second);
    walk_records(pattern, config, false, first).to_multiset_ensures();
    walk_records(pattern, config, false, second).to_multiset_ensures();
}

/// Whether the scan reports a matching line for some item.
pub open spec fn some_item_matches(pattern: Seq<char>, config: ConfigView, items: Seq<WalkItemView>) -> bool {
    exists|i: int| 0 <= i < items.len() && item_hits(pattern, config, #[trigger] items[i]).len() > 0
}

/// A search that stops after the first match yields that match's batch and
/// nothing after it: the batch of the first item that has a match at all.
pub proof fn lemma_stop_yields_first_match(
    pattern: Seq<char>,
    config: ConfigView,
    items: Seq<WalkItemView>,
    first: int,
)
    requires
        0 <= first < items.len(),
        item_hits(pattern, config, items[first]).len() > 0,
        forall|j: int| 0 <= j < first ==> item_hits(pattern, config, #[trigger] items[j]).len() == 0,
    ensures
        walk_records(pattern, config, true, items) == item_batch(pattern, config, items[first]),
    decreases first,
{
    if first > 0 {
        lemma_stop_yields_first_match(pattern, config, items.drop_first(), first - 1);
    }
}

/// The callback that finds the first match is told to stop: while the run
/// is walking and stops after the first match, the batch of an item for
/// which the scan reports any line gets `Stop`, if it can be delivered.
pub proof fn lemma_first_match_is_told_to_stop(
    pattern: Seq<char>,
    config: ConfigView,
    item: WalkItemView,
)
    requires
        item_hits(pattern, config, item).len() > 0,
    ensures
        signal_for(
            DispatchState::Walking,
            true,
            item_batch(pattern, config, item).len(),
            Delivery::Delivered,
        ) is Stop,
{
    lemma_batch_holds_every_reported_line(pattern, config, item);
}

/// Where any file has a match, a search that stops after the first match
/// ends with at least one record, and with no record that the search to the
/// end of the walk would not have begun with.
pub proof fn lemma_stop_finds_a_match(pattern: Seq<char>, config: ConfigView, items: Seq<WalkItemView>)
    requires
        some_item_matches(pattern, config, items),
    ensures
        walk_records(pattern, config, true, items).len() > 0,
        walk_records(pattern, config, true, items).is_prefix_of(
            walk_records(pattern, config, false, items),
        ),
    decreases items.len(),
{
    let i = choose|i: int|
        0 <= i < items.len() && item_hits(pattern, config, #[trigger] items[i]).len() > 0;
    if item_hits(pattern, config, items.first()).len() == 0 {
        let rest = items.drop_first();
        assert(rest[i - 1] == items[i]);
        lemma_stop_finds_a_match(pattern, config, rest);
    }
}

/// An item for which no line is reported, such as a file that could not be
/// read, changes nothing for the others: the search yields what it yields
/// without that item, whether it stops after the first match or not.
pub proof fn lemma_item_without_records_is_passed_over(
    pattern: Seq<char>,
    config: ConfigView,
    stop: bool,
    items: Seq<WalkItemView>,
    at: int,
)
    requires
        0 <= at < items.len(),
        item_hits(pattern, config, items[at]).len() == 0,
    ensures
        walk_records(pattern, config, stop, items) == walk_records(
            pattern,
            config,
            stop,
            items.remove(at),
        ),
    decreases at,
{
    if at > 0 {
        let rest = items.drop_first();
        lemma_item_without_records_is_passed_over(pattern, config, stop, rest, at - 1);
        assert(items.remove(at).drop_first() == rest.remove(at - 1));
    }
}

/// A file that could not be read does not end the search and takes nothing
/// from it: the files around it are searched and their records are all
/// there, in their order.
pub proof fn lemma_read_failure_is_passed_over(
    pattern: Seq<char>,
    config: ConfigView,
    stop: bool,
    items: Seq<WalkItemView>,
    at: int,
)
    requires
        0 <= at < items.len(),
        items[at].content is Err,
    ensures
        item_hits(pattern, config, items[at]).len() == 0,
        walk_records(pattern, config, stop, items) == walk_records(
            pattern,
            config,
            stop,
            items.remove(at),
        ),
{
    lemma_item_without_records_is_passed_over(pattern, config, stop, items, at);
}

/// A file that the caller named is scanned under the binary detection for
/// named files, and a file that the walk found below a directory under the
/// one for found files, whatever the other one is set to.
pub proof fn lemma_detection_goes_by_how_the_file_was_found(
    config: ConfigView,
    candidate: CandidateView,
)
    requires
        candidate.kind == EntryKind::File,
    ensures
        chosen(candidate) is Some,
        candidate.depth == 0 ==> detection_for(config, chosen(candidate)->0)
            == config.binary_explicit,
        candidate.depth > 0 ==> detection_for(config, chosen(candidate)->0)
            == config.binary_implicit,
{
}

/// A search in which no file has a match ends without records, whether it
/// stops after the first match or not.
pub proof fn lemma_no_match_no_records(
    pattern: Seq<char>,
    config: ConfigView,
    stop: bool,
    items: Seq<WalkItemView>,
)
    requires
        !some_item_matches(pattern, config, items),
    ensures
        walk_records(pattern, config, stop, items) == Seq::<RecordView>::empty(),
    decreases items.len(),
{
    if items.len() > 0 {
        lemma_no_match_no_records(pattern, config, stop, items.drop_first());
    }
}

/// One submission to the dispatcher: the batch of one file, and whether it
/// could be delivered.
pub struct Submission {
    pub batch: Seq<RecordView>,
    pub delivery: Delivery,
}

/// The records that a dispatcher holds after the given submissions, in
/// their order, if it held `results` before.
pub open spec fn merged_through(results: Seq<RecordView>, submissions: Seq<Submission>) -> Seq<
    RecordView,
>
    decreases submissions.len(),
{
    if submissions.len() == 0 {
        results
    } else {
        let before = merged_through(results, submissions.drop_last());
        let last = submissions.last();
        if last.batch.len() > 0 && last.delivery is Disconnected {
            before
        } else {
            before + last.batch
        }
    }
}

/// The batches of the given submissions, in their order.
pub open spec fn batches(submissions: Seq<Submission>) -> Seq<Seq<RecordView>> {
    submissions.map_values(|s: Submission| s.batch)
}

/// Whatever the threads and whatever the order in which their callbacks
/// come in: as long as the consumer is there, the dispatcher holds every
/// record of every batch exactly once, each batch in one piece, also those
/// that come in after the walk was told to stop.
pub proof fn lemma_every_delivered_batch_is_merged(
    results: Seq<RecordView>,
    submissions: Seq<Submission>,
)
    requires
        forall|i: int| 0 <= i < submissions.len() ==> (#[trigger] submissions[i]).delivery is Delivered,
    ensures
        merged_through(results, submissions) == results + batches(submissions).flatten(),
    decreases submissions.len(),
{
    if submissions.len() == 0 {
    } else {
        let earlier = submissions.drop_last();
        lemma_every_delivered_batch_is_merged(results, earlier);
        assert(batches(submissions) == batches(earlier).push(submissions.last().batch));
        batches(earlier).lemma_flatten_push(submissions.last().batch);
    }
}

/// The state of a run after the given submissions, in their order.
pub open spec fn state_through(state: DispatchState, stop: bool, submissions: Seq<Submission>) -> DispatchState
    decreases submissions.len(),
{
    if submissions.len() == 0 {
        state
    } else {
        let before = state_through(state, stop, submissions.drop_last());
        state_after(
            before,
            signal_for(before, stop, submissions.last().batch.len(), submissions.last().delivery),
        )
    }
}

/// The signal that the submission at `at` gets.
pub open spec fn signal_at(state: DispatchState, stop: bool, submissions: Seq<Submission>, at: int) -> WalkSignal {
    signal_for(
        state_through(state, stop, submissions.take(at)),
        stop,
        submissions[at].batch.len(),
        submissions[at].delivery,
    )
}

/// A run that is no longer walking never walks again.
pub proof fn lemma_walking_is_not_resumed(
    state: DispatchState,
    stop: bool,
    submissions: Seq<Submission>,
    upto: int,
    later: int,
)
    requires
        0 <= upto <= later <= submissions.len(),
        !(state_through(state, stop, submissions.take(upto)) is Walking),
    ensures
        !(state_through(state, stop, submissions.take(later)) is Walking),
    decreases later - upto,
{
    if upto < later {
        lemma_walking_is_not_resumed(state, stop, submissions, upto, later - 1);
        assert(submissions.take(later).drop_last() == submissions.take(later - 1));
    }
}

/// However many callbacks submit their batches, and in whatever order, the
/// walk is told to stop for the first match at most once.
pub proof fn lemma_stop_is_signalled_once(
    state: DispatchState,
    stop: bool,
    submissions: Seq<Submission>,
    earlier: int,
    later: int,
)
    requires
        0 <= earlier < later < submissions.len(),
        signal_at(state, stop, submissions, earlier) is Stop,
    ensures
        !(signal_at(state, stop, submissions, later) is Stop),
{
    assert(submissions.take(earlier + 1).drop_last() == submissions.take(earlier));
    lemma_walking_is_not_resumed(state, stop, submissions, earlier + 1, later);
}

} // verus!
