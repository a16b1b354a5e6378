//! What the ticks add up to: every second that a tick owes is credited to
//! exactly one record, and nothing else changes a total.

use crate::clock::Timestamp;
use crate::detector::{transition_of, TransitionView};
use crate::ledger::{
    credited, identities, is_snapshot_of, seconds_of, total_below, total_seconds, UsageRecordView,
};
use crate::scheduler::{
    after_tick, current_identity, initial_state, owed_seconds, settled, ScreenTimeStateView,
};
use crate::window::WindowObservationView;
use vstd::prelude::*;

verus! {

/// One tick as the tracker sees it: the clocks and what the probe returned.
pub struct Poll {
    pub now: Timestamp,
    pub observation: Option<WindowObservationView>,
}

/// The seconds that the tick `poll` credits in the state `state`: what is
/// owed to the tracked application if the probe saw a window, else nothing.
pub open spec fn credited_by(state: ScreenTimeStateView, poll: Poll) -> nat {
    if poll.observation is Some {
        owed_seconds(state.cursor, poll.now)
    } else {
        0
    }
}

/// The state after the ticks `polls`, applied in order.
pub open spec fn after_polls(state: ScreenTimeStateView, polls: Seq<Poll>) -> ScreenTimeStateView
    decreases polls.len(),
{
    if polls.len() == 0 {
        state
    } else {
        let before = after_polls(state, polls.drop_last());
        after_tick(before, polls.last().now, polls.last().observation)
    }
}

/// The seconds that the ticks `polls` credit one after the other, starting
/// in the state `state`.
pub open spec fn credited_over(state: ScreenTimeStateView, polls: Seq<Poll>) -> nat
    decreases polls.len(),
{
    if polls.len() == 0 {
        0
    } else {
        credited_over(state, polls.drop_last()) + credited_by(
            after_polls(state, polls.drop_last()),
            polls.last(),
        )
    }
}

/// Whether the monotonic clock never goes back: not behind `since` at the
/// first tick, and not behind the tick before at any later one.
pub open spec fn clock_never_recedes(since: u64, polls: Seq<Poll>) -> bool {
    &&& forall|i: int| 0 <= i < polls.len() ==> since <= (#[trigger] polls[i]).now.monotonic_secs
    &&& forall|i: int, j: int|
        0 <= i <= j < polls.len() ==> (#[trigger] polls[i]).now.monotonic_secs <= (
        #[trigger] polls[j]).now.monotonic_secs
}

proof fn lemma_credit_adds_below(
    ledger: Map<u32, UsageRecordView>,
    identity: u32,
    display_name: Seq<char>,
    seconds: nat,
    at: Timestamp,
    bound: nat,
)
    requires
        bound <= 0x1_0000_0000,
    ensures
        total_below(credited(ledger, identity, display_name, seconds, at), bound) == total_below(
            ledger,
            bound,
        ) + if identity < bound {
            seconds
        } else {
            0
        },
    decreases bound,
{
    if bound > 0 {
        lemma_credit_adds_below(ledger, identity, display_name, seconds, at, (bound - 1) as nat);
    }
}

/// Crediting adds its seconds to the total of the ledger, and to the record
/// of the credited identity alone.
pub proof fn lemma_credit_adds(
    ledger: Map<u32, UsageRecordView>,
    identity: u32,
    display_name: Seq<char>,
    seconds: nat,
    at: Timestamp,
)
    ensures
        total_seconds(credited(ledger, identity, display_name, seconds, at)) == total_seconds(
            ledger,
        ) + seconds,
        seconds_of(credited(ledger, identity, display_name, seconds, at), identity) == seconds_of(
            ledger,
            identity,
        ) + seconds,
        forall|other: u32|
            other != identity ==> #[trigger] seconds_of(
                credited(ledger, identity, display_name, seconds, at),
                other,
            ) == seconds_of(ledger, other),
{
    lemma_credit_adds_below(ledger, identity, display_name, seconds, at, 0x1_0000_0000);
}

/// A listing taken before a credit or after it shows the credited record
/// whole: as it was before, or as it is after, never seconds of the one
/// with the time stamp of the other.
pub proof fn lemma_listing_shows_whole_record(
    ledger: Map<u32, UsageRecordView>,
    identity: u32,
    display_name: Seq<char>,
    seconds: nat,
    at: Timestamp,
    entries: Seq<(u32, UsageRecordView)>,
    i: int,
)
    requires
        is_snapshot_of(entries, ledger) || is_snapshot_of(
            entries,
            credited(ledger, identity, display_name, seconds, at),
        ),
        0 <= i < entries.len(),
        entries[i].0 == identity,
    ensures
        (ledger.contains_key(identity) && entries[i].1 == ledger[identity]) || entries[i].1
            == credited(ledger, identity, display_name, seconds, at)[identity],
{
    if is_snapshot_of(entries, ledger) {
        let ids = identities(entries);
        assert(ids[i] == identity);
        assert(ids.to_set().contains(identity));
    }
}

/// A tick raises the total of the ledger by exactly the seconds it credits.
pub proof fn lemma_tick_adds(state: ScreenTimeStateView, poll: Poll)
    ensures
        total_seconds(after_tick(state, poll.now, poll.observation).ledger) == total_seconds(
            state.ledger,
        ) + credited_by(state, poll),
{
    if poll.observation is Some {
        let ledger = settled(state.ledger, state.cursor, poll.now);
        match state.cursor.current {
            Some(window) => {
                lemma_credit_adds(
                    state.ledger,
                    window.app_identity,
                    window.process_name,
                    owed_seconds(state.cursor, poll.now),
                    poll.now,
                );
            },
            None => {},
        }
        match transition_of(current_identity(state.cursor), poll.observation) {
            TransitionView::Unchanged => {},
            TransitionView::Changed(window) => {
                lemma_credit_adds(ledger, window.app_identity, window.process_name, 0, poll.now);
            },
        }
    }
}

/// A tick credits the application tracked before it and no other: that
/// record grows by the seconds the tick credits, and every other record
/// keeps its seconds. No record ever loses seconds or leaves the ledger.
pub proof fn lemma_tick_credits_tracked_only(state: ScreenTimeStateView, poll: Poll)
    ensures
        forall|identity: u32|
            current_identity(state.cursor) == Some(identity) ==> #[trigger] seconds_of(
                after_tick(state, poll.now, poll.observation).ledger,
                identity,
            ) == seconds_of(state.ledger, identity) + credited_by(state, poll),
        forall|identity: u32|
            current_identity(state.cursor) != Some(identity) ==> #[trigger] seconds_of(
                after_tick(state, poll.now, poll.observation).ledger,
                identity,
            ) == seconds_of(state.ledger, identity),
        forall|identity: u32| #[trigger]
            state.ledger.contains_key(identity) ==> after_tick(
                state,
                poll.now,
                poll.observation,
            ).ledger.contains_key(identity),
{
}

/// Over any sequence of ticks no record leaves the ledger and none loses
/// seconds.
pub proof fn lemma_polls_never_lower(state: ScreenTimeStateView, polls: Seq<Poll>, identity: u32)
    ensures
        state.ledger.contains_key(identity) ==> after_polls(state, polls).ledger.contains_key(
            identity,
        ),
        seconds_of(state.ledger, identity) <= seconds_of(after_polls(state, polls).ledger, identity),
    decreases polls.len(),
{
    if polls.len() > 0 {
        lemma_polls_never_lower(state, polls.drop_last(), identity);
        lemma_tick_credits_tracked_only(after_polls(state, polls.drop_last()), polls.last());
    }
}

/// Over any sequence of ticks, whatever the probe saw and whatever the
/// clock read, the total of the ledger grows by exactly the sum of the
/// seconds that the single ticks credit.
pub proof fn lemma_total_is_sum_of_credits(state: ScreenTimeStateView, polls: Seq<Poll>)
    ensures
        total_seconds(after_polls(state, polls).ledger) == total_seconds(state.ledger)
            + credited_over(state, polls),
    decreases polls.len(),
{
    if polls.len() > 0 {
        lemma_total_is_sum_of_credits(state, polls.drop_last());
        lemma_tick_adds(after_polls(state, polls.drop_last()), polls.last());
    }
}

/// Started with an empty ledger, the seconds of all records together are
/// the sum of the seconds that the ticks credited.
pub proof fn lemma_total_from_start(polls: Seq<Poll>)
    ensures
        total_seconds(after_polls(initial_state(), polls).ledger) == credited_over(
            initial_state(),
            polls,
        ),
{
    lemma_total_is_sum_of_credits(initial_state(), polls);
    lemma_empty_total(0x1_0000_0000);
}

proof fn lemma_empty_total(bound: nat)
    ensures
        total_below(Map::<u32, UsageRecordView>::empty(), bound) == 0,
    decreases bound,
{
    if bound > 0 {
        lemma_empty_total((bound - 1) as nat);
    }
}

/// While an application is tracked and the clock never goes back, the
/// total of the ledger grows by exactly the time by which the cursor's mark
/// moves: every second between two marks is credited once, none twice.
pub proof fn lemma_total_follows_mark(state: ScreenTimeStateView, polls: Seq<Poll>)
    requires
        state.cursor.current is Some,
        clock_never_recedes(state.cursor.since, polls),
    ensures
        after_polls(state, polls).cursor.current is Some,
        state.cursor.since <= after_polls(state, polls).cursor.since,
        polls.len() > 0 ==> after_polls(state, polls).cursor.since <= polls.last().now.monotonic_secs,
        polls.len() > 0 && polls.last().observation is Some ==> after_polls(
            state,
            polls,
        ).cursor.since == polls.last().now.monotonic_secs,
        total_seconds(after_polls(state, polls).ledger) == total_seconds(state.ledger) + (
        after_polls(state, polls).cursor.since - state.cursor.since),
    decreases polls.len(),
{
    if polls.len() > 0 {
        let earlier = polls.drop_last();
        assert(clock_never_recedes(state.cursor.since, earlier)) by {
            assert forall|i: int| 0 <= i < earlier.len() implies state.cursor.since <= (
            #[trigger] earlier[i]).now.monotonic_secs by {
                assert(earlier[i] == polls[i]);
            }
            assert forall|i: int, j: int| 0 <= i <= j < earlier.len() implies (
            #[trigger] earlier[i]).now.monotonic_secs <= (#[trigger] earlier[j]).now.monotonic_secs by {
                assert(earlier[i] == polls[i]);
                assert(earlier[j] == polls[j]);
            }
        }
        lemma_total_follows_mark(state, earlier);
        let before = after_polls(state, earlier);
        lemma_tick_adds(before, polls.last());
        if earlier.len() > 0 {
            assert(earlier.last() == polls[polls.len() - 2]);
            assert(polls.last() == polls[polls.len() - 1]);
        } else {
            assert(polls.last() == polls[0]);
        }
    }
}

/// Ticks applied in two runs give what they give in one.
pub proof fn lemma_polls_split(state: ScreenTimeStateView, first: Seq<Poll>, then: Seq<Poll>)
    ensures
        after_polls(state, first + then) == after_polls(after_polls(state, first), then),
    decreases then.len(),
{
    if then.len() == 0 {
        assert(first + then =~= first);
    } else {
        assert((first + then).drop_last() =~= first + then.drop_last());
        assert((first + then).last() == then.last());
        lemma_polls_split(state, first, then.drop_last());
    }
}

/// Ticks at which the probe sees nothing leave the state as it is.
pub proof fn lemma_blind_polls_change_nothing(state: ScreenTimeStateView, polls: Seq<Poll>)
    requires
        forall|i: int| 0 <= i < polls.len() ==> (#[trigger] polls[i]).observation is None,
    ensures
        after_polls(state, polls) == state,
    decreases polls.len(),
{
    if polls.len() > 0 {
        let earlier = polls.drop_last();
        assert forall|i: int| 0 <= i < earlier.len() implies (
        #[trigger] earlier[i]).observation is None by {
            assert(earlier[i] == polls[i]);
        }
        lemma_blind_polls_change_nothing(state, earlier);
        assert(polls.last() == polls[polls.len() - 1]);
    }
}

/// From the start on, with a clock that never goes back, the seconds of
/// all records together are the time from the first tick that saw a window
/// to the cursor's mark: every second in between is credited once. Here
/// `first` is the position of the first tick that saw a window.
pub proof fn lemma_total_since_first_sighting(polls: Seq<Poll>, first: int)
    requires
        0 <= first < polls.len(),
        polls[first].observation is Some,
        forall|i: int| 0 <= i < first ==> (#[trigger] polls[i]).observation is None,
        clock_never_recedes(polls[first].now.monotonic_secs, polls.skip(first + 1)),
    ensures
        polls[first].now.monotonic_secs <= after_polls(initial_state(), polls).cursor.since,
        total_seconds(after_polls(initial_state(), polls).ledger) == after_polls(
            initial_state(),
            polls,
        ).cursor.since - polls[first].now.monotonic_secs,
{
    let blind = polls.take(first);
    let sighting = seq![polls[first]];
    let rest = polls.skip(first + 1);
    assert(polls =~= blind + sighting + rest);
    lemma_polls_split(initial_state(), blind + sighting, rest);
    lemma_polls_split(initial_state(), blind, sighting);
    lemma_blind_polls_change_nothing(initial_state(), blind);
    assert(sighting.drop_last() =~= Seq::<Poll>::empty());
    assert(sighting.last() == polls[first]);
    let started = after_polls(initial_state(), sighting);
    assert(after_polls(initial_state(), sighting.drop_last()) == initial_state());
    assert(started == after_tick(initial_state(), polls[first].now, polls[first].observation));
    lemma_first_observation(polls[first]);
    lemma_tick_adds(initial_state(), polls[first]);
    lemma_empty_total(0x1_0000_0000);
    lemma_total_follows_mark(started, rest);
}

/// The first window ever observed becomes the tracked one with a record of
/// zero seconds, and the mark is set to the time of that tick.
pub proof fn lemma_first_observation(poll: Poll)
    requires
        poll.observation is Some,
    ensures
        ({
            let window = poll.observation->0;
            let after = after_tick(initial_state(), poll.now, poll.observation);
            &&& after.cursor.current == Some(window)
            &&& after.cursor.since == poll.now.monotonic_secs
            &&& after.ledger.dom() =~= set![window.app_identity]
            &&& after.ledger[window.app_identity].accumulated_seconds == 0
            &&& after.ledger[window.app_identity].display_name == window.process_name
        }),
{
}

} // verus!
