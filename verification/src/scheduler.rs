//! The poll step: what one tick does to the ledger and to the cursor.

use crate::clock::{elapsed_between, elapsed_seconds, Timestamp};
use crate::detector::{detect_change, transition_of, Transition, TransitionView};
use crate::ledger::{credited, has_room, UsageLedger, UsageRecordView};
use crate::window::{seen, WindowObservation, WindowObservationView};
use vstd::prelude::*;

verus! {

/// Which application is being tracked, and since when its time is owed.
#[derive(Clone, Debug, PartialEq, Eq)]
pub struct Cursor {
    /// The window that held focus at the last change, if any was seen yet.
    pub current: Option<WindowObservation>,
    /// Monotonic seconds of the last change or credit.
    pub since: u64,
}

/// A [`Cursor`] as a mathematical value.
pub struct CursorView {
    pub current: Option<WindowObservationView>,
    pub since: u64,
}

impl View for Cursor {
    type V = CursorView;

    open spec fn view(&self) -> CursorView {
        CursorView { current: seen(self.current), since: self.since }
    }
}

/// The identity that a cursor tracks.
pub open spec fn current_identity(cursor: CursorView) -> Option<u32> {
    match cursor.current {
        Some(window) => Some(window.app_identity),
        None => None,
    }
}

/// The ledger and the cursor of one tracker.
pub struct ScreenTimeState {
    pub ledger: UsageLedger,
    pub cursor: Cursor,
    /// Whether a clock that went backwards has been reported already.
    pub anomaly_reported: bool,
}

/// A [`ScreenTimeState`] as a mathematical value.
pub struct ScreenTimeStateView {
    pub ledger: Map<u32, UsageRecordView>,
    pub cursor: CursorView,
    pub anomaly_reported: bool,
}

impl View for ScreenTimeState {
    type V = ScreenTimeStateView;

    open spec fn view(&self) -> ScreenTimeStateView {
        ScreenTimeStateView {
            ledger: self.ledger@,
            cursor: self.cursor@,
            anomaly_reported: self.anomaly_reported,
        }
    }
}

/// What a tick found, for the host to say.
#[derive(Clone, Copy, Debug, PartialEq, Eq)]
pub enum TickEvent {
    /// The probe saw no window; nothing was done.
    ProbeUnavailable,
    /// The first window was seen and is tracked from now on.
    Started,
    /// The tracked application still holds focus.
    Continued,
    /// Focus went to another application, which is tracked from now on.
    Switched,
}

/// What a tick reports back.
#[derive(Clone, Copy, Debug, PartialEq, Eq)]
pub struct TickOutcome {
    pub event: TickEvent,
    /// Set at the first tick that finds the clock behind the cursor's mark,
    /// and at no later one.
    pub clock_anomaly: bool,
}

/// The state before the first tick: no records, nothing tracked.
pub open spec fn initial_state() -> ScreenTimeStateView {
    ScreenTimeStateView {
        ledger: Map::empty(),
        cursor: CursorView { current: None, since: 0 },
        anomaly_reported: false,
    }
}

/// Whether a tick at `now` finds the clock behind the mark of a cursor that
/// tracks an application.
pub open spec fn clock_receded(cursor: CursorView, now: Timestamp) -> bool {
    cursor.current is Some && now.monotonic_secs < cursor.since
}

/// What a tick that observed `observation` finds in `state`.
pub open spec fn event_of(
    state: ScreenTimeStateView,
    observation: Option<WindowObservationView>,
) -> TickEvent {
    match transition_of(current_identity(state.cursor), observation) {
        TransitionView::Unchanged => if observation is Some {
            TickEvent::Continued
        } else {
            TickEvent::ProbeUnavailable
        },
        TransitionView::Changed(_) => if state.cursor.current is Some {
            TickEvent::Switched
        } else {
            TickEvent::Started
        },
    }
}

/// What a tick at `now` that observed `observation` reports in `state`.
pub open spec fn outcome_of(
    state: ScreenTimeStateView,
    now: Timestamp,
    observation: Option<WindowObservationView>,
) -> TickOutcome {
    TickOutcome {
        event: event_of(state, observation),
        clock_anomaly: observation is Some && clock_receded(state.cursor, now)
            && !state.anomaly_reported,
    }
}

/// The seconds that a tick at `now` owes to the tracked application: the
/// time since the cursor's mark if an application is tracked, else nothing.
pub open spec fn owed_seconds(cursor: CursorView, now: Timestamp) -> nat {
    match cursor.current {
        Some(_) => elapsed_between(cursor.since, now.monotonic_secs),
        None => 0,
    }
}

/// The ledger after the tracked application, if any, was credited with the
/// time since the cursor's mark.
pub open spec fn settled(
    ledger: Map<u32, UsageRecordView>,
    cursor: CursorView,
    now: Timestamp,
) -> Map<u32, UsageRecordView> {
    match cursor.current {
        Some(window) => credited(
            ledger,
            window.app_identity,
            window.process_name,
            owed_seconds(cursor, now),
            now,
        ),
        None => ledger,
    }
}

/// The state after a tick at `now` that observed `observation`.
///
/// A tick without observation changes nothing. Otherwise the time since the
/// cursor's mark goes to the application tracked so far and the mark moves to
/// `now`; if another application was observed, it gets a record, with no
/// seconds added, and becomes the tracked one. A clock found behind the
/// mark counts as reported from then on.
pub open spec fn after_tick(
    state: ScreenTimeStateView,
    now: Timestamp,
    observation: Option<WindowObservationView>,
) -> ScreenTimeStateView {
    match observation {
        None => state,
        Some(_) => {
            let ledger = settled(state.ledger, state.cursor, now);
            match transition_of(current_identity(state.cursor), observation) {
                TransitionView::Unchanged => ScreenTimeStateView {
                    ledger,
                    cursor: CursorView { current: state.cursor.current, since: now.monotonic_secs },
                    anomaly_reported: state.anomaly_reported || clock_receded(state.cursor, now),
                },
                TransitionView::Changed(window) => ScreenTimeStateView {
                    ledger: credited(ledger, window.app_identity, window.process_name, 0, now),
                    cursor: CursorView { current: Some(window), since: now.monotonic_secs },
                    anomaly_reported: state.anomaly_reported || clock_receded(state.cursor, now),
                },
            }
        },
    }
}

/// Whether a tick at `now` keeps the seconds of the record it credits
/// within `u64`.
pub open spec fn tick_fits(
    state: ScreenTimeStateView,
    now: Timestamp,
    observation: Option<WindowObservationView>,
) -> bool {
    observation is Some ==> (state.cursor.current matches Some(window) ==> has_room(
        state.ledger,
        window.app_identity,
        owed_seconds(state.cursor, now),
    ))
}

impl ScreenTimeState {
    /// The state before the first tick.
    pub fn new() -> (state: ScreenTimeState)
        ensures
            state@ == initial_state(),
    {
        ScreenTimeState {
            ledger: UsageLedger::new(),
            cursor: Cursor { current: None, since: 0 },
            anomaly_reported: false,
        }
    }

    /// Whether [`update_screen_time`] may be called with these arguments.
    pub fn can_update(&self, now: Timestamp, observation: &Option<WindowObservation>) -> (fits:
        bool)
        ensures
            fits == tick_fits(self@, now, seen(*observation)),
    {
        if observation.is_none() {
            return true;
        }
        match &self.cursor.current {
            Some(window) => self.ledger.can_credit(
                window.app_identity,
                elapsed_seconds(self.cursor.since, now.monotonic_secs),
            ),
            None => true,
        }
    }
}

/// One tick of the poll loop at the time `now`, with what the probe saw.
/// Tells what it found, for the host to say. The seconds of the credited
/// record must stay within `u64`, which [`ScreenTimeState::can_update`]
/// tests.
pub fn update_screen_time(
    state: &mut ScreenTimeState,
    now: Timestamp,
    observation: Option<WindowObservation>,
) -> (outcome: TickOutcome)
    requires
        tick_fits(old(state)@, now, seen(observation)),
    ensures
        final(state)@ == after_tick(old(state)@, now, seen(observation)),
        outcome == outcome_of(old(state)@, now, seen(observation)),
{
    if observation.is_none() {
        return TickOutcome { event: TickEvent::ProbeUnavailable, clock_anomaly: false };
    }
    let elapsed: u64 = elapsed_seconds(state.cursor.since, now.monotonic_secs);
    let previous: Option<u32> = match &state.cursor.current {
        Some(window) => {
            state.ledger.credit(window.app_identity, window.process_name.as_str(), elapsed, now);
            Some(window.app_identity)
        },
        None => None,
    };
    let receded: bool = previous.is_some() && now.monotonic_secs < state.cursor.since;
    let clock_anomaly: bool = receded && !state.anomaly_reported;
    if receded {
        state.anomaly_reported = true;
    }
    state.cursor.since = now.monotonic_secs;
    match detect_change(previous, observation) {
        Transition::Unchanged => TickOutcome { event: TickEvent::Continued, clock_anomaly },
        Transition::Changed(window) => {
            proof {
                state.ledger.lemma_bounded();
            }
            state.ledger.credit(window.app_identity, window.process_name.as_str(), 0, now);
            state.cursor.current = Some(window);
            let event = if previous.is_some() {
                TickEvent::Switched
            } else {
                TickEvent::Started
            };
            TickOutcome { event, clock_anomaly }
        },
    }
}

} // verus!
