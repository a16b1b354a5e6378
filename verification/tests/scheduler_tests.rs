use usage_tracker::clock::{CivilTime, Timestamp};
use usage_tracker::scheduler::{update_screen_time, ScreenTimeState, TickEvent, TickOutcome};
use usage_tracker::window::WindowObservation;

fn at(seconds: u64) -> Timestamp {
    let minute = (seconds / 60 % 60) as u32;
    let second = (seconds % 60) as u32;
    Timestamp { monotonic_secs: seconds, local: CivilTime::new(2024, 3, 1, 8, minute, second).unwrap() }
}

fn window(identity: u32, name: &str) -> WindowObservation {
    WindowObservation {
        app_identity: identity,
        title: format!("{} - window", name),
        process_name: name.to_string(),
    }
}

fn seconds_of(state: &ScreenTimeState, identity: u32) -> Option<u64> {
    state
        .ledger
        .snapshot()
        .into_iter()
        .find(|entry| entry.0 == identity)
        .map(|entry| entry.1.accumulated_seconds)
}

fn total_of(state: &ScreenTimeState) -> u64 {
    state.ledger.snapshot().iter().map(|entry| entry.1.accumulated_seconds).sum()
}

fn tick(state: &mut ScreenTimeState, seconds: u64, seen: Option<WindowObservation>) -> TickOutcome {
    assert!(state.can_update(at(seconds), &seen));
    update_screen_time(state, at(seconds), seen)
}

#[test]
fn new_state_tracks_nothing() {
    let state = ScreenTimeState::new();
    assert!(state.ledger.snapshot().is_empty());
    assert_eq!(state.cursor.current, None);
    assert_eq!(state.cursor.since, 0);
    assert!(!state.anomaly_reported);
}

#[test]
fn five_ticks_of_one_application_then_another() {
    let mut state = ScreenTimeState::new();
    for second in 1..=5u64 {
        tick(&mut state, second, Some(window(1, "A")));
    }
    tick(&mut state, 6, Some(window(2, "B")));
    assert_eq!(seconds_of(&state, 1), Some(5));
    assert_eq!(seconds_of(&state, 2), Some(0));
    assert_eq!(state.cursor.current, Some(window(2, "B")));
    assert_eq!(state.cursor.since, 6);
}

#[test]
fn the_new_application_is_credited_at_its_own_next_tick() {
    let mut state = ScreenTimeState::new();
    for second in 1..=5u64 {
        tick(&mut state, second, Some(window(1, "A")));
    }
    tick(&mut state, 6, Some(window(2, "B")));
    tick(&mut state, 7, Some(window(2, "B")));
    assert_eq!(seconds_of(&state, 1), Some(5));
    assert_eq!(seconds_of(&state, 2), Some(1));
    tick(&mut state, 10, Some(window(1, "A")));
    assert_eq!(seconds_of(&state, 1), Some(5));
    assert_eq!(seconds_of(&state, 2), Some(4));
}

#[test]
fn first_observation_creates_a_record_without_seconds() {
    let mut state = ScreenTimeState::new();
    let outcome = tick(&mut state, 1000, Some(window(9, "Editor")));
    assert_eq!(outcome, TickOutcome { event: TickEvent::Started, clock_anomaly: false });
    assert_eq!(seconds_of(&state, 9), Some(0));
    assert_eq!(state.cursor.since, 1000);
    let entries = state.ledger.snapshot();
    assert_eq!(entries.len(), 1);
    assert_eq!(entries[0].1.display_name, "Editor");
    assert_eq!(entries[0].1.last_observed_at, at(1000));
}

#[test]
fn a_tick_without_observation_changes_nothing() {
    let mut state = ScreenTimeState::new();
    let outcome = tick(&mut state, 5, None);
    assert_eq!(outcome, TickOutcome { event: TickEvent::ProbeUnavailable, clock_anomaly: false });
    assert!(state.ledger.snapshot().is_empty());
    assert_eq!(state.cursor.since, 0);

    tick(&mut state, 10, Some(window(1, "A")));
    tick(&mut state, 12, Some(window(1, "A")));
    let outcome = tick(&mut state, 20, None);
    assert_eq!(outcome.event, TickEvent::ProbeUnavailable);
    assert_eq!(seconds_of(&state, 1), Some(2));
    assert_eq!(state.cursor.since, 12);
    assert_eq!(state.cursor.current, Some(window(1, "A")));
}

#[test]
fn the_gap_of_a_failed_probe_goes_to_the_tracked_application() {
    let mut state = ScreenTimeState::new();
    tick(&mut state, 10, Some(window(1, "A")));
    tick(&mut state, 11, None);
    tick(&mut state, 12, None);
    tick(&mut state, 13, Some(window(1, "A")));
    assert_eq!(seconds_of(&state, 1), Some(3));
    tick(&mut state, 14, None);
    tick(&mut state, 15, Some(window(2, "B")));
    assert_eq!(seconds_of(&state, 1), Some(5));
    assert_eq!(seconds_of(&state, 2), Some(0));
}

#[test]
fn every_tick_tells_what_it_found() {
    let mut state = ScreenTimeState::new();
    assert_eq!(tick(&mut state, 1, None).event, TickEvent::ProbeUnavailable);
    assert_eq!(tick(&mut state, 2, Some(window(1, "A"))).event, TickEvent::Started);
    assert_eq!(tick(&mut state, 3, Some(window(1, "A"))).event, TickEvent::Continued);
    assert_eq!(tick(&mut state, 4, Some(window(2, "B"))).event, TickEvent::Switched);
    assert_eq!(tick(&mut state, 5, None).event, TickEvent::ProbeUnavailable);
    assert_eq!(tick(&mut state, 6, Some(window(2, "B"))).event, TickEvent::Continued);
    assert_eq!(tick(&mut state, 7, Some(window(1, "A"))).event, TickEvent::Switched);
}

#[test]
fn a_clock_that_goes_back_credits_nothing() {
    let mut state = ScreenTimeState::new();
    tick(&mut state, 100, Some(window(1, "A")));
    tick(&mut state, 110, Some(window(1, "A")));
    let outcome = tick(&mut state, 50, Some(window(1, "A")));
    assert_eq!(outcome, TickOutcome { event: TickEvent::Continued, clock_anomaly: true });
    assert_eq!(seconds_of(&state, 1), Some(10));
    assert_eq!(state.cursor.since, 50);
    tick(&mut state, 53, Some(window(1, "A")));
    assert_eq!(seconds_of(&state, 1), Some(13));
}

#[test]
fn a_clock_that_goes_back_is_reported_once() {
    let mut state = ScreenTimeState::new();
    tick(&mut state, 100, Some(window(1, "A")));
    assert!(!state.anomaly_reported);
    assert!(tick(&mut state, 90, Some(window(1, "A"))).clock_anomaly);
    assert!(state.anomaly_reported);
    assert!(!tick(&mut state, 80, Some(window(2, "B"))).clock_anomaly);
    assert!(!tick(&mut state, 85, Some(window(2, "B"))).clock_anomaly);
    assert!(!tick(&mut state, 70, Some(window(2, "B"))).clock_anomaly);
    assert_eq!(seconds_of(&state, 1), Some(0));
    assert_eq!(seconds_of(&state, 2), Some(5));
}

#[test]
fn a_clock_behind_the_start_is_no_anomaly_while_nothing_is_tracked() {
    let mut state = ScreenTimeState::new();
    state.cursor.since = 500;
    let outcome = tick(&mut state, 100, Some(window(1, "A")));
    assert_eq!(outcome, TickOutcome { event: TickEvent::Started, clock_anomaly: false });
    assert_eq!(state.cursor.since, 100);
}

#[test]
fn a_failed_probe_does_not_report_the_clock() {
    let mut state = ScreenTimeState::new();
    tick(&mut state, 100, Some(window(1, "A")));
    let outcome = tick(&mut state, 50, None);
    assert_eq!(outcome, TickOutcome { event: TickEvent::ProbeUnavailable, clock_anomaly: false });
    assert!(!state.anomaly_reported);
    assert_eq!(state.cursor.since, 100);
}

#[test]
fn a_record_keeps_the_name_it_was_first_seen_under() {
    let mut state = ScreenTimeState::new();
    tick(&mut state, 1, Some(window(1, "First")));
    tick(&mut state, 2, Some(window(2, "Other")));
    tick(&mut state, 3, Some(window(1, "Second")));
    tick(&mut state, 4, Some(window(1, "Third")));
    let entries = state.ledger.snapshot();
    let one = entries.iter().find(|entry| entry.0 == 1).unwrap();
    assert_eq!(one.1.display_name, "First");
    assert_eq!(one.1.accumulated_seconds, 2);
}

#[test]
fn returning_to_an_application_touches_its_record() {
    let mut state = ScreenTimeState::new();
    tick(&mut state, 1, Some(window(1, "A")));
    tick(&mut state, 5, Some(window(2, "B")));
    tick(&mut state, 9, Some(window(1, "A")));
    let entries = state.ledger.snapshot();
    let one = entries.iter().find(|entry| entry.0 == 1).unwrap();
    assert_eq!(one.1.accumulated_seconds, 4);
    assert_eq!(one.1.last_observed_at, at(9));
    let two = entries.iter().find(|entry| entry.0 == 2).unwrap();
    assert_eq!(two.1.accumulated_seconds, 4);
    assert_eq!(two.1.last_observed_at, at(9));
}

#[test]
fn the_total_is_the_sum_of_what_the_ticks_credited() {
    let polls: Vec<(u64, Option<u32>)> = vec![
        (3, None),
        (5, Some(1)),
        (6, Some(1)),
        (9, None),
        (14, Some(2)),
        (14, Some(2)),
        (10, Some(3)),
        (25, Some(1)),
        (26, None),
        (40, Some(1)),
        (41, Some(4)),
    ];
    let mut state = ScreenTimeState::new();
    let mut credited: u64 = 0;
    for (seconds, identity) in polls {
        if identity.is_some() && state.cursor.current.is_some() {
            credited += seconds.saturating_sub(state.cursor.since);
        }
        tick(&mut state, seconds, identity.map(|identity| window(identity, "App")));
        assert_eq!(total_of(&state), credited);
    }
    assert_eq!(total_of(&state), 9 + 15 + 15 + 1);
}

#[test]
fn with_a_steady_clock_the_total_is_the_time_since_the_first_observation() {
    let mut state = ScreenTimeState::new();
    let mut second: u64 = 100;
    tick(&mut state, second, Some(window(0, "App")));
    for step in 1..200u64 {
        second += step % 4;
        let seen = if step % 7 == 0 { None } else { Some(window((step % 5) as u32, "App")) };
        tick(&mut state, second, seen);
        assert_eq!(total_of(&state), state.cursor.since - 100);
    }
}

#[test]
fn no_record_ever_loses_seconds() {
    let mut state = ScreenTimeState::new();
    let mut before: Vec<(u32, u64)> = Vec::new();
    for step in 0..100u64 {
        let now = if step % 9 == 8 { step * 2 } else { step * 3 };
        tick(&mut state, now, Some(window((step % 3) as u32, "App")));
        let entries = state.ledger.snapshot();
        for (identity, seconds) in &before {
            let entry = entries.iter().find(|entry| entry.0 == *identity).unwrap();
            assert!(entry.1.accumulated_seconds >= *seconds);
        }
        before = entries.iter().map(|entry| (entry.0, entry.1.accumulated_seconds)).collect();
    }
}

#[test]
fn can_update_tells_when_a_total_would_not_fit() {
    let mut state = ScreenTimeState::new();
    tick(&mut state, 0, Some(window(1, "A")));
    tick(&mut state, u64::MAX - 5, Some(window(1, "A")));
    assert_eq!(seconds_of(&state, 1), Some(u64::MAX - 5));
    tick(&mut state, 0, Some(window(1, "A")));
    assert!(state.can_update(at(5), &Some(window(1, "A"))));
    assert!(!state.can_update(at(6), &Some(window(1, "A"))));
    assert!(!state.can_update(at(6), &Some(window(2, "B"))));
    assert!(state.can_update(at(6), &None));
    tick(&mut state, 5, Some(window(2, "B")));
    assert_eq!(seconds_of(&state, 1), Some(u64::MAX));
    assert!(state.can_update(at(u64::MAX), &Some(window(1, "A"))));
}
