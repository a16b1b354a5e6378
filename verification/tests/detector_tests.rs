use usage_tracker::detector::{detect_change, Transition};
use usage_tracker::window::WindowObservation;

fn window(identity: u32, title: &str, process_name: &str) -> WindowObservation {
    WindowObservation {
        app_identity: identity,
        title: title.to_string(),
        process_name: process_name.to_string(),
    }
}

#[test]
fn first_observation_is_a_change() {
    let seen = window(7, "Inbox", "Mail");
    assert_eq!(detect_change(None, Some(seen.clone())), Transition::Changed(seen));
}

#[test]
fn first_observation_is_a_change_for_any_identity() {
    for identity in [0u32, 1, 77, u32::MAX] {
        let seen = window(identity, "", "");
        assert_eq!(detect_change(None, Some(seen.clone())), Transition::Changed(seen));
    }
}

#[test]
fn same_identity_is_no_change() {
    assert_eq!(detect_change(Some(7), Some(window(7, "Inbox", "Mail"))), Transition::Unchanged);
}

#[test]
fn same_identity_with_another_title_is_no_change() {
    assert_eq!(detect_change(Some(7), Some(window(7, "Drafts", "Mail"))), Transition::Unchanged);
}

#[test]
fn other_identity_is_a_change() {
    let seen = window(8, "Inbox", "Mail");
    assert_eq!(detect_change(Some(7), Some(seen.clone())), Transition::Changed(seen));
}

#[test]
fn no_observation_is_no_change() {
    assert_eq!(detect_change(Some(7), None), Transition::Unchanged);
    assert_eq!(detect_change(None, None), Transition::Unchanged);
}
