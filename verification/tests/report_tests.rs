use usage_tracker::clock::{CivilTime, Timestamp};
use usage_tracker::digest::{app_id, to_le_bytes};
use usage_tracker::ledger::{UsageLedger, UsageRecord};
use usage_tracker::report::{
    categorize_app, categorize_lowercase, format_time, get_app_times, get_app_usage, report_entry,
    AppTimeInfo, AppUsage,
};
use usage_tracker::scheduler::{update_screen_time, ScreenTimeState};
use usage_tracker::window::WindowObservation;

fn at(seconds: u64) -> Timestamp {
    Timestamp { monotonic_secs: seconds, local: CivilTime::new(2024, 11, 5, 14, 3, 9).unwrap() }
}

#[test]
fn format_time_writes_hours_and_minutes() {
    assert_eq!(format_time(3661), "01:01");
    assert_eq!(format_time(0), "00:00");
}

#[test]
fn format_time_drops_the_seconds() {
    assert_eq!(format_time(59), "00:00");
    assert_eq!(format_time(60), "00:01");
    assert_eq!(format_time(3599), "00:59");
    assert_eq!(format_time(3600), "01:00");
    assert_eq!(format_time(86399), "23:59");
    assert_eq!(format_time(45296), "12:34");
}

#[test]
fn format_time_does_not_wrap_at_a_day_or_at_a_hundred_hours() {
    assert_eq!(format_time(86400), "24:00");
    assert_eq!(format_time(359999), "99:59");
    assert_eq!(format_time(360000), "100:00");
    assert_eq!(format_time(u64::MAX), "5124095576030431:00");
}

#[test]
fn categorize_app_finds_keywords() {
    assert_eq!(categorize_app("Google Chrome"), "Browser");
    assert_eq!(categorize_app("Spotify"), "Music");
    assert_eq!(categorize_app("Unknown App"), "Other");
}

#[test]
fn categorize_app_knows_every_keyword() {
    assert_eq!(categorize_app("chrome"), "Browser");
    assert_eq!(categorize_app("Mozilla Firefox"), "Browser");
    assert_eq!(categorize_app("Safari"), "Browser");
    assert_eq!(categorize_app("Microsoft Teams"), "Productivity");
    assert_eq!(categorize_app("LibreOffice"), "Productivity");
    assert_eq!(categorize_app("spotify"), "Music");
    assert_eq!(categorize_app("Apple Music"), "Music");
    assert_eq!(categorize_app(""), "Other");
}

#[test]
fn categorize_app_ignores_letter_case() {
    assert_eq!(categorize_app("CHROME"), "Browser");
    assert_eq!(categorize_app("FireFox"), "Browser");
    assert_eq!(categorize_app("OFFICE"), "Productivity");
    assert_eq!(categorize_app("MUSIC"), "Music");
}

#[test]
fn categorize_app_takes_the_first_group_that_matches() {
    assert_eq!(categorize_app("Chrome Music Lab"), "Browser");
    assert_eq!(categorize_app("Microsoft Edge for Chrome"), "Browser");
    assert_eq!(categorize_app("Microsoft Music"), "Productivity");
    assert_eq!(categorize_app("Office Spotify"), "Productivity");
}

#[test]
fn categorize_lowercase_does_not_fold_the_case() {
    assert_eq!(categorize_lowercase("google chrome"), "Browser");
    assert_eq!(categorize_lowercase("Google Chrome"), "Other");
    assert_eq!(categorize_lowercase("spotify"), "Music");
    assert_eq!(categorize_lowercase("SPOTIFY"), "Other");
    assert_eq!(categorize_lowercase("xmicrosoftx"), "Productivity");
}

#[test]
fn le_bytes_start_with_the_lowest() {
    assert_eq!(to_le_bytes(0), [0, 0, 0, 0]);
    assert_eq!(to_le_bytes(1), [1, 0, 0, 0]);
    assert_eq!(to_le_bytes(0x12345678), [0x78, 0x56, 0x34, 0x12]);
    assert_eq!(to_le_bytes(u32::MAX), [255, 255, 255, 255]);
    assert_eq!(to_le_bytes(4242), 4242u32.to_le_bytes());
}

#[test]
fn app_id_is_the_digest_of_the_identity() {
    assert_eq!(app_id(0), "f1d3ff8443297732862df21dc4e57262");
    assert_eq!(app_id(1), "4352d88a78aa39750bf70cd6f27bcaa5");
    assert_eq!(app_id(1234), "099c28f29510c7938bc8c307d287557f");
    assert_eq!(app_id(4242), "9c182a060cf6fc5e6bd570a8a5bd8401");
    assert_eq!(app_id(u32::MAX), "a54f0041a9e15b050f25c463f1db7449");
}

#[test]
fn app_id_agrees_with_the_digest_crate() {
    for identity in [0u32, 7, 65536, 0xdeadbeef] {
        assert_eq!(app_id(identity), format!("{:x}", md5::compute(identity.to_le_bytes())));
    }
}

#[test]
fn report_entry_projects_a_record() {
    let record = UsageRecord {
        accumulated_seconds: 3661,
        last_observed_at: at(77),
        display_name: "Google Chrome".to_string(),
    };
    assert_eq!(
        report_entry(1, &record),
        AppUsage {
            id: "4352d88a78aa39750bf70cd6f27bcaa5".to_string(),
            name: "Google Chrome".to_string(),
            time: "01:01".to_string(),
            time_in_minutes: 61,
            change: 0,
            last_used: "2024-11-05 14:03:09".to_string(),
            category: "Browser".to_string(),
        }
    );
}

#[test]
fn report_entry_counts_whole_minutes() {
    let mut record = UsageRecord {
        accumulated_seconds: 59,
        last_observed_at: at(0),
        display_name: "Notes".to_string(),
    };
    assert_eq!(report_entry(5, &record).time_in_minutes, 0);
    record.accumulated_seconds = 60;
    assert_eq!(report_entry(5, &record).time_in_minutes, 1);
    record.accumulated_seconds = 119;
    assert_eq!(report_entry(5, &record).time_in_minutes, 1);
    record.accumulated_seconds = u64::MAX;
    assert_eq!(report_entry(5, &record).time_in_minutes, u64::MAX / 60);
    assert_eq!(report_entry(5, &record).category, "Other");
}

#[test]
fn report_is_empty_before_the_first_tick() {
    let state = ScreenTimeState::new();
    assert!(get_app_usage(&state.ledger).is_empty());
    assert!(get_app_usage(&state.ledger).is_empty());
    assert!(get_app_times(&state).is_empty());
    assert!(get_app_usage(&UsageLedger::new()).is_empty());
}

#[test]
fn report_stays_empty_while_the_probe_sees_nothing() {
    let mut state = ScreenTimeState::new();
    for second in 0..5u64 {
        update_screen_time(&mut state, at(second), None);
        assert!(get_app_usage(&state.ledger).is_empty());
    }
}

#[test]
fn report_holds_every_record_once() {
    let mut ledger = UsageLedger::new();
    ledger.credit(1, "Google Chrome", 3661, at(10));
    ledger.credit(2, "Spotify", 125, at(20));
    ledger.credit(3, "Unknown App", 0, at(30));
    let mut report = get_app_usage(&ledger);
    report.sort_by(|a, b| a.name.cmp(&b.name));
    assert_eq!(report.len(), 3);
    assert_eq!(report[0], report_entry(1, &ledger_record(&ledger, 1)));
    assert_eq!(report[1], report_entry(2, &ledger_record(&ledger, 2)));
    assert_eq!(report[2], report_entry(3, &ledger_record(&ledger, 3)));
    assert_eq!(report[0].category, "Browser");
    assert_eq!(report[1].category, "Music");
    assert_eq!(report[1].time, "00:02");
    assert_eq!(report[1].time_in_minutes, 2);
    assert_eq!(report[2].category, "Other");
    assert_eq!(report[2].time, "00:00");
}

fn ledger_record(ledger: &UsageLedger, identity: u32) -> UsageRecord {
    ledger.snapshot().into_iter().find(|entry| entry.0 == identity).unwrap().1
}

#[test]
fn report_does_not_change_the_ledger() {
    let mut ledger = UsageLedger::new();
    ledger.credit(1, "Editor", 10, at(10));
    let before = ledger.snapshot();
    let first = get_app_usage(&ledger);
    let second = get_app_usage(&ledger);
    assert_eq!(first, second);
    assert_eq!(ledger.snapshot(), before);
}

#[test]
fn app_times_hold_name_and_seconds() {
    let mut state = ScreenTimeState::new();
    let editor = WindowObservation {
        app_identity: 4,
        title: "main.rs".to_string(),
        process_name: "Editor".to_string(),
    };
    let shell = WindowObservation {
        app_identity: 6,
        title: "~".to_string(),
        process_name: "Shell".to_string(),
    };
    update_screen_time(&mut state, at(100), Some(editor));
    update_screen_time(&mut state, at(130), Some(shell.clone()));
    update_screen_time(&mut state, at(135), Some(shell));
    let mut times = get_app_times(&state);
    times.sort_by(|a, b| a.title.cmp(&b.title));
    assert_eq!(
        times,
        vec![
            AppTimeInfo { title: "Editor".to_string(), time: 30 },
            AppTimeInfo { title: "Shell".to_string(), time: 5 },
        ]
    );
}
