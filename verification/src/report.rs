//! The report: each record of the ledger as it is shown to the outside.

use crate::digest::{app_id, app_id_text};
use crate::ledger::{
    identities, is_snapshot_of, listing_view, UsageLedger, UsageRecord, UsageRecordView,
};
use crate::scheduler::{initial_state, ScreenTimeState};
use crate::text::{
    contains, lowercase_of, occurs_in, to_lowercase, zero_padded, zero_padded_string,
};
use vstd::prelude::*;
use vstd::string::StringExecFns;

verus! {

/// One application in the report.
#[derive(Clone, Debug, PartialEq, Eq)]
pub struct AppUsage {
    /// Identifier derived from the application's identity.
    pub id: String,
    /// Display name of the application.
    pub name: String,
    /// Focus time as `HH:MM`.
    pub time: String,
    /// Focus time in whole minutes.
    pub time_in_minutes: u64,
    /// Change against an earlier period; always zero.
    pub change: i64,
    /// When the application was last credited, as `YYYY-MM-DD HH:MM:SS`.
    pub last_used: String,
    /// Category derived from the display name.
    pub category: String,
}

/// An [`AppUsage`] as a mathematical value.
pub struct AppUsageView {
    pub id: Seq<char>,
    pub name: Seq<char>,
    pub time: Seq<char>,
    pub time_in_minutes: nat,
    pub change: int,
    pub last_used: Seq<char>,
    pub category: Seq<char>,
}

impl View for AppUsage {
    type V = AppUsageView;

    open spec fn view(&self) -> AppUsageView {
        AppUsageView {
            id: self.id@,
            name: self.name@,
            time: self.time@,
            time_in_minutes: self.time_in_minutes as nat,
            change: self.change as int,
            last_used: self.last_used@,
            category: self.category@,
        }
    }
}

/// Name and accumulated seconds of one application.
#[derive(Clone, Debug, PartialEq, Eq)]
pub struct AppTimeInfo {
    pub title: String,
    pub time: u64,
}

/// An [`AppTimeInfo`] as a mathematical value.
pub struct AppTimeInfoView {
    pub title: Seq<char>,
    pub time: nat,
}

impl View for AppTimeInfo {
    type V = AppTimeInfoView;

    open spec fn view(&self) -> AppTimeInfoView {
        AppTimeInfoView { title: self.title@, time: self.time as nat }
    }
}

/// A number of seconds as hours and minutes, `HH:MM`: the whole hours and
/// the whole minutes of the last started hour, each with two digits at
/// least.
pub open spec fn time_text(seconds: nat) -> Seq<char> {
    zero_padded(seconds / 3600, 2) + seq![':'] + zero_padded(seconds % 3600 / 60, 2)
}

/// The category of a name that is already in lower case. The first group
/// with a keyword that occurs in the name wins: browsers, then productivity,
/// then music.
pub open spec fn category_of_lowercase(lower: Seq<char>) -> Seq<char> {
    if occurs_in("chrome"@, lower) || occurs_in("firefox"@, lower) || occurs_in("safari"@, lower) {
        "Browser"@
    } else if occurs_in("microsoft"@, lower) || occurs_in("office"@, lower) {
        "Productivity"@
    } else if occurs_in("spotify"@, lower) || occurs_in("music"@, lower) {
        "Music"@
    } else {
        "Other"@
    }
}

/// The category of an application name, whatever its letter case.
pub open spec fn category_of(name: Seq<char>) -> Seq<char> {
    category_of_lowercase(lowercase_of(name))
}

/// The report entry of the record `record` of the application `identity`.
pub open spec fn usage_entry(identity: u32, record: UsageRecordView) -> AppUsageView {
    AppUsageView {
        id: app_id_text(identity),
        name: record.display_name,
        time: time_text(record.accumulated_seconds),
        time_in_minutes: record.accumulated_seconds / 60,
        change: 0,
        last_used: record.last_observed_at.local.text(),
        category: category_of(record.display_name),
    }
}

/// The report entries of a listing of records, in its order.
pub open spec fn usage_entries(entries: Seq<(u32, UsageRecordView)>) -> Seq<AppUsageView> {
    entries.map_values(|entry: (u32, UsageRecordView)| usage_entry(entry.0, entry.1))
}

/// Whether `report` holds the entry of every record of `ledger` exactly
/// once, in whatever order.
pub open spec fn is_report_of(report: Seq<AppUsageView>, ledger: Map<u32, UsageRecordView>) -> bool {
    exists|entries: Seq<(u32, UsageRecordView)>| #[trigger]
        is_snapshot_of(entries, ledger) && report == usage_entries(entries)
}

/// The name and seconds of a listing of records, in its order.
pub open spec fn app_times(entries: Seq<(u32, UsageRecordView)>) -> Seq<AppTimeInfoView> {
    entries.map_values(
        |entry: (u32, UsageRecordView)|
            AppTimeInfoView { title: entry.1.display_name, time: entry.1.accumulated_seconds },
    )
}

/// Whether `times` holds name and seconds of every record of `ledger`
/// exactly once, in whatever order.
pub open spec fn is_times_of(times: Seq<AppTimeInfoView>, ledger: Map<u32, UsageRecordView>) -> bool {
    exists|entries: Seq<(u32, UsageRecordView)>| #[trigger]
        is_snapshot_of(entries, ledger) && times == app_times(entries)
}

/// The views of a report.
pub open spec fn report_view(report: Seq<AppUsage>) -> Seq<AppUsageView> {
    report.map_values(|entry: AppUsage| entry@)
}

/// The views of a list of times.
pub open spec fn times_view(times: Seq<AppTimeInfo>) -> Seq<AppTimeInfoView> {
    times.map_values(|entry: AppTimeInfo| entry@)
}

/// Writes a number of seconds as `HH:MM`.
pub fn format_time(seconds: u64) -> (text: String)
    ensures
        text@ == time_text(seconds as nat),
{
    let hours: u64 = seconds / 3600;
    let minutes: u64 = (seconds % 3600) / 60;
    let mut text = zero_padded_string(hours, 2);
    proof {
        reveal_strlit(":");
    }
    text.append(":");
    let minutes_text = zero_padded_string(minutes, 2);
    text.append(minutes_text.as_str());
    assert(text@ =~= time_text(seconds as nat));
    text
}

/// The category of a name that is already in lower case.
pub fn categorize_lowercase(lower: &str) -> (category: String)
    ensures
        category@ == category_of_lowercase(lower@),
{
    if contains(lower, "chrome") || contains(lower, "firefox") || contains(lower, "safari") {
        String::from_str("Browser")
    } else if contains(lower, "microsoft") || contains(lower, "office") {
        String::from_str("Productivity")
    } else if contains(lower, "spotify") || contains(lower, "music") {
        String::from_str("Music")
    } else {
        String::from_str("Other")
    }
}

/// The category of an application name: `Browser`, `Productivity`, `Music`
/// or `Other`.
pub fn categorize_app(name: &str) -> (category: String)
    ensures
        category@ == category_of(name@),
{
    let lower = to_lowercase(name);
    categorize_lowercase(lower.as_str())
}

/// The report entry of one record.
pub fn report_entry(identity: u32, record: &UsageRecord) -> (entry: AppUsage)
    ensures
        entry@ == usage_entry(identity, record@),
{
    AppUsage {
        id: app_id(identity),
        name: record.display_name.clone(),
        time: format_time(record.accumulated_seconds),
        time_in_minutes: record.accumulated_seconds / 60,
        change: 0,
        last_used: record.last_observed_at.local.to_text(),
        category: categorize_app(record.display_name.as_str()),
    }
}

/// The report of everything the ledger holds, in no particular order.
pub fn get_app_usage(ledger: &UsageLedger) -> (report: Vec<AppUsage>)
    ensures
        is_report_of(report_view(report@), ledger@),
        report@.len() == ledger@.len(),
{
    let entries = ledger.snapshot();
    let mut report: Vec<AppUsage> = Vec::new();
    let mut done: usize = 0;
    while done < entries.len()
        invariant
            done <= entries.len(),
            report.len() == done,
            forall|i: int|
                0 <= i < done ==> (#[trigger] report[i])@ == usage_entry(
                    entries[i].0,
                    entries[i].1@,
                ),
        decreases entries.len() - done,
    {
        report.push(report_entry(entries[done].0, &entries[done].1));
        done = done + 1;
    }
    proof {
        let listed = listing_view(entries@);
        assert(report_view(report@) =~= usage_entries(listed));
        assert(is_snapshot_of(listed, ledger@));
        lemma_snapshot_len(listed, ledger@);
    }
    report
}

/// Name and accumulated seconds of every tracked application, in no
/// particular order.
pub fn get_app_times(state: &ScreenTimeState) -> (times: Vec<AppTimeInfo>)
    ensures
        is_times_of(times_view(times@), state@.ledger),
        times@.len() == state@.ledger.len(),
{
    let entries = state.ledger.snapshot();
    let mut times: Vec<AppTimeInfo> = Vec::new();
    let mut done: usize = 0;
    while done < entries.len()
        invariant
            done <= entries.len(),
            times.len() == done,
            forall|i: int|
                0 <= i < done ==> (#[trigger] times[i])@ == (AppTimeInfoView {
                    title: entries[i].1@.display_name,
                    time: entries[i].1@.accumulated_seconds,
                }),
        decreases entries.len() - done,
    {
        times.push(
            AppTimeInfo {
                title: entries[done].1.display_name.clone(),
                time: entries[done].1.accumulated_seconds,
            },
        );
        done = done + 1;
    }
    proof {
        let listed = listing_view(entries@);
        assert(times_view(times@) =~= app_times(listed));
        assert(is_snapshot_of(listed, state@.ledger));
        lemma_snapshot_len(listed, state@.ledger);
    }
    times
}

/// A listing of a ledger has as many entries as the ledger has records.
pub proof fn lemma_snapshot_len(
    entries: Seq<(u32, UsageRecordView)>,
    ledger: Map<u32, UsageRecordView>,
)
    requires
        is_snapshot_of(entries, ledger),
    ensures
        entries.len() == ledger.len(),
{
    identities(entries).unique_seq_to_set();
}

/// Before the first tick every report is empty.
pub proof fn lemma_report_before_first_tick(report: Seq<AppUsageView>)
    requires
        is_report_of(report, initial_state().ledger),
    ensures
        report.len() == 0,
{
    let entries = choose|entries: Seq<(u32, UsageRecordView)>| #[trigger]
        is_snapshot_of(entries, initial_state().ledger) && report == usage_entries(entries);
    lemma_snapshot_len(entries, initial_state().ledger);
}

} // verus!
