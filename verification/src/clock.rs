//! Readings of the two clocks a tick carries: whole seconds on a monotonic
//! clock, by which intervals are measured, and the local calendar time, which
//! is only ever shown.

use crate::text::zero_padded;
use vstd::prelude::*;

verus! {

/// Whole seconds from `since` to `now`; zero if the clock went backwards.
pub open spec fn elapsed_between(since: u64, now: u64) -> nat {
    if now >= since {
        (now - since) as nat
    } else {
        0
    }
}

/// Whole seconds from `since` to `now`. A clock that went backwards gives
/// zero, never a wrapped difference.
pub fn elapsed_seconds(since: u64, now: u64) -> (elapsed: u64)
    ensures
        elapsed == elapsed_between(since, now),
{
    if now >= since {
        now - since
    } else {
        0
    }
}

/// Whether `year` has a 29th of February in the Gregorian calendar.
pub open spec fn is_leap_year(year: int) -> bool {
    year % 4 == 0 && (year % 100 != 0 || year % 400 == 0)
}

/// The number of days of a month of the Gregorian calendar.
pub open spec fn days_in_month(year: int, month: int) -> int {
    if month == 2 {
        if is_leap_year(year) {
            29
        } else {
            28
        }
    } else if month == 4 || month == 6 || month == 9 || month == 11 {
        30
    } else {
        31
    }
}

/// Whether the six numbers name a second of a day of the Gregorian calendar
/// in the years 0 to 9999.
pub open spec fn is_calendar_time(
    year: int,
    month: int,
    day: int,
    hour: int,
    minute: int,
    second: int,
) -> bool {
    &&& 0 <= year <= 9999
    &&& 1 <= month <= 12
    &&& 1 <= day <= days_in_month(year, month)
    &&& 0 <= hour < 24
    &&& 0 <= minute < 60
    &&& 0 <= second < 60
}

/// A calendar time written as `YYYY-MM-DD HH:MM:SS`.
pub open spec fn calendar_text(
    year: int,
    month: int,
    day: int,
    hour: int,
    minute: int,
    second: int,
) -> Seq<char> {
    zero_padded(year as nat, 4) + seq!['-'] + zero_padded(month as nat, 2) + seq!['-']
        + zero_padded(day as nat, 2) + seq![' '] + zero_padded(hour as nat, 2) + seq![':']
        + zero_padded(minute as nat, 2) + seq![':'] + zero_padded(second as nat, 2)
}

/// Formats a calendar time with `chrono`: `NaiveDate::from_ymd_opt`, then
/// `NaiveDate::and_hms_opt`, then `NaiveDateTime::format` with the pattern
/// `%Y-%m-%d %H:%M:%S`. Trusted: for a second of a day in the years 0 to 9999
/// chrono accepts the numbers and writes the year with four digits and every
/// other field with two, zero-padded. Nothing is claimed for other numbers.
#[verifier::external_body]
fn format_calendar_time(year: i32, month: u32, day: u32, hour: u32, minute: u32, second: u32) -> (text:
    Option<String>)
    ensures
        is_calendar_time(
            year as int,
            month as int,
            day as int,
            hour as int,
            minute as int,
            second as int,
        ) ==> text is Some && text->0@ == calendar_text(
            year as int,
            month as int,
            day as int,
            hour as int,
            minute as int,
            second as int,
        ),
{
    let date = chrono::NaiveDate::from_ymd_opt(year, month, day)?;
    let moment = date.and_hms_opt(hour, minute, second)?;
    Some(moment.format("%Y-%m-%d %H:%M:%S").to_string())
}

/// A second of a day of the local calendar, in the years 0 to 9999.
#[derive(Clone, Copy, Debug, PartialEq, Eq)]
pub struct CivilTime {
    year: i32,
    month: u32,
    day: u32,
    hour: u32,
    minute: u32,
    second: u32,
}

impl CivilTime {
    #[verifier::type_invariant]
    spec fn on_calendar(self) -> bool {
        is_calendar_time(
            self.year as int,
            self.month as int,
            self.day as int,
            self.hour as int,
            self.minute as int,
            self.second as int,
        )
    }

    pub closed spec fn spec_year(&self) -> i32 {
        self.year
    }

    pub closed spec fn spec_month(&self) -> u32 {
        self.month
    }

    pub closed spec fn spec_day(&self) -> u32 {
        self.day
    }

    pub closed spec fn spec_hour(&self) -> u32 {
        self.hour
    }

    pub closed spec fn spec_minute(&self) -> u32 {
        self.minute
    }

    pub closed spec fn spec_second(&self) -> u32 {
        self.second
    }

    /// The text `YYYY-MM-DD HH:MM:SS` of this time.
    pub open spec fn text(&self) -> Seq<char> {
        calendar_text(
            self.year() as int,
            self.month() as int,
            self.day() as int,
            self.hour() as int,
            self.minute() as int,
            self.second() as int,
        )
    }

    /// The calendar time with these fields, or `None` if there is no such
    /// day or no such second of the day.
    pub fn new(year: i32, month: u32, day: u32, hour: u32, minute: u32, second: u32) -> (time:
        Option<CivilTime>)
        ensures
            time is Some <==> is_calendar_time(
                year as int,
                month as int,
                day as int,
                hour as int,
                minute as int,
                second as int,
            ),
            time matches Some(t) ==> {
                &&& t.year() == year
                &&& t.month() == month
                &&& t.day() == day
                &&& t.hour() == hour
                &&& t.minute() == minute
                &&& t.second() == second
            },
    {
        if year < 0 || year > 9999 || month < 1 || month > 12 || day < 1 || hour >= 24 || minute
            >= 60 || second >= 60 {
            return None;
        }
        let leap: bool = year % 4 == 0 && (year % 100 != 0 || year % 400 == 0);
        let days: u32 = if month == 2 {
            if leap {
                29
            } else {
                28
            }
        } else if month == 4 || month == 6 || month == 9 || month == 11 {
            30
        } else {
            31
        };
        if day > days {
            return None;
        }
        Some(CivilTime { year, month, day, hour, minute, second })
    }

    #[verifier::when_used_as_spec(spec_year)]
    pub fn year(&self) -> (year: i32)
        ensures
            year == self.year(),
            0 <= year <= 9999,
    {
        proof {
            use_type_invariant(self);
        }
        self.year
    }

    #[verifier::when_used_as_spec(spec_month)]
    pub fn month(&self) -> (month: u32)
        ensures
            month == self.month(),
            1 <= month <= 12,
    {
        proof {
            use_type_invariant(self);
        }
        self.month
    }

    #[verifier::when_used_as_spec(spec_day)]
    pub fn day(&self) -> (day: u32)
        ensures
            day == self.day(),
            1 <= day <= days_in_month(self.year() as int, self.month() as int),
    {
        proof {
            use_type_invariant(self);
        }
        self.day
    }

    #[verifier::when_used_as_spec(spec_hour)]
    pub fn hour(&self) -> (hour: u32)
        ensures
            hour == self.hour(),
            hour < 24,
    {
        proof {
            use_type_invariant(self);
        }
        self.hour
    }

    #[verifier::when_used_as_spec(spec_minute)]
    pub fn minute(&self) -> (minute: u32)
        ensures
            minute == self.minute(),
            minute < 60,
    {
        proof {
            use_type_invariant(self);
        }
        self.minute
    }

    #[verifier::when_used_as_spec(spec_second)]
    pub fn second(&self) -> (second: u32)
        ensures
            second == self.second(),
            second < 60,
    {
        proof {
            use_type_invariant(self);
        }
        self.second
    }

    /// Writes this time as `YYYY-MM-DD HH:MM:SS`.
    pub fn to_text(&self) -> (text: String)
        ensures
            text@ == self.text(),
    {
        proof {
            use_type_invariant(self);
        }
        let formatted = format_calendar_time(
            self.year,
            self.month,
            self.day,
            self.hour,
            self.minute,
            self.second,
        );
        formatted.unwrap()
    }
}

/// One reading of both clocks, taken at a tick.
#[derive(Clone, Copy, Debug, PartialEq, Eq)]
pub struct Timestamp {
    /// Whole seconds on a monotonic clock.
    pub monotonic_secs: u64,
    /// The local calendar time of the same moment.
    pub local: CivilTime,
}

} // verus!
