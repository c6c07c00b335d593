//! Dates as day numbers of the proleptic Gregorian calendar, and times of day
//! as seconds since midnight.

use vstd::prelude::*;

verus! {

/// The earliest year that chrono's `NaiveDate` can hold.
pub const MIN_YEAR: i32 = -262143;

/// The latest year that chrono's `NaiveDate` can hold.
pub const MAX_YEAR: i32 = 262142;

pub const SECS_PER_DAY: u32 = 86400;

/// Day number of 1970-01-01, the Unix epoch.
pub const UNIX_EPOCH_DAY: i64 = 719163;

#[derive(Clone, Copy, Debug, PartialEq, Eq, Structural)]
pub enum Weekday {
    Mon,
    Tue,
    Wed,
    Thu,
    Fri,
    Sat,
    Sun,
}

/// Weekday of a day number: consecutive day numbers are consecutive days,
/// and day 1 (0001-01-01) is a Monday.
pub open spec fn weekday_of(day: int) -> Weekday {
    let i = (day + 6) % 7;
    if i == 0 {
        Weekday::Mon
    } else if i == 1 {
        Weekday::Tue
    } else if i == 2 {
        Weekday::Wed
    } else if i == 3 {
        Weekday::Thu
    } else if i == 4 {
        Weekday::Fri
    } else if i == 5 {
        Weekday::Sat
    } else {
        Weekday::Sun
    }
}

pub open spec fn is_leap_year(year: int) -> bool {
    year % 4 == 0 && (year % 100 != 0 || year % 400 == 0)
}

pub open spec fn days_in_month(year: int, month: int) -> int {
    if month == 2 {
        if is_leap_year(year) {
            29
        } else {
            28
        }
    } else if month == 4 || month == 6 || month == 9 || month == 11 {
        30
    } else {
        31
    }
}

/// Whether year, month and day name a day of the Gregorian calendar.
pub open spec fn is_calendar_date(year: int, month: int, day: int) -> bool {
    1 <= month <= 12 && 1 <= day <= days_in_month(year, month)
}

/// Day number of a calendar date, counting 0001-01-01 as day 1.
pub uninterp spec fn day_number_of(year: int, month: int, day: int) -> int;

/// Relies on chrono's `NaiveDate::from_ymd_opt`, which accepts exactly the
/// calendar dates of the years `MIN_YEAR..=MAX_YEAR`, and on
/// `Datelike::num_days_from_ce` for the day number of the date it made.
#[verifier::external_body]
fn chrono_day_number(year: i32, month: u32, day: u32) -> (r: Option<i32>)
    ensures
        r is Some <==> (is_calendar_date(year as int, month as int, day as int) && MIN_YEAR
            <= year <= MAX_YEAR),
        r matches Some(n) ==> n == day_number_of(year as int, month as int, day as int),
{
    match chrono::NaiveDate::from_ymd_opt(year, month, day) {
        Some(date) => Some(chrono::Datelike::num_days_from_ce(&date)),
        None => None,
    }
}

/// A calendar date, held as its day number: 0001-01-01 is day 1.
#[derive(Clone, Copy, Debug, PartialEq, Eq, Structural)]
pub struct Date {
    pub day: i32,
}

impl Date {
    pub open spec fn weekday_spec(self) -> Weekday {
        weekday_of(self.day as int)
    }

    /// The date of a year, month and day; `None` where they name no day, or
    /// one outside the years `MIN_YEAR..=MAX_YEAR`.
    pub fn from_ymd(year: i32, month: u32, day: u32) -> (r: Option<Date>)
        ensures
            r is Some <==> (is_calendar_date(year as int, month as int, day as int) && MIN_YEAR
                <= year <= MAX_YEAR),
            r matches Some(d) ==> d.day == day_number_of(year as int, month as int, day as int),
    {
        match chrono_day_number(year, month, day) {
            Some(n) => Some(Date { day: n }),
            None => None,
        }
    }

    pub fn weekday(self) -> (r: Weekday)
        ensures
            r == self.weekday_spec(),
    {
        let i = (self.day as i64 + 6).checked_rem_euclid(7).unwrap();
        if i == 0 {
            Weekday::Mon
        } else if i == 1 {
            Weekday::Tue
        } else if i == 2 {
            Weekday::Wed
        } else if i == 3 {
            Weekday::Thu
        } else if i == 4 {
            Weekday::Fri
        } else if i == 5 {
            Weekday::Sat
        } else {
            Weekday::Sun
        }
    }
}

/// A date and a time of day, to the second.
#[derive(Clone, Copy, Debug, PartialEq, Eq, Structural)]
pub struct DateTime {
    pub date: Date,
    /// Seconds since midnight.
    pub secs: u32,
}

pub open spec fn hms_secs(hour: int, minute: int, second: int) -> int {
    hour * 3600 + minute * 60 + second
}

impl DateTime {
    /// The time of day lies within the day.
    pub open spec fn wf(self) -> bool {
        self.secs < SECS_PER_DAY
    }

    pub open spec fn unix_timestamp_spec(self) -> int {
        (self.date.day - UNIX_EPOCH_DAY) * SECS_PER_DAY + self.secs
    }

    /// The given date at the given hour, minute and second; `None` where
    /// that time of day does not exist.
    pub fn at_hms(date: Date, hour: u32, minute: u32, second: u32) -> (r: Option<DateTime>)
        ensures
            r is Some <==> (hour < 24 && minute < 60 && second < 60),
            r matches Some(t) ==> t.date == date && t.secs == hms_secs(
                hour as int,
                minute as int,
                second as int,
            ),
    {
        if hour < 24 && minute < 60 && second < 60 {
            Some(DateTime { date, secs: hour * 3600 + minute * 60 + second })
        } else {
            None
        }
    }

    /// The date and time given by its parts; `None` where they name no
    /// calendar date of the years `MIN_YEAR..=MAX_YEAR`, or no time of day.
    pub fn from_ymd_hms(year: i32, month: u32, day: u32, hour: u32, minute: u32, second: u32) -> (r:
        Option<DateTime>)
        ensures
            r is Some <==> (is_calendar_date(year as int, month as int, day as int) && MIN_YEAR
                <= year <= MAX_YEAR && hour < 24 && minute < 60 && second < 60),
            r matches Some(t) ==> t.date.day == day_number_of(year as int, month as int, day as int)
                && t.secs == hms_secs(hour as int, minute as int, second as int),
    {
        match Date::from_ymd(year, month, day) {
            Some(date) => DateTime::at_hms(date, hour, minute, second),
            None => None,
        }
    }

    /// Seconds since 1970-01-01T00:00:00, reading the date and time as UTC.
    pub fn unix_timestamp(self) -> (r: i64)
        ensures
            r == self.unix_timestamp_spec(),
    {
        let days: i64 = self.date.day as i64 - UNIX_EPOCH_DAY;
        assert(-4_000_000_000 * 86400 <= days * 86400 <= 4_000_000_000 * 86400) by (nonlinear_arith)
            requires
                -4_000_000_000 <= days <= 4_000_000_000,
        ;
        days * (SECS_PER_DAY as i64) + self.secs as i64
    }
}

} // verus!
