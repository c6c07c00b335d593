//! The weekly schedule: sessions every Tuesday (the early slot) and every
//! Thursday (the late slot), numbered from the day the series started.

use vstd::prelude::*;
use crate::calendar::{Date, DateTime, Weekday, weekday_of, day_number_of, SECS_PER_DAY};

verus! {

/// Time of day of the Tuesday session: 11:00.
pub const EARLY_SLOT_SECS: u32 = 11 * 3600;

/// Time of day of the Thursday session: 15:00.
pub const LATE_SLOT_SECS: u32 = 15 * 3600;

/// The sub-event starts this long after the Tuesday session.
pub const SUB_EVENT_OFFSET_SECS: u32 = 2 * 3600;

/// Number of session pairs that had been held when the sub-event series began.
pub const SUB_EVENT_NUMBER_OFFSET: i64 = 69;

/// The series started on 2022-01-06, a Thursday.
pub const SERIES_START_YEAR: i32 = 2022;

pub const SERIES_START_MONTH: u32 = 1;

pub const SERIES_START_DAY: u32 = 6;

#[derive(Clone, Copy, Debug, PartialEq, Eq, Structural)]
pub enum ScheduleError {
    /// The time of day lies outside the day, or the next session falls on a
    /// date that cannot be held.
    InvalidScheduleState,
}

pub open spec fn is_slot_day(wd: Weekday) -> bool {
    wd == Weekday::Tue || wd == Weekday::Thu
}

/// Time of day of the session held on a slot day.
pub open spec fn slot_secs(wd: Weekday) -> int {
    if wd == Weekday::Tue {
        EARLY_SLOT_SECS as int
    } else {
        LATE_SLOT_SECS as int
    }
}

/// Days from `now` to the day of the next session.
pub open spec fn days_ahead(now: DateTime) -> int {
    match now.date.weekday_spec() {
        Weekday::Mon => 1,
        Weekday::Tue => if now.secs < EARLY_SLOT_SECS {
            0
        } else {
            2
        },
        Weekday::Wed => 1,
        Weekday::Thu => if now.secs < LATE_SLOT_SECS {
            0
        } else {
            5
        },
        Weekday::Fri => 4,
        Weekday::Sat => 3,
        Weekday::Sun => 2,
    }
}

/// How far past the baseline the next session's number lies.
pub open spec fn sessions_added(now: DateTime) -> int {
    match now.date.weekday_spec() {
        Weekday::Tue => if now.secs < EARLY_SLOT_SECS {
            2
        } else {
            3
        },
        Weekday::Wed => 3,
        Weekday::Thu => if now.secs < LATE_SLOT_SECS {
            1
        } else {
            2
        },
        _ => 2,
    }
}

/// Two sessions for each whole week from `start` to `today`.
pub open spec fn baseline(start: Date, today: Date) -> int {
    2 * ((today.day - start.day) / 7)
}

pub open spec fn next_session_number(start: Date, now: DateTime) -> int {
    baseline(start, now.date) + sessions_added(now)
}

pub open spec fn next_session_day(now: DateTime) -> int {
    now.date.day + days_ahead(now)
}

/// The next session's date and time, normalised to its slot's time of day.
pub open spec fn next_session_at(now: DateTime) -> DateTime {
    DateTime {
        date: Date { day: next_session_day(now) as i32 },
        secs: slot_secs(weekday_of(next_session_day(now))) as u32,
    }
}

/// The time of day is within the day and the next session's date fits.
pub open spec fn has_next_session(now: DateTime) -> bool {
    now.wf() && next_session_day(now) <= i32::MAX
}

/// The weekday index `k` days after `day`, from that of `day`.
proof fn lemma_weekday_after(day: int, k: int)
    requires
        0 <= k < 7,
    ensures
        (day + k + 6) % 7 == ((day + 6) % 7 + k) % 7,
        0 <= (day + 6) % 7 < 7,
{
    vstd::arithmetic::div_mod::lemma_add_mod_noop(day + 6, k, 7);
    vstd::arithmetic::div_mod::lemma_small_mod(k as nat, 7);
    vstd::arithmetic::div_mod::lemma_mod_twice((day + 6) % 7 + k, 7);
}

/// Every next session falls on a slot day, at most five days ahead.
pub proof fn lemma_next_session_on_slot_day(now: DateTime)
    ensures
        is_slot_day(weekday_of(next_session_day(now))),
        0 <= days_ahead(now) <= 5,
{
    let d = now.date.day as int;
    lemma_weekday_after(d, days_ahead(now));
}

/// The number and the date and time of the next session after `now`, in a
/// series whose first week starts on `start_date`.
pub fn session_number(start_date: Date, now: DateTime) -> (r: Result<(i32, DateTime), ScheduleError>)
    ensures
        r is Ok <==> has_next_session(now),
        r matches Ok((n, at)) ==> n == next_session_number(start_date, now) && at
            == next_session_at(now),
        r matches Ok((n, at)) ==> is_slot_day(at.date.weekday_spec()) && at.wf(),
{
    if now.secs >= SECS_PER_DAY {
        return Err(ScheduleError::InvalidScheduleState);
    }
    let days_passed: i64 = now.date.day as i64 - start_date.day as i64;
    let weeks: i64 = days_passed.checked_div_euclid(7).unwrap();
    let ahead: i32;
    let added: i64;
    match now.date.weekday() {
        Weekday::Tue => {
            if now.secs < EARLY_SLOT_SECS {
                ahead = 0;
                added = 2;
            } else {
                ahead = 2;
                added = 3;
            }
        },
        Weekday::Thu => {
            if now.secs < LATE_SLOT_SECS {
                ahead = 0;
                added = 1;
            } else {
                ahead = 5;
                added = 2;
            }
        },
        Weekday::Mon => {
            ahead = 1;
            added = 2;
        },
        Weekday::Wed => {
            ahead = 1;
            added = 3;
        },
        Weekday::Fri => {
            ahead = 4;
            added = 2;
        },
        Weekday::Sat => {
            ahead = 3;
            added = 2;
        },
        Weekday::Sun => {
            ahead = 2;
            added = 2;
        },
    }
    if now.date.day > i32::MAX - ahead {
        return Err(ScheduleError::InvalidScheduleState);
    }
    let next = Date { day: now.date.day + ahead };
    proof {
        lemma_next_session_on_slot_day(now);
    }
    let secs: u32 = match next.weekday() {
        Weekday::Tue => EARLY_SLOT_SECS,
        Weekday::Thu => LATE_SLOT_SECS,
        // Never taken: the next session always falls on a slot day.
        _ => {
            return Err(ScheduleError::InvalidScheduleState);
        },
    };
    let session: i64 = weeks * 2 + added;
    Ok((session as i32, DateTime { date: next, secs }))
}

/// The day the series started.
pub fn get_start_date() -> (r: Date)
    ensures
        r.day == day_number_of(
            SERIES_START_YEAR as int,
            SERIES_START_MONTH as int,
            SERIES_START_DAY as int,
        ),
{
    Date::from_ymd(SERIES_START_YEAR, SERIES_START_MONTH, SERIES_START_DAY).unwrap()
}

/// Time of day of the sub-event: a fixed offset after the Tuesday session.
pub open spec fn sub_event_secs() -> int {
    EARLY_SLOT_SECS + SUB_EVENT_OFFSET_SECS
}

/// The sub-event that accompanies the session numbered `session` held at
/// `at`: its number and its date and time. There is one only where that
/// session falls on a Tuesday.
pub fn sub_event(session: i32, at: DateTime) -> (r: Option<(i64, DateTime)>)
    ensures
        r is Some <==> at.date.weekday_spec() == Weekday::Tue,
        r matches Some((k, t)) ==> k == session as int / 2 - SUB_EVENT_NUMBER_OFFSET && t == (
        DateTime { date: at.date, secs: sub_event_secs() as u32 }) && t.wf(),
{
    match at.date.weekday() {
        Weekday::Tue => {
            let half: i64 = (session as i64).checked_div_euclid(2).unwrap();
            let secs: u32 = EARLY_SLOT_SECS + SUB_EVENT_OFFSET_SECS;
            Some((half - SUB_EVENT_NUMBER_OFFSET, DateTime { date: at.date, secs }))
        },
        _ => None,
    }
}

/// On a Tuesday before the early slot, the next session is today's, at the
/// early slot's time, two past the baseline.
pub proof fn lemma_early_day_before_slot(start: Date, now: DateTime)
    requires
        now.wf(),
        now.date.weekday_spec() == Weekday::Tue,
        now.secs < EARLY_SLOT_SECS,
    ensures
        has_next_session(now),
        next_session_number(start, now) == baseline(start, now.date) + 2,
        next_session_at(now) == (DateTime { date: now.date, secs: EARLY_SLOT_SECS }),
{
}

/// On a Tuesday at or after the early slot, the next session is Thursday's,
/// two days later at the late slot's time, three past the baseline.
pub proof fn lemma_early_day_after_slot(start: Date, now: DateTime)
    requires
        now.wf(),
        now.date.weekday_spec() == Weekday::Tue,
        now.secs >= EARLY_SLOT_SECS,
        now.date.day + 2 <= i32::MAX,
    ensures
        has_next_session(now),
        next_session_number(start, now) == baseline(start, now.date) + 3,
        next_session_day(now) == now.date.day + 2,
        weekday_of(next_session_day(now)) == Weekday::Thu,
        next_session_at(now).secs == LATE_SLOT_SECS,
{
    lemma_weekday_after(now.date.day as int, 2);
}

/// On a Thursday before the late slot, the next session is today's, at the
/// late slot's time, one past the baseline.
pub proof fn lemma_late_day_before_slot(start: Date, now: DateTime)
    requires
        now.wf(),
        now.date.weekday_spec() == Weekday::Thu,
        now.secs < LATE_SLOT_SECS,
    ensures
        has_next_session(now),
        next_session_number(start, now) == baseline(start, now.date) + 1,
        next_session_at(now) == (DateTime { date: now.date, secs: LATE_SLOT_SECS }),
{
}

/// On a Thursday at or after the late slot, the next session is the
/// following Tuesday's, five days later at the early slot's time, two past
/// the baseline.
pub proof fn lemma_late_day_after_slot(start: Date, now: DateTime)
    requires
        now.wf(),
        now.date.weekday_spec() == Weekday::Thu,
        now.secs >= LATE_SLOT_SECS,
        now.date.day + 5 <= i32::MAX,
    ensures
        has_next_session(now),
        next_session_number(start, now) == baseline(start, now.date) + 2,
        next_session_day(now) == now.date.day + 5,
        weekday_of(next_session_day(now)) == Weekday::Tue,
        next_session_at(now).secs == EARLY_SLOT_SECS,
{
    lemma_weekday_after(now.date.day as int, 5);
}

/// On a day without a session, the next session is on the nearer of the two
/// slot days ahead: no day before it is a slot day. It lies two past the
/// baseline when it is a Tuesday and three when it is a Thursday.
pub proof fn lemma_off_day_nearest_slot(start: Date, now: DateTime)
    requires
        !is_slot_day(now.date.weekday_spec()),
    ensures
        1 <= days_ahead(now) <= 4,
        is_slot_day(weekday_of(next_session_day(now))),
        forall|j: int|
            0 <= j < days_ahead(now) ==> !is_slot_day(#[trigger] weekday_of(now.date.day + j)),
        weekday_of(next_session_day(now)) == Weekday::Tue ==> sessions_added(now) == 2,
        weekday_of(next_session_day(now)) == Weekday::Thu ==> sessions_added(now) == 3,
{
    let d = now.date.day as int;
    lemma_next_session_on_slot_day(now);
    assert forall|j: int| 0 <= j < days_ahead(now) implies !is_slot_day(
        #[trigger] weekday_of(d + j),
    ) by {
        lemma_weekday_after(d, j);
    }
}

/// Of two times on one Tuesday, one before the early slot and one at or
/// after it, the later one's next session is numbered one higher and falls
/// on the Thursday.
pub proof fn lemma_early_slot_passing(start: Date, before: DateTime, after: DateTime)
    requires
        before.wf(),
        after.wf(),
        before.date == after.date,
        before.date.weekday_spec() == Weekday::Tue,
        before.secs < EARLY_SLOT_SECS <= after.secs,
    ensures
        next_session_number(start, after) == next_session_number(start, before) + 1,
        weekday_of(next_session_day(after)) == Weekday::Thu,
{
    lemma_weekday_after(after.date.day as int, 2);
}

} // verus!
