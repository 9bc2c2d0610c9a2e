//! Calendar arithmetic on plain values, done by chrono. A civil day is held
//! as chrono's day number: the count of days since the start of the common
//! era, with January 1 of year 1 being day 1.
use vstd::prelude::*;

use chrono::{Datelike, DateTime, Days, FixedOffset, NaiveDate, Weekday};

use crate::text::{decimal, zero_pad};

verus! {

/// Day number of January 1, 1970.
pub const UNIX_EPOCH_DAY: i64 = 719_163;

/// Day number of chrono's earliest date, January 1 of year -262143.
pub const MIN_DAY: i32 = -95_746_129;

/// Day number of chrono's latest date, December 31 of year 262142.
pub const MAX_DAY: i32 = 95_745_399;

/// An instant with the UTC offset it was recorded in, as plain values:
/// seconds since the Unix epoch, the nanoseconds within that second (a leap
/// second carries up to two billion), and the offset east of UTC in seconds.
#[derive(Clone, Copy, Debug, PartialEq, Eq, Structural)]
pub struct Timestamp {
    pub secs: i64,
    pub nanos: u32,
    pub offset_secs: i32,
}

impl Timestamp {
    /// The values describe a chrono `DateTime<FixedOffset>` whose local date
    /// chrono can take: the offset is less than a day, a second holds a leap
    /// second only at the end of a minute, and both the UTC date and the
    /// local date are dates chrono represents.
    pub open spec fn wf(self) -> bool {
        &&& -86_400 < self.offset_secs < 86_400
        &&& self.nanos < 2_000_000_000
        &&& self.nanos >= 1_000_000_000 ==> (self.secs % 60 == 59)
        &&& day_in_range(utc_day(self))
        &&& day_in_range(local_day(self))
    }

    /// Whether the values describe a timestamp whose local date chrono can
    /// take.
    pub fn is_valid(&self) -> (ok: bool)
        ensures
            ok == self.wf(),
    {
        if !(-86_400 < self.offset_secs && self.offset_secs < 86_400) {
            return false;
        }
        // Far outside chrono's dates; within these bounds the shifted counts
        // below are non-negative and fit.
        if !(-8_400_000_000_000 <= self.secs && self.secs <= 8_300_000_000_000) {
            return false;
        }
        // Shift by a whole number of days (and so of minutes) to count
        // forward from before chrono's earliest date.
        let shifted = (self.secs + 8_640_000_000_000) as u64;
        let local_shifted = (self.secs + self.offset_secs as i64 + 8_640_000_000_000) as u64;
        let second = shifted % 60;
        let utc = (shifted / 86_400) as i64 - 100_000_000 + UNIX_EPOCH_DAY;
        let local = (local_shifted / 86_400) as i64 - 100_000_000 + UNIX_EPOCH_DAY;
        assert(second == self.secs % 60 && utc == utc_day(*self) && local == local_day(*self))
            by (nonlinear_arith)
            requires
                shifted == self.secs + 8_640_000_000_000,
                local_shifted == self.secs + self.offset_secs + 8_640_000_000_000,
                second == shifted % 60,
                utc == shifted / 86_400 - 100_000_000 + UNIX_EPOCH_DAY,
                local == local_shifted / 86_400 - 100_000_000 + UNIX_EPOCH_DAY,
                utc_day(*self) == self.secs / 86_400 + UNIX_EPOCH_DAY,
                local_day(*self) == (self.secs + self.offset_secs) / 86_400 + UNIX_EPOCH_DAY,
        ;
        self.nanos < 2_000_000_000 && (self.nanos < 1_000_000_000 || second == 59) && MIN_DAY as i64
            <= utc && utc <= MAX_DAY as i64 && MIN_DAY as i64 <= local && local <= MAX_DAY as i64
    }

    /// Seconds since the epoch on the local wall clock.
    pub open spec fn local_secs(self) -> int {
        self.secs + self.offset_secs
    }
}

/// The UTC civil day of `t`.
pub open spec fn utc_day(t: Timestamp) -> int {
    t.secs / 86_400 + UNIX_EPOCH_DAY
}

/// The local civil day of `t`.
pub open spec fn local_day(t: Timestamp) -> int {
    t.local_secs() / 86_400 + UNIX_EPOCH_DAY
}

/// Days since the last Monday: 0 on Mondays, 6 on Sundays. Day 1 (January
/// 1 of year 1) was a Monday.
pub open spec fn weekday_from_monday(day: int) -> int {
    (day - 1) % 7
}

/// The Monday that starts the week of `day`.
pub open spec fn week_start(day: int) -> int {
    day - weekday_from_monday(day)
}

/// Number of days before January 1 of `year`, counted from day 0.
pub open spec fn days_before_year(year: int) -> int {
    let y = year - 1;
    365 * y + y / 4 - y / 100 + y / 400
}

/// `year` is the year of `day`.
pub open spec fn is_year_of(day: int, year: int) -> bool {
    days_before_year(year) < day <= days_before_year(year + 1)
}

/// A day number of a date chrono represents.
pub open spec fn day_in_range(day: int) -> bool {
    MIN_DAY <= day <= MAX_DAY
}

/// English abbreviation of a weekday, counted from Monday.
pub open spec fn weekday_abbrev(w: int) -> Seq<char> {
    if w == 0 {
        "Mon"@
    } else if w == 1 {
        "Tue"@
    } else if w == 2 {
        "Wed"@
    } else if w == 3 {
        "Thu"@
    } else if w == 4 {
        "Fri"@
    } else if w == 5 {
        "Sat"@
    } else {
        "Sun"@
    }
}

/// `t` on the local clock as weekday, hour and minute: "Wed 09:40".
pub open spec fn weekday_time_text(t: Timestamp) -> Seq<char> {
    let s = t.local_secs() % 86_400;
    weekday_abbrev(weekday_from_monday(local_day(t))) + seq![' '] + zero_pad(
        decimal((s / 3600) as nat),
        2,
    ) + seq![':'] + zero_pad(decimal(((s % 3600) / 60) as nat), 2)
}

/// Floor division by a positive constant grows by at most the quotient of
/// the difference, plus one.
proof fn lemma_div_gap(a: int, b: int, k: int)
    requires
        a <= b,
        k > 0,
    ensures
        0 <= b / k - a / k <= (b - a) / k + 1,
{
    assert(0 <= b / k - a / k <= (b - a) / k + 1) by (nonlinear_arith)
        requires
            a <= b,
            k > 0,
    ;
}

/// Later years start later: every year has at least one day.
pub proof fn lemma_days_before_year_increasing(a: int, b: int)
    requires
        a < b,
    ensures
        days_before_year(a) < days_before_year(b),
{
    lemma_div_gap(a - 1, b - 1, 4);
    lemma_div_gap(a - 1, b - 1, 100);
    lemma_div_gap(a - 1, b - 1, 400);
    assert((b - a) / 100 + 1 <= b - a) by (nonlinear_arith)
        requires
            a < b,
    ;
}

/// A day belongs to one year only.
pub proof fn lemma_year_unique(day: int, y1: int, y2: int)
    requires
        is_year_of(day, y1),
        is_year_of(day, y2),
    ensures
        y1 == y2,
{
    if y1 + 1 < y2 {
        lemma_days_before_year_increasing(y1 + 1, y2);
    } else if y2 + 1 < y1 {
        lemma_days_before_year_increasing(y2 + 1, y1);
    }
}

pub proof fn lemma_local_day_in_range(t: Timestamp)
    requires
        t.wf(),
    ensures
        day_in_range(local_day(t)),
{
}

/// chrono's `DateTime::date_naive` on `t`, read back with
/// `Datelike::num_days_from_ce`. Claimed: the local date is the day of the
/// local wall-clock seconds, counted in the proleptic Gregorian calendar
/// from 1970-01-01 as day 719,163 (chrono's `from_timestamp` adds the UTC
/// offset to the UTC time and splits at whole days).
#[verifier::external_body]
pub(crate) fn local_day_of(t: &Timestamp) -> (day: i32)
    requires
        t.wf(),
    ensures
        day == local_day(*t),
{
    let offset = FixedOffset::east_opt(t.offset_secs).unwrap();
    let at = DateTime::from_timestamp(t.secs, t.nanos).unwrap().with_timezone(&offset);
    at.date_naive().num_days_from_ce()
}

/// chrono's `Datelike::year` of `t` in its own offset. Claimed: the year is
/// the proleptic Gregorian year that holds the local day of `t`.
#[verifier::external_body]
pub(crate) fn local_year_of(t: &Timestamp) -> (year: i32)
    requires
        t.wf(),
    ensures
        is_year_of(local_day(*t), year as int),
{
    let offset = FixedOffset::east_opt(t.offset_secs).unwrap();
    DateTime::from_timestamp(t.secs, t.nanos).unwrap().with_timezone(&offset).year()
}

/// chrono's `NaiveDate::week(Weekday::Mon).first_day()` on the date
/// numbered `day`. Claimed: it is the Monday on or before `day`, where day 1
/// (January 1 of year 1) was a Monday; when that Monday is a date chrono
/// represents, it does not panic.
#[verifier::external_body]
pub(crate) fn monday_of_week(day: i32) -> (monday: i32)
    requires
        day_in_range(day as int),
        week_start(day as int) >= MIN_DAY,
    ensures
        monday == week_start(day as int),
{
    let date = NaiveDate::from_num_days_from_ce_opt(day).unwrap();
    date.week(Weekday::Mon).first_day().num_days_from_ce()
}

/// chrono's `NaiveDate - Days::new(1)` on the date numbered `day`. Claimed:
/// it is the previous day number; when that is a date chrono represents,
/// it does not panic.
#[verifier::external_body]
pub(crate) fn day_before(day: i32) -> (prev: i32)
    requires
        MIN_DAY < day <= MAX_DAY,
    ensures
        prev == day - 1,
{
    let date = NaiveDate::from_num_days_from_ce_opt(day).unwrap();
    (date - Days::new(1)).num_days_from_ce()
}

/// chrono's `DateTime::format("%a %H:%M")` of `t` in its own offset.
/// Claimed: the English weekday abbreviation of the local day, a space, and
/// the local hour and minute, each as two digits.
#[verifier::external_body]
pub(crate) fn format_weekday_time(t: &Timestamp) -> (s: String)
    requires
        t.wf(),
    ensures
        s@ == weekday_time_text(*t),
{
    let offset = FixedOffset::east_opt(t.offset_secs).unwrap();
    let at = DateTime::from_timestamp(t.secs, t.nanos).unwrap().with_timezone(&offset);
    at.format("%a %H:%M").to_string()
}

} // verus!
