//! Calendar dates as day numbers, with the calendar arithmetic that needs the
//! proleptic Gregorian calendar left to `chrono`.
use chrono::{DateTime, Datelike, Local, NaiveDate, Timelike, Utc};
use std::fmt::Write;
use vstd::prelude::*;

verus! {

/// Day number of the earliest date `chrono` represents (January 1, 262144 BCE),
/// counting January 1 of year 1 as day 1.
pub const MIN_DAYS: i32 = -95_746_129;

/// Day number of the latest date `chrono` represents (December 31, 262142).
pub const MAX_DAYS: i32 = 95_745_399;

/// Year of the earliest representable date.
pub const MIN_YEAR: i32 = -262_143;

/// Year of the latest representable date.
pub const MAX_YEAR: i32 = 262_142;

/// A calendar day, numbered as `chrono` numbers days from the common era:
/// January 1 of year 1 is day 1, the day before it day 0.
#[derive(Clone, Copy, Debug, PartialEq, Eq, Structural)]
pub struct Date {
    pub days: i32,
}

impl Date {
    /// The day lies in the range that `chrono` can represent.
    pub open spec fn valid(self) -> bool {
        MIN_DAYS <= self.days <= MAX_DAYS
    }

    /// The day lies at least a year away from both ends of the representable
    /// range, so that the month before and the month after it, and the whole
    /// week and month around it, are representable too.
    pub open spec fn inner(self) -> bool {
        MIN_DAYS + 366 <= self.days <= MAX_DAYS - 366
    }

    /// The date `n` days later (earlier for negative `n`).
    pub fn add_days(&self, n: i32) -> (r: Date)
        requires
            MIN_DAYS <= self.days + n <= MAX_DAYS,
        ensures
            r.days == self.days + n,
            r.valid(),
    {
        Date { days: self.days + n }
    }
}

// ---------------------------------------------------------------------
// Names for what chrono computes
// ---------------------------------------------------------------------

/// Name for `Datelike::year` of the date with the given day number.
pub uninterp spec fn chrono_year(days: int) -> int;

/// Name for `Datelike::month` (1 to 12) of the date with the given day number.
pub uninterp spec fn chrono_month(days: int) -> int;

/// Name for `Datelike::day` (1 to 31) of the date with the given day number.
pub uninterp spec fn chrono_day(days: int) -> int;

/// Weekday of the date with the given day number, counted from Monday (0)
/// to Sunday (6).  Day 1 is January 1 of year 1, a Monday in the proleptic
/// Gregorian calendar, and weekdays repeat every seven days.
pub open spec fn weekday_number(days: int) -> int {
    (days - 1) % 7
}

/// Name for the ISO-8601 week number (`IsoWeek::week`) of the date.
pub uninterp spec fn chrono_iso_week(days: int) -> int;

/// Name for the day number `NaiveDate::from_ymd_opt(year, month, day)` gives,
/// or `None` where no such date exists.
pub uninterp spec fn chrono_from_ymd(year: int, month: int, day: int) -> Option<int>;

/// Name for the day number `Datelike::with_day(day)` gives on the date, or
/// `None` where the month has no such day.
pub uninterp spec fn chrono_with_day(days: int, day: int) -> Option<int>;

/// Name for the text `NaiveDate::format(pattern)` writes for the date.
pub uninterp spec fn chrono_format(days: int, pattern: Seq<char>) -> Seq<char>;

/// `NaiveDate::from_num_days_from_ce_opt(d.days)` followed by
/// `Datelike::year`.  Claims the year lies in chrono's year range, and that a
/// day at least a year from an end of the range is not in the end year.
#[verifier::external_body]
pub(crate) fn year_of(d: Date) -> (r: i32)
    requires
        d.valid(),
    ensures
        r == chrono_year(d.days as int),
        MIN_YEAR <= r <= MAX_YEAR,
        d.days >= MIN_DAYS + 366 ==> r > MIN_YEAR,
        d.days <= MAX_DAYS - 366 ==> r < MAX_YEAR,
{
    NaiveDate::from_num_days_from_ce_opt(d.days).unwrap().year()
}

/// `Datelike::month` of the date; claims it lies in 1 to 12.
#[verifier::external_body]
pub(crate) fn month_of(d: Date) -> (r: u32)
    requires
        d.valid(),
    ensures
        r == chrono_month(d.days as int),
        1 <= r <= 12,
{
    NaiveDate::from_num_days_from_ce_opt(d.days).unwrap().month()
}

/// `Datelike::day` of the date; claims it lies in 1 to 31.
#[verifier::external_body]
pub(crate) fn day_of(d: Date) -> (r: u32)
    requires
        d.valid(),
    ensures
        r == chrono_day(d.days as int),
        1 <= r <= 31,
{
    NaiveDate::from_num_days_from_ce_opt(d.days).unwrap().day()
}

/// Going back from a day by its weekday number reaches a Monday, and the
/// `k`-th day after that Monday (`k` below 7) has weekday `k`.
pub proof fn lemma_week_from_monday(days: int, k: int)
    requires
        0 <= k < 7,
    ensures
        weekday_number(days - weekday_number(days) + k) == k,
{
    let q = (days - 1) / 7;
    let r = (days - 1) % 7;
    assert(days - 1 == 7 * q + r && 0 <= r < 7) by (nonlinear_arith)
        requires
            q == (days - 1) / 7,
            r == (days - 1) % 7,
    ;
    assert((7 * q + k) % 7 == k) by (nonlinear_arith)
        requires
            0 <= k < 7,
    ;
}

/// `Datelike::weekday().num_days_from_monday()`; claims it is the weekday
/// that the day count gives (chrono counts day 1 from January 1 of year 1).
#[verifier::external_body]
pub(crate) fn weekday_of(d: Date) -> (r: u32)
    requires
        d.valid(),
    ensures
        r == weekday_number(d.days as int),
        r < 7,
{
    NaiveDate::from_num_days_from_ce_opt(d.days).unwrap().weekday().num_days_from_monday()
}

/// `Datelike::iso_week().week()`; claims it lies in 1 to 53.
#[verifier::external_body]
pub(crate) fn iso_week_of(d: Date) -> (r: u32)
    requires
        d.valid(),
    ensures
        r == chrono_iso_week(d.days as int),
        1 <= r <= 53,
{
    NaiveDate::from_num_days_from_ce_opt(d.days).unwrap().iso_week().week()
}

/// `NaiveDate::from_ymd_opt`, as a day number.  Claims that a returned day is
/// representable, that the first 28 days of every month of a year in
/// chrono's year range exist, and that only January 1 of the first year is
/// the first representable day; and that the day returned has the year,
/// month and day asked for.
#[verifier::external_body]
pub(crate) fn from_ymd(year: i32, month: u32, day: u32) -> (r: Option<Date>)
    ensures
        r matches Some(d) ==> chrono_from_ymd(year as int, month as int, day as int) == Some(
            d.days as int,
        ) && d.valid(),
        r is None ==> chrono_from_ymd(year as int, month as int, day as int) is None,
        MIN_YEAR <= year <= MAX_YEAR && 1 <= month <= 12 && 1 <= day <= 28 ==> r is Some,
        r matches Some(x) ==> x.days > MIN_DAYS || (year == MIN_YEAR && month == 1 && day == 1),
        r matches Some(x) ==> chrono_year(x.days as int) == year && chrono_month(x.days as int) == month
            && chrono_day(x.days as int) == day,
{
    match NaiveDate::from_ymd_opt(year, month, day) {
        Some(nd) => Some(Date { days: nd.num_days_from_ce() }),
        None => None,
    }
}

/// `Datelike::with_day`, as a day number.  Claims that a returned day is
/// representable and that every month has a first day, at most 30 days
/// before any day of the month.
#[verifier::external_body]
pub(crate) fn with_day(d: Date, day: u32) -> (r: Option<Date>)
    requires
        d.valid(),
    ensures
        r matches Some(x) ==> chrono_with_day(d.days as int, day as int) == Some(x.days as int)
            && x.valid(),
        r is None ==> chrono_with_day(d.days as int, day as int) is None,
        day == 1 ==> r is Some,
        r matches Some(x) ==> (day == 1 ==> d.days - 30 <= x.days <= d.days),
{
    match NaiveDate::from_num_days_from_ce_opt(d.days).unwrap().with_day(day) {
        Some(nd) => Some(Date { days: nd.num_days_from_ce() }),
        None => None,
    }
}

/// `NaiveDate::format(pattern)` written into a string.  What the pattern
/// produces is left to the name `chrono_format`.
#[verifier::external_body]
pub(crate) fn format_date(d: Date, pattern: &str) -> (r: String)
    requires
        d.valid(),
    ensures
        r@ == chrono_format(d.days as int, pattern@),
{
    let mut out = String::new();
    let _ = write!(out, "{}", NaiveDate::from_num_days_from_ce_opt(d.days).unwrap().format(pattern));
    out
}

// ---------------------------------------------------------------------
// Month arithmetic
// ---------------------------------------------------------------------

/// The first day of the month before the date's month, as chrono gives it
/// for the previous month's year and number (`from_ymd_opt(year', month', 1)`).
pub open spec fn prev_month_start(days: int) -> Option<int> {
    let m = chrono_month(days);
    let y = chrono_year(days);
    if m == 1 {
        chrono_from_ymd(y - 1, 12, 1)
    } else {
        chrono_from_ymd(y, m - 1, 1)
    }
}

/// The first day of the month after the date's month.
pub open spec fn next_month_start(days: int) -> Option<int> {
    let m = chrono_month(days);
    let y = chrono_year(days);
    if m == 12 {
        chrono_from_ymd(y + 1, 1, 1)
    } else {
        chrono_from_ymd(y, m + 1, 1)
    }
}

/// Whether the month before `d`'s month has a representable first day;
/// always so a year or more inside the range.
pub fn previous_month_exists(d: Date) -> (b: bool)
    requires
        d.valid(),
    ensures
        b == prev_month_start(d.days as int) is Some,
        d.inner() ==> b,
{
    let m = month_of(d);
    let y = year_of(d);
    let prev_month = if m == 1 { 12 } else { m - 1 };
    let prev_year = if m == 1 { y - 1 } else { y };
    from_ymd(prev_year, prev_month, 1).is_some()
}

/// Whether the month after `d`'s month has a representable first day;
/// always so a year or more inside the range.
pub fn next_month_exists(d: Date) -> (b: bool)
    requires
        d.valid(),
    ensures
        b == next_month_start(d.days as int) is Some,
        d.inner() ==> b,
{
    let m = month_of(d);
    let y = year_of(d);
    let next_month = if m == 12 { 1 } else { m + 1 };
    let next_year = if m == 12 { y + 1 } else { y };
    from_ymd(next_year, next_month, 1).is_some()
}

/// The first day of the month before `d`'s month.
pub fn first_of_previous_month(d: Date) -> (r: Date)
    requires
        d.valid(),
        prev_month_start(d.days as int) is Some,
    ensures
        prev_month_start(d.days as int) == Some(r.days as int),
        r.valid(),
        chrono_day(r.days as int) == 1,
        chrono_month(r.days as int) == (if chrono_month(d.days as int) == 1 {
            12
        } else {
            chrono_month(d.days as int) - 1
        }),
{
    let m = month_of(d);
    let y = year_of(d);
    let prev_month = if m == 1 { 12 } else { m - 1 };
    let prev_year = if m == 1 { y - 1 } else { y };
    from_ymd(prev_year, prev_month, 1).unwrap()
}

/// The first day of the month after `d`'s month.
pub fn first_of_next_month(d: Date) -> (r: Date)
    requires
        d.valid(),
        next_month_start(d.days as int) is Some,
    ensures
        next_month_start(d.days as int) == Some(r.days as int),
        r.valid(),
        r.days > MIN_DAYS,
        chrono_day(r.days as int) == 1,
        chrono_month(r.days as int) == (if chrono_month(d.days as int) == 12 {
            1
        } else {
            chrono_month(d.days as int) + 1
        }),
{
    let m = month_of(d);
    let y = year_of(d);
    let next_month = if m == 12 { 1 } else { m + 1 };
    let next_year = if m == 12 { y + 1 } else { y };
    from_ymd(next_year, next_month, 1).unwrap()
}

// ---------------------------------------------------------------------
// Timestamps as the machine's clock and time zone see them
// ---------------------------------------------------------------------

/// A moment read in the machine's local time zone: its day, hour and minute.
#[derive(Clone, Copy, Debug, PartialEq, Eq, Structural)]
pub struct LocalStamp {
    pub day: Date,
    pub hour: u32,
    pub minute: u32,
}

impl LocalStamp {
    pub open spec fn valid(self) -> bool {
        self.day.valid() && self.hour < 24 && self.minute < 60
    }
}

/// Name for whether `DateTime::parse_from_rfc3339` accepts the text.
pub uninterp spec fn chrono_rfc3339_valid(s: Seq<char>) -> bool;

/// `DateTime::parse_from_rfc3339` followed by `with_timezone(&Local)`.  The
/// moment read depends on the machine's time zone, so nothing is said of it
/// beyond its being a valid local day, hour and minute; whether it exists at
/// all depends on the text alone.
#[verifier::external_body]
pub(crate) fn local_stamp(s: &str) -> (r: Option<LocalStamp>)
    ensures
        r is Some == chrono_rfc3339_valid(s@),
        r matches Some(t) ==> t.valid(),
{
    match DateTime::parse_from_rfc3339(s) {
        Ok(dt) => {
            let l = dt.with_timezone(&Local);
            Some(LocalStamp { day: Date { days: l.date_naive().num_days_from_ce() }, hour: l.hour(), minute: l.minute() })
        },
        Err(_) => None,
    }
}

/// Seconds from the moment `DateTime::parse_from_rfc3339` reads in `s` to
/// `Utc::now()`.  The value depends on the clock, so only its existence is
/// stated: it exists exactly when the text parses.
#[verifier::external_body]
pub(crate) fn seconds_since(s: &str) -> (r: Option<i64>)
    ensures
        r is Some == chrono_rfc3339_valid(s@),
{
    match DateTime::parse_from_rfc3339(s) {
        Ok(dt) => Some(Utc::now().signed_duration_since(dt.with_timezone(&Utc)).num_seconds()),
        Err(_) => None,
    }
}

} // verus!
