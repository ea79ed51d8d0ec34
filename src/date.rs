//! Calendar dates as day numbers, so that stays are plain integer ranges.

use vstd::prelude::*;

verus! {

/// The earliest year that a date can have.
pub const MIN_YEAR: i32 = -262143;

/// The latest year that a date can have.
pub const MAX_YEAR: i32 = 262142;

/// A day of the proleptic Gregorian calendar, counted so that
/// 0001-01-01 is day 1.
#[derive(Debug, Clone, Copy, PartialEq, Eq, Structural)]
pub struct CalendarDate {
    pub day_number: i32,
}

/// Leap years of the proleptic Gregorian calendar.
pub open spec fn is_leap_year(year: int) -> bool {
    (year % 4 == 0 && year % 100 != 0) || year % 400 == 0
}

pub open spec fn days_in_month(year: int, month: int) -> int {
    if month == 2 {
        if is_leap_year(year) {
            29
        } else {
            28
        }
    } else if month == 4 || month == 6 || month == 9 || month == 11 {
        30
    } else {
        31
    }
}

/// Days of the year before the first of `month`.
pub open spec fn days_before_month(year: int, month: int) -> int {
    let common: int = if month == 1 {
        0
    } else if month == 2 {
        31
    } else if month == 3 {
        59
    } else if month == 4 {
        90
    } else if month == 5 {
        120
    } else if month == 6 {
        151
    } else if month == 7 {
        181
    } else if month == 8 {
        212
    } else if month == 9 {
        243
    } else if month == 10 {
        273
    } else if month == 11 {
        304
    } else {
        334
    };
    common + if month > 2 && is_leap_year(year) {
        1int
    } else {
        0int
    }
}

/// The day number of a calendar date, 0001-01-01 being day 1: the days of
/// the whole years before it (with floor division for years before 1),
/// then those of the months before it, then its day.
pub open spec fn ce_day_number(year: int, month: int, day: int) -> int {
    let y = year - 1;
    365 * y + y / 4 - y / 100 + y / 400 + days_before_month(year, month) + day
}

/// Whether the year, month and day name an existing date in range.
pub open spec fn valid_civil_date(year: int, month: int, day: int) -> bool {
    MIN_YEAR <= year <= MAX_YEAR && 1 <= month <= 12 && 1 <= day <= days_in_month(year, month)
}

/// Relies on chrono's `NaiveDate::from_ymd_opt`, which is `None` exactly for
/// dates that do not exist or lie outside its year range, and on
/// `Datelike::num_days_from_ce` for the day number of the date it made.
#[verifier::external_body]
fn day_number_of(year: i32, month: u32, day: u32) -> (r: Option<i32>)
    ensures
        r.is_some() <==> valid_civil_date(year as int, month as int, day as int),
        r.is_some() ==> r.unwrap() == ce_day_number(year as int, month as int, day as int),
{
    match chrono::NaiveDate::from_ymd_opt(year, month, day) {
        Some(d) => Some(chrono::Datelike::num_days_from_ce(&d)),
        None => None,
    }
}

impl CalendarDate {
    /// The date with this year, month and day; `None` where no such date
    /// exists.
    pub fn from_ymd(year: i32, month: u32, day: u32) -> (r: Option<CalendarDate>)
        ensures
            r.is_some() <==> valid_civil_date(year as int, month as int, day as int),
            r.is_some() ==> r.unwrap().day_number == ce_day_number(
                year as int,
                month as int,
                day as int,
            ),
    {
        match day_number_of(year, month, day) {
            Some(n) => Some(CalendarDate { day_number: n }),
            None => None,
        }
    }

    /// The date with this day number.
    pub fn from_day_number(day_number: i32) -> (r: CalendarDate)
        ensures
            r.day_number == day_number,
    {
        CalendarDate { day_number }
    }
}

/// Whole nights between arriving on `check_in` and leaving on `check_out`;
/// `None` unless `check_out` comes strictly after `check_in`.
pub fn nights_between(check_in: CalendarDate, check_out: CalendarDate) -> (r: Option<u64>)
    ensures
        r.is_some() <==> check_out.day_number > check_in.day_number,
        r.is_some() ==> r.unwrap() == check_out.day_number - check_in.day_number,
{
    if check_out.day_number > check_in.day_number {
        Some((check_out.day_number as i64 - check_in.day_number as i64) as u64)
    } else {
        None
    }
}

} // verus!
