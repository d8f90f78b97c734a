//! Conversion from UT to the Modified Julian Date. Every day is taken as
//! 86400 seconds: leap seconds are not taken into account.
use crate::calendar::civil_day;
use crate::calendar::civil_month;
use crate::calendar::civil_year;
use crate::calendar::day_of;
use crate::calendar::month_of;
use crate::calendar::year_of;
use crate::datetime::DateTime;
use crate::datetime::Instant;
use crate::datetime::parsed_instant;
use crate::error::Error;
use crate::error::ErrorView;
use vstd::prelude::*;

verus! {

/// Seconds in one day.
pub const SECS_PER_DAY: i64 = 86_400;

/// Nanoseconds in one day.
pub const NANOS_PER_DAY: u64 = 86_400_000_000_000;

/// A Modified Julian Date, held exactly: the whole days, and the part of a
/// day in nanoseconds. The date as a number is
/// `day + nanos_of_day / NANOS_PER_DAY`.
#[derive(Debug, Clone, Copy, PartialEq, Eq)]
pub struct Mjd {
    /// The whole days since 1858-11-17.
    pub day: i64,
    /// Nanoseconds since midnight.
    pub nanos_of_day: u64,
}

/// The Modified Julian Date of the midnight that starts a day of the
/// Gregorian calendar.
///
/// January and February count as the months 13 and 14 of the year before.
/// With `y` and `m` taken so, the day number is
/// `[365.25 y] + [y / 400] - [y / 100] + [30.59 (m - 2)] + d - 678912`,
/// where the brackets round down.
pub open spec fn mjd_day_number(year: int, month: int, day: int) -> int {
    let y = if month <= 2 {
        year - 1
    } else {
        year
    };
    let m = if month <= 2 {
        month + 12
    } else {
        month
    };
    (1461 * y) / 4 + y / 400 - y / 100 + (3059 * (m - 2)) / 100 + day - 678912
}

/// Whether a year of the Gregorian calendar has a 29th of February.
pub open spec fn is_leap_year(year: int) -> bool {
    year % 4 == 0 && (year % 100 != 0 || year % 400 == 0)
}

/// The number of days of a month of the Gregorian calendar.
pub open spec fn days_in_month(year: int, month: int) -> int {
    if month == 2 {
        if is_leap_year(year) {
            29
        } else {
            28
        }
    } else if month == 4 || month == 6 || month == 9 || month == 11 {
        30
    } else {
        31
    }
}

/// Whether the Gregorian calendar has the given day.
pub open spec fn is_date(year: int, month: int, day: int) -> bool {
    1 <= month <= 12 && 1 <= day <= days_in_month(year, month)
}

/// The day of the Gregorian calendar that follows the given day.
pub open spec fn next_date(year: int, month: int, day: int) -> (int, int, int) {
    if day < days_in_month(year, month) {
        (year, month, day + 1)
    } else if month < 12 {
        (year, month + 1, 1)
    } else {
        (year + 1, 1, 1)
    }
}

/// The day numbers count the days of the Gregorian calendar: the day number
/// of 1858-11-17 is 0, and the day that follows a day has the next number.
pub proof fn law_day_numbers_count_days(year: int, month: int, day: int)
    requires
        is_date(year, month, day),
    ensures
        mjd_day_number(1858, 11, 17) == 0,
        ({
            let next = next_date(year, month, day);
            &&& is_date(next.0, next.1, next.2)
            &&& mjd_day_number(next.0, next.1, next.2) == mjd_day_number(year, month, day) + 1
        }),
{
}

/// The time of an instant since its midnight in nanoseconds, the whole
/// sub-second part counted.
pub open spec fn nanos_since_midnight(instant: Instant) -> int {
    (instant.secs % (SECS_PER_DAY as int)) * 1_000_000_000 + instant.nanos
}

/// The Modified Julian Date of an instant: the day number of its civil date,
/// and its time since midnight.
pub open spec fn mjd_of(instant: Instant) -> (int, int) {
    (
        mjd_day_number(
            civil_year(instant.secs),
            civil_month(instant.secs),
            civil_day(instant.secs),
        ),
        nanos_since_midnight(instant),
    )
}

/// The Modified Julian Date of the midnight that starts the given day of the
/// Gregorian calendar.
pub fn mjd_date(year: i32, month: u32, day: u32) -> (n: i64)
    ensures
        n == mjd_day_number(year as int, month as int, day as int),
{
    let y: i64 = if month <= 2 {
        year as i64 - 1
    } else {
        year as i64
    };
    let m: i64 = if month <= 2 {
        month as i64 + 12
    } else {
        month as i64
    };
    let days_of_years: i64 = match (1461 * y).checked_div_euclid(4) {
        Some(q) => q,
        None => 0,
    };
    let fourth_centuries: i64 = match y.checked_div_euclid(400) {
        Some(q) => q,
        None => 0,
    };
    let centuries: i64 = match y.checked_div_euclid(100) {
        Some(q) => q,
        None => 0,
    };
    let days_of_months: i64 = (3059 * (m - 2)) / 100;
    days_of_years + fourth_centuries - centuries + days_of_months + day as i64 - 678912
}

/// Converts a UT instant to the Modified Julian Date.
pub fn ut2mjd(datetime: &DateTime) -> (r: Result<Mjd, Error>)
    ensures
        r matches Ok(mjd) && (mjd.day as int, mjd.nanos_of_day as int) == mjd_of(datetime@),
{
    let day: i64 = mjd_date(year_of(datetime), month_of(datetime), day_of(datetime));
    let seconds: i64 = match datetime.timestamp().checked_rem_euclid(SECS_PER_DAY) {
        Some(seconds) => seconds,
        None => 0,
    };
    let nanos_of_day: u64 = seconds as u64 * 1_000_000_000 + datetime.nanosecond() as u64;
    Ok(Mjd { day, nanos_of_day })
}

/// Converts a UT datetime given as text to the Modified Julian Date.
///
/// A text that is no datetime under the format gives a parse error that
/// holds the text.
pub fn ut2mjd_str(datetime: &str, dt_fmt: &str) -> (r: Result<Mjd, Error>)
    ensures
        match parsed_instant(datetime@, dt_fmt@) {
            None => r matches Err(e) && e@ == ErrorView::DatetimeParseError(datetime@),
            Some(instant) => r matches Ok(mjd) && (mjd.day as int, mjd.nanos_of_day as int)
                == mjd_of(instant),
        },
{
    match DateTime::parse_from_str(datetime, dt_fmt) {
        None => Err(Error::DatetimeParseError(datetime.to_owned())),
        Some(instant) => ut2mjd(&instant),
    }
}

} // verus!
