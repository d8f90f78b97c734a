//! The calendar work that is left to the `chrono` crate: reading a datetime
//! from text, writing one as text, and finding the civil date of an instant.
//!
//! Nothing in this file is proved. Each function states what the library
//! takes for granted of the `chrono` function that it calls.
use crate::datetime::DateTime;
use chrono::Datelike;
use chrono::NaiveDateTime;
use chrono::Timelike;
use vstd::prelude::*;

verus! {

/// What `chrono::NaiveDateTime::parse_from_str` makes of `text` under the
/// format `fmt`: the timestamp and the nanosecond of the datetime it returns,
/// or `None` where it returns an error.
pub uninterp spec fn parsed_timestamp(text: Seq<char>, fmt: Seq<char>) -> Option<(int, int)>;

/// What `chrono::NaiveDateTime::format` writes for the datetime with the
/// given timestamp and nanosecond under the format `fmt`, or `None` where
/// there is no such datetime or writing it fails.
pub uninterp spec fn formatted_text(secs: int, nanos: int, fmt: Seq<char>) -> Option<Seq<char>>;

/// What `Display` of `chrono::NaiveDateTime` writes for the datetime with the
/// given timestamp and nanosecond.
pub uninterp spec fn displayed_text(secs: int, nanos: int) -> Seq<char>;

/// The year that `chrono::Datelike::year` gives for the datetime with the
/// given timestamp.
pub uninterp spec fn civil_year(secs: int) -> int;

/// The month that `chrono::Datelike::month` gives for the datetime with the
/// given timestamp.
pub uninterp spec fn civil_month(secs: int) -> int;

/// The day of the month that `chrono::Datelike::day` gives for the datetime
/// with the given timestamp.
pub uninterp spec fn civil_day(secs: int) -> int;

/// Calls `chrono::NaiveDateTime::parse_from_str` and hands out the timestamp
/// and the nanosecond of the datetime that it returns.
///
/// Taken for granted: the outcome depends on `text` and `fmt` alone.
#[verifier::external_body]
pub(crate) fn parse_timestamp(text: &str, fmt: &str) -> (r: Option<(i64, u32)>)
    ensures
        r matches Some(p) ==> parsed_timestamp(text@, fmt@) == Some((p.0 as int, p.1 as int)),
        r is None ==> parsed_timestamp(text@, fmt@) is None,
{
    match NaiveDateTime::parse_from_str(text, fmt) {
        Ok(parsed) => Some((parsed.and_utc().timestamp(), parsed.nanosecond())),
        Err(_) => None,
    }
}

/// Calls `chrono::NaiveDateTime::format` and writes what it returns into a
/// string, which fails where the format holds an item that a datetime
/// without a time zone cannot fill.
///
/// Taken for granted: the outcome depends on the instant and `fmt` alone.
#[verifier::external_body]
pub(crate) fn format_datetime(datetime: &DateTime, fmt: &str) -> (r: Option<String>)
    ensures
        r matches Some(text) ==> formatted_text(datetime@.secs, datetime@.nanos, fmt@) == Some(
            text@,
        ),
        r is None ==> formatted_text(datetime@.secs, datetime@.nanos, fmt@) is None,
{
    let utc = chrono::DateTime::from_timestamp(datetime.timestamp(), datetime.nanosecond())?;
    let mut text = String::new();
    match utc.naive_utc().format(fmt).write_to(&mut text) {
        Ok(()) => Some(text),
        Err(_) => None,
    }
}

/// Calls `to_string` of `chrono::NaiveDateTime`, which writes the date, a
/// space and the time.
///
/// Taken for granted: `chrono::DateTime::from_timestamp` accepts every
/// representable instant, and what is written depends on the instant alone.
#[verifier::external_body]
pub(crate) fn display_datetime(datetime: &DateTime) -> (text: String)
    ensures
        text@ == displayed_text(datetime@.secs, datetime@.nanos),
{
    chrono::DateTime::from_timestamp(datetime.timestamp(), datetime.nanosecond())
        .unwrap()
        .naive_utc()
        .to_string()
}

/// Calls `chrono::Datelike::year` on the datetime of the instant.
///
/// Taken for granted: `chrono::DateTime::from_timestamp` accepts every
/// representable instant, and the year depends on the timestamp alone.
#[verifier::external_body]
pub(crate) fn year_of(datetime: &DateTime) -> (year: i32)
    ensures
        year == civil_year(datetime@.secs),
{
    chrono::DateTime::from_timestamp(datetime.timestamp(), datetime.nanosecond())
        .unwrap()
        .naive_utc()
        .year()
}

/// Calls `chrono::Datelike::month` on the datetime of the instant.
///
/// Taken for granted: `chrono::DateTime::from_timestamp` accepts every
/// representable instant, and the month depends on the timestamp alone.
#[verifier::external_body]
pub(crate) fn month_of(datetime: &DateTime) -> (month: u32)
    ensures
        month == civil_month(datetime@.secs),
{
    chrono::DateTime::from_timestamp(datetime.timestamp(), datetime.nanosecond())
        .unwrap()
        .naive_utc()
        .month()
}

/// Calls `chrono::Datelike::day` on the datetime of the instant.
///
/// Taken for granted: `chrono::DateTime::from_timestamp` accepts every
/// representable instant, and the day depends on the timestamp alone.
#[verifier::external_body]
pub(crate) fn day_of(datetime: &DateTime) -> (day: u32)
    ensures
        day == civil_day(datetime@.secs),
{
    chrono::DateTime::from_timestamp(datetime.timestamp(), datetime.nanosecond())
        .unwrap()
        .naive_utc()
        .day()
}

} // verus!
