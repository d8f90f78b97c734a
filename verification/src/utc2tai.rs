//! Conversion from UTC to TAI.
use crate::convtbl::taiutc::ForwardRow;
use crate::convtbl::taiutc::TaiUtcTable;
use crate::convtbl::taiutc::dominant_forward_row;
use crate::datetime::DateTime;
use crate::datetime::Instant;
use crate::datetime::converted_text;
use crate::datetime::instant_result;
use crate::datetime::written_text;
use crate::error::Error;
use crate::error::ErrorView;
use crate::error::text_result;
use vstd::prelude::*;

verus! {

/// The TAI instant of a UTC instant under a table of the differences
/// TAI - UTC.
///
/// The row in effect is looked up by the instant as it is written, a leap
/// second included. The result is the continuous elapsed time of the instant
/// plus the offset of that row. An instant before the first row is too low;
/// a result that is not representable is out of range.
pub open spec fn utc2tai_instant(rows: Seq<ForwardRow>, utc: Instant) -> Result<
    Instant,
    ErrorView,
> {
    match dominant_forward_row(rows, utc) {
        None => Err(ErrorView::DatetimeTooLowError(utc.displayed())),
        Some(row) => {
            let tai = utc.normalized().plus_seconds(row.offset);
            if tai.representable() {
                Ok(tai)
            } else {
                Err(ErrorView::DatetimeOutOfRangeError(utc.displayed()))
            }
        },
    }
}

/// Converts a UTC datetime given as text to TAI, written in the same format.
///
/// Leap seconds are taken into account as `tai_utc_table` gives them.
pub fn utc2tai(datetime: &str, tai_utc_table: &TaiUtcTable, dt_fmt: &str) -> (r: Result<
    String,
    Error,
>)
    ensures
        text_result(r) == converted_text(
            datetime@,
            dt_fmt@,
            |utc: Instant| utc2tai_instant(tai_utc_table@, utc),
        ),
{
    match DateTime::parse_from_str(datetime, dt_fmt) {
        None => Err(Error::DatetimeParseError(datetime.to_owned())),
        Some(utc) => match utc2tai_dt(&utc, tai_utc_table) {
            Err(e) => Err(e),
            Ok(tai) => written_text(datetime, tai.format(dt_fmt)),
        },
    }
}

/// Converts a UTC instant to TAI.
///
/// Leap seconds are taken into account as `tai_utc_table` gives them.
pub fn utc2tai_dt(datetime: &DateTime, tai_utc_table: &TaiUtcTable) -> (r: Result<
    DateTime,
    Error,
>)
    ensures
        instant_result(r) == utc2tai_instant(tai_utc_table@, datetime@),
{
    match tai_utc_table.pick_dominant_row(datetime) {
        Err(e) => Err(e),
        Ok(row) => match datetime.shifted(row.diff_seconds) {
            None => Err(Error::DatetimeOutOfRangeError(datetime.display())),
            Some(tai) => Ok(tai),
        },
    }
}

} // verus!
