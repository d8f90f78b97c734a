//! Conversion from UTC to TT, by way of TAI.
use crate::convtbl::taiutc::ForwardRow;
use crate::convtbl::taiutc::TaiUtcTable;
use crate::datetime::DateTime;
use crate::datetime::Instant;
use crate::datetime::converted_text;
use crate::datetime::instant_result;
use crate::datetime::written_text;
use crate::error::Error;
use crate::error::ErrorView;
use crate::error::text_result;
use crate::tt::tai2tt_dt;
use crate::tt::tai2tt_instant;
use crate::utc2tai::utc2tai_dt;
use crate::utc2tai::utc2tai_instant;
use vstd::prelude::*;

verus! {

/// The TT instant of a UTC instant: UTC to TAI, then TAI to TT.
///
/// Where the second step finds the instant out of range, the error names
/// the UTC instant that was given, not the TAI instant in between.
pub open spec fn utc2tt_instant(rows: Seq<ForwardRow>, utc: Instant) -> Result<
    Instant,
    ErrorView,
> {
    match utc2tai_instant(rows, utc) {
        Err(e) => Err(e),
        Ok(tai) => match tai2tt_instant(tai) {
            Err(e) => Err(e.cited_for(utc.displayed())),
            Ok(tt) => Ok(tt),
        },
    }
}

/// Converts a UTC datetime given as text to TT, written in the same format.
///
/// Leap seconds are taken into account as `tai_utc_table` gives them.
pub fn utc2tt(datetime: &str, tai_utc_table: &TaiUtcTable, dt_fmt: &str) -> (r: Result<
    String,
    Error,
>)
    ensures
        text_result(r) == converted_text(
            datetime@,
            dt_fmt@,
            |utc: Instant| utc2tt_instant(tai_utc_table@, utc),
        ),
{
    match DateTime::parse_from_str(datetime, dt_fmt) {
        None => Err(Error::DatetimeParseError(datetime.to_owned())),
        Some(utc) => match utc2tt_dt(&utc, tai_utc_table) {
            Err(e) => Err(e),
            Ok(tt) => written_text(datetime, tt.format(dt_fmt)),
        },
    }
}

/// Converts a UTC instant to TT.
///
/// Leap seconds are taken into account as `tai_utc_table` gives them.
pub fn utc2tt_dt(datetime: &DateTime, tai_utc_table: &TaiUtcTable) -> (r: Result<
    DateTime,
    Error,
>)
    ensures
        instant_result(r) == utc2tt_instant(tai_utc_table@, datetime@),
{
    let tai: DateTime = match utc2tai_dt(datetime, tai_utc_table) {
        Err(e) => {
            return Err(e);
        },
        Ok(tai) => tai,
    };
    match tai2tt_dt(&tai) {
        Err(e) => Err(e.cited_for(datetime.display())),
        Ok(tt) => Ok(tt),
    }
}

} // verus!
