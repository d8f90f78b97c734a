//! Conversion from TT to UTC, by way of TAI.
use crate::convtbl::utctai::ReverseRow;
use crate::convtbl::utctai::UtcTaiTable;
use crate::datetime::DateTime;
use crate::datetime::Instant;
use crate::datetime::converted_text;
use crate::datetime::instant_result;
use crate::datetime::written_text;
use crate::error::Error;
use crate::error::ErrorView;
use crate::error::text_result;
use crate::tai2utc::tai2utc_dt;
use crate::tai2utc::tai2utc_instant;
use crate::tt::tt2tai_dt;
use crate::tt::tt2tai_instant;
use vstd::prelude::*;

verus! {

/// The UTC instant of a TT instant: TT to TAI, then TAI to UTC.
///
/// Where the second step finds the instant too low or out of range, the
/// error names the TT instant that was given, not the TAI instant in
/// between.
pub open spec fn tt2utc_instant(rows: Seq<ReverseRow>, tt: Instant) -> Result<
    Instant,
    ErrorView,
> {
    match tt2tai_instant(tt) {
        Err(e) => Err(e),
        Ok(tai) => match tai2utc_instant(rows, tai) {
            Err(e) => Err(e.cited_for(tt.displayed())),
            Ok(utc) => Ok(utc),
        },
    }
}

/// Converts a TT datetime given as text to UTC, written in the same format.
///
/// Leap seconds are taken into account as `utc_tai_table` gives them.
pub fn tt2utc(datetime: &str, utc_tai_table: &UtcTaiTable, dt_fmt: &str) -> (r: Result<
    String,
    Error,
>)
    ensures
        text_result(r) == converted_text(
            datetime@,
            dt_fmt@,
            |tt: Instant| tt2utc_instant(utc_tai_table@, tt),
        ),
{
    match DateTime::parse_from_str(datetime, dt_fmt) {
        None => Err(Error::DatetimeParseError(datetime.to_owned())),
        Some(tt) => match tt2utc_dt(&tt, utc_tai_table) {
            Err(e) => Err(e),
            Ok(utc) => written_text(datetime, utc.format(dt_fmt)),
        },
    }
}

/// Converts a TT instant to UTC.
///
/// Leap seconds are taken into account as `utc_tai_table` gives them.
pub fn tt2utc_dt(datetime: &DateTime, utc_tai_table: &UtcTaiTable) -> (r: Result<
    DateTime,
    Error,
>)
    ensures
        instant_result(r) == tt2utc_instant(utc_tai_table@, datetime@),
{
    let tai: DateTime = match tt2tai_dt(datetime) {
        Err(e) => {
            return Err(e);
        },
        Ok(tai) => tai,
    };
    match tai2utc_dt(&tai, utc_tai_table) {
        Err(e) => Err(e.cited_for(datetime.display())),
        Ok(utc) => Ok(utc),
    }
}

} // verus!
