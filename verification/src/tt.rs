//! Conversion between TT and TAI, which differ by a fixed 32.184 seconds.
use crate::datetime::DateTime;
use crate::datetime::Instant;
use crate::datetime::converted_text;
use crate::datetime::instant_result;
use crate::datetime::written_text;
use crate::error::Error;
use crate::error::ErrorView;
use crate::error::text_result;
use vstd::prelude::*;

verus! {

/// TT - TAI in milliseconds.
pub const D_TT_TAI_MS: i64 = 32184;

/// The TAI instant of a TT instant: its continuous elapsed time less 32.184
/// seconds. A result that is not representable is out of range.
pub open spec fn tt2tai_instant(tt: Instant) -> Result<Instant, ErrorView> {
    let tai = tt.normalized().plus_millis(-D_TT_TAI_MS);
    if tai.representable() {
        Ok(tai)
    } else {
        Err(ErrorView::DatetimeOutOfRangeError(tt.displayed()))
    }
}

/// The TT instant of a TAI instant: its continuous elapsed time plus 32.184
/// seconds. A result that is not representable is out of range.
pub open spec fn tai2tt_instant(tai: Instant) -> Result<Instant, ErrorView> {
    let tt = tai.normalized().plus_millis(D_TT_TAI_MS as int);
    if tt.representable() {
        Ok(tt)
    } else {
        Err(ErrorView::DatetimeOutOfRangeError(tai.displayed()))
    }
}

/// Converts a TT datetime given as text to TAI, written in the same format.
pub fn tt2tai(datetime: &str, dt_fmt: &str) -> (r: Result<String, Error>)
    ensures
        text_result(r) == converted_text(datetime@, dt_fmt@, |tt: Instant| tt2tai_instant(tt)),
{
    match DateTime::parse_from_str(datetime, dt_fmt) {
        None => Err(Error::DatetimeParseError(datetime.to_owned())),
        Some(tt) => match tt2tai_dt(&tt) {
            Err(e) => Err(e),
            Ok(tai) => written_text(datetime, tai.format(dt_fmt)),
        },
    }
}

/// Converts a TT instant to TAI.
pub fn tt2tai_dt(datetime: &DateTime) -> (r: Result<DateTime, Error>)
    ensures
        instant_result(r) == tt2tai_instant(datetime@),
{
    match datetime.shifted_millis(-D_TT_TAI_MS) {
        None => Err(Error::DatetimeOutOfRangeError(datetime.display())),
        Some(tai) => Ok(tai),
    }
}

/// Converts a TAI datetime given as text to TT, written in the same format.
pub fn tai2tt(datetime: &str, dt_fmt: &str) -> (r: Result<String, Error>)
    ensures
        text_result(r) == converted_text(datetime@, dt_fmt@, |tai: Instant| tai2tt_instant(tai)),
{
    match DateTime::parse_from_str(datetime, dt_fmt) {
        None => Err(Error::DatetimeParseError(datetime.to_owned())),
        Some(tai) => match tai2tt_dt(&tai) {
            Err(e) => Err(e),
            Ok(tt) => written_text(datetime, tt.format(dt_fmt)),
        },
    }
}

/// Converts a TAI instant to TT.
pub fn tai2tt_dt(datetime: &DateTime) -> (r: Result<DateTime, Error>)
    ensures
        instant_result(r) == tai2tt_instant(datetime@),
{
    match datetime.shifted_millis(D_TT_TAI_MS) {
        None => Err(Error::DatetimeOutOfRangeError(datetime.display())),
        Some(tt) => Ok(tt),
    }
}

} // verus!
