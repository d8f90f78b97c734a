//! Conversion from TAI to UTC.
use crate::convtbl::utctai::ReverseRow;
use crate::convtbl::utctai::UtcTaiTable;
use crate::convtbl::utctai::dominant_reverse_row;
use crate::datetime::DateTime;
use crate::datetime::Instant;
use crate::datetime::converted_text;
use crate::datetime::denormalize_leap;
use crate::datetime::instant_result;
use crate::datetime::normalize_leap;
use crate::datetime::written_text;
use crate::error::Error;
use crate::error::ErrorView;
use crate::error::text_result;
use vstd::prelude::*;

verus! {

/// The UTC instant of a TAI instant under a table of the differences
/// UTC - TAI.
///
/// TAI has no leap seconds, so the instant is taken by its continuous
/// elapsed time. The row in effect at it gives the offset that is added to
/// the seconds and the correction that is put on the sub-second part, which
/// shows the instant as a leap second. An instant before the first row is
/// too low; an instant or a result that is not representable is out of
/// range.
pub open spec fn tai2utc_instant(rows: Seq<ReverseRow>, tai: Instant) -> Result<
    Instant,
    ErrorView,
> {
    let continuous = tai.normalized();
    if !continuous.representable() {
        Err(ErrorView::DatetimeOutOfRangeError(tai.displayed()))
    } else {
        match dominant_reverse_row(rows, continuous) {
            None => Err(ErrorView::DatetimeTooLowError(tai.displayed())),
            Some(row) => {
                let utc = continuous.plus_seconds(row.offset).with_correction(row.correction);
                if utc.representable() {
                    Ok(utc)
                } else {
                    Err(ErrorView::DatetimeOutOfRangeError(tai.displayed()))
                }
            },
        }
    }
}

/// Converts a TAI datetime given as text to UTC, written in the same format.
///
/// Leap seconds are taken into account as `utc_tai_table` gives them.
pub fn tai2utc(datetime: &str, utc_tai_table: &UtcTaiTable, dt_fmt: &str) -> (r: Result<
    String,
    Error,
>)
    ensures
        text_result(r) == converted_text(
            datetime@,
            dt_fmt@,
            |tai: Instant| tai2utc_instant(utc_tai_table@, tai),
        ),
{
    match DateTime::parse_from_str(datetime, dt_fmt) {
        None => Err(Error::DatetimeParseError(datetime.to_owned())),
        Some(tai) => match tai2utc_dt(&tai, utc_tai_table) {
            Err(e) => Err(e),
            Ok(utc) => written_text(datetime, utc.format(dt_fmt)),
        },
    }
}

/// Converts a TAI instant to UTC.
///
/// Leap seconds are taken into account as `utc_tai_table` gives them.
pub fn tai2utc_dt(datetime: &DateTime, utc_tai_table: &UtcTaiTable) -> (r: Result<
    DateTime,
    Error,
>)
    ensures
        instant_result(r) == tai2utc_instant(utc_tai_table@, datetime@),
{
    let continuous: DateTime = match normalize_leap(datetime) {
        None => {
            return Err(Error::DatetimeOutOfRangeError(datetime.display()));
        },
        Some(continuous) => continuous,
    };
    let row = match utc_tai_table.pick_dominant_row(&continuous) {
        Err(_) => {
            return Err(Error::DatetimeTooLowError(datetime.display()));
        },
        Ok(row) => row,
    };
    proof {
        use_type_invariant(datetime);
        use_type_invariant(&continuous);
    }
    let moved: DateTime = match continuous.shifted(row.diff_seconds) {
        None => {
            return Err(Error::DatetimeOutOfRangeError(datetime.display()));
        },
        Some(moved) => moved,
    };
    match denormalize_leap(&moved, row.corr_seconds) {
        None => Err(Error::DatetimeOutOfRangeError(datetime.display())),
        Some(utc) => Ok(utc),
    }
}

} // verus!
