use chrono::Datelike;
use chrono::NaiveDate;
use chrono::NaiveDateTime;
use chrono::TimeDelta;
use chrono::Timelike;
use convdate::convtbl::DiffTaiUtc;
use convdate::convtbl::TaiUtcTable;
use convdate::convtbl::UtcTaiTable;
use convdate::datetime::DateTime;
use convdate::error::Error;
use convdate::tai2tt_dt;
use convdate::tai2utc_dt;
use convdate::tt2tai_dt;
use convdate::utc2tai_dt;

fn naive(datetime: &DateTime) -> NaiveDateTime {
    chrono::DateTime::from_timestamp(datetime.timestamp(), datetime.nanosecond()).unwrap().naive_utc()
}

fn held(datetime: &NaiveDateTime) -> DateTime {
    DateTime::from_timestamp(datetime.and_utc().timestamp(), datetime.nanosecond()).unwrap()
}

fn midnight(year: i32, month: u32, day: u32) -> NaiveDateTime {
    NaiveDate::from_ymd_opt(year, month, day).unwrap().and_hms_opt(0, 0, 0).unwrap()
}

fn rows() -> Vec<(NaiveDateTime, i64)> {
    vec![
        (midnight(2015, 7, 1), 36),
        (midnight(2017, 1, 1), 37),
        (midnight(2018, 1, 1), 36),
        (midnight(2019, 1, 1), 38),
        (midnight(2020, 1, 1), 36),
    ]
}

fn table() -> TaiUtcTable {
    TaiUtcTable::from(
        rows()
            .iter()
            .map(|(datetime, diff_seconds)| DiffTaiUtc {
                datetime: held(datetime),
                diff_seconds: *diff_seconds,
            })
            .collect::<Vec<DiffTaiUtc>>(),
    )
}

/// The calendar's own way to the continuous time of a datetime: the fields
/// at their second, plus the whole sub-second part as a duration.
fn calendar_normalize(datetime: &NaiveDateTime) -> NaiveDateTime {
    NaiveDate::from_ymd_opt(datetime.year(), datetime.month(), datetime.day())
        .unwrap()
        .and_hms_opt(datetime.hour(), datetime.minute(), datetime.second())
        .unwrap()
        + TimeDelta::nanoseconds(datetime.nanosecond().into())
}

/// UTC to TAI by the calendar's own comparison and addition.
fn calendar_utc2tai(datetime: &NaiveDateTime) -> Option<NaiveDateTime> {
    let mut dominant = None;
    for (start, diff_seconds) in rows() {
        if datetime < &start {
            break;
        }
        dominant = Some(diff_seconds);
    }
    dominant.map(|diff_seconds| calendar_normalize(datetime) + TimeDelta::seconds(diff_seconds))
}

/// The rows for TAI to UTC by the calendar's own addition.
fn calendar_reverse_rows() -> Vec<(NaiveDateTime, i64, u32)> {
    let mut reverse = Vec::new();
    let mut previous = i64::MAX;
    for (start, diff_seconds) in rows() {
        if previous < diff_seconds {
            let correction = diff_seconds - previous;
            reverse.push((
                calendar_normalize(&start) + TimeDelta::seconds(diff_seconds - correction),
                -diff_seconds,
                correction as u32,
            ));
        }
        reverse.push((calendar_normalize(&start) + TimeDelta::seconds(diff_seconds), -diff_seconds, 0));
        previous = diff_seconds;
    }
    reverse
}

/// TAI to UTC by the calendar's own comparison and addition; the inner
/// `None` where the calendar cannot hold the result.
fn calendar_tai2utc(datetime: &NaiveDateTime) -> Option<Option<NaiveDateTime>> {
    let mut dominant = None;
    for (start, diff_seconds, correction) in calendar_reverse_rows() {
        if datetime < &start {
            break;
        }
        dominant = Some((diff_seconds, correction));
    }
    dominant.map(|(diff_seconds, correction)| {
        let moved = *datetime + TimeDelta::seconds(diff_seconds);
        chrono::DateTime::from_timestamp(
            moved.and_utc().timestamp(),
            moved.nanosecond() + correction * 1_000_000_000,
        )
        .map(|utc| utc.naive_utc())
    })
}

fn instants_around_the_rows(with_leap_seconds: bool) -> Vec<NaiveDateTime> {
    let mut instants = Vec::new();
    for (start, _) in rows() {
        for second in -70..70 {
            for milli in [0, 1, 500, 999] {
                let instant = start + TimeDelta::seconds(second) + TimeDelta::milliseconds(milli);
                instants.push(instant);
                if with_leap_seconds && instant.second() == 59 {
                    instants.push(instant.with_nanosecond(instant.nanosecond() + 1_000_000_000).unwrap());
                }
            }
        }
    }
    instants
}

#[test]
fn test_reverse_rows_agree_with_the_calendar() {
    let utc_tai_table = UtcTaiTable::from_tai_utc_table(&table()).unwrap();
    let expected = calendar_reverse_rows();
    assert_eq!(utc_tai_table.len(), expected.len());
    for (row, (start, diff_seconds, correction)) in utc_tai_table.rows().iter().zip(expected) {
        assert_eq!(naive(&row.datetime), start);
        assert_eq!(row.diff_seconds, diff_seconds);
        assert_eq!(row.corr_seconds, correction);
    }
}

#[test]
fn test_utc2tai_agrees_with_the_calendar() {
    let tai_utc_table = table();
    let mut converted = 0;
    for utc in instants_around_the_rows(true) {
        let result = utc2tai_dt(&held(&utc), &tai_utc_table);
        match calendar_utc2tai(&utc) {
            Some(tai) => {
                assert_eq!(result.map(|tai| naive(&tai)), Ok(tai), "{}", utc);
                converted += 1;
            }
            None => assert_eq!(result, Err(Error::DatetimeTooLowError(utc.to_string())), "{}", utc),
        }
    }
    assert!(converted > 2000);
}

#[test]
fn test_tai2utc_agrees_with_the_calendar() {
    let utc_tai_table = UtcTaiTable::from_tai_utc_table(&table()).unwrap();
    let mut converted = 0;
    let mut leap_seconds = 0;
    for tai in instants_around_the_rows(false) {
        let result = tai2utc_dt(&held(&tai), &utc_tai_table);
        match calendar_tai2utc(&tai) {
            Some(Some(utc)) => {
                assert_eq!(result.map(|utc| naive(&utc)), Ok(utc), "{}", tai);
                converted += 1;
                if utc.nanosecond() >= 1_000_000_000 {
                    leap_seconds += 1;
                }
            }
            Some(None) => {
                assert_eq!(result, Err(Error::DatetimeOutOfRangeError(tai.to_string())), "{}", tai)
            }
            None => assert_eq!(result, Err(Error::DatetimeTooLowError(tai.to_string())), "{}", tai),
        }
    }
    assert!(converted > 2000);
    assert_eq!(leap_seconds, 4);
}

#[test]
fn test_tt_agrees_with_the_calendar() {
    for tai in instants_around_the_rows(false) {
        assert_eq!(
            tai2tt_dt(&held(&tai)).map(|tt| naive(&tt)),
            Ok(tai + TimeDelta::milliseconds(32184))
        );
        assert_eq!(
            tt2tai_dt(&held(&tai)).map(|tai| naive(&tai)),
            Ok(tai - TimeDelta::milliseconds(32184))
        );
    }
}
