use convdate::datetime::DateTime;
use convdate::error::Error;
use convdate::ut2mjd::mjd_date;
use convdate::ut2mjd::Mjd;
use convdate::ut2mjd::NANOS_PER_DAY;
use convdate::ut2mjd;
use convdate::ut2mjd_str;

const DT_FMT: &str = "%Y-%m-%dT%H:%M:%S%.3f";

fn as_number(mjd: Mjd) -> f64 {
    mjd.day as f64 + mjd.nanos_of_day as f64 / NANOS_PER_DAY as f64
}

fn approx_eq(a: f64, b: f64) -> bool {
    (a - b).abs() < 1.0e-6
}

#[test]
fn test_ut2mjd() {
    let cases = [
        // test by month
        ("2021-01-26T11:06:12.123", 59240.0 + 39972123.0 / 86400000.0),
        ("2021-02-26T11:06:12.123", 59271.0 + 39972123.0 / 86400000.0),
        ("2021-03-26T11:06:12.123", 59299.0 + 39972123.0 / 86400000.0),
        ("2021-04-26T11:06:12.123", 59330.0 + 39972123.0 / 86400000.0),
        ("2021-05-26T11:06:12.123", 59360.0 + 39972123.0 / 86400000.0),
        ("2021-06-26T11:06:12.123", 59391.0 + 39972123.0 / 86400000.0),
        ("2021-07-26T11:06:12.123", 59421.0 + 39972123.0 / 86400000.0),
        ("2021-08-26T11:06:12.123", 59452.0 + 39972123.0 / 86400000.0),
        ("2021-09-26T11:06:12.123", 59483.0 + 39972123.0 / 86400000.0),
        ("2021-10-26T11:06:12.123", 59513.0 + 39972123.0 / 86400000.0),
        ("2021-11-26T11:06:12.123", 59544.0 + 39972123.0 / 86400000.0),
        ("2021-12-26T11:06:12.123", 59574.0 + 39972123.0 / 86400000.0),
        // test by second
        ("2021-12-26T00:00:00.000", 59574.0),
        ("2021-12-26T00:00:00.001", 59574.0 + 1.0 / 86400000.0),
        ("2021-12-26T00:00:01.000", 59574.0 + 1000.0 / 86400000.0),
        ("2021-12-26T00:01:00.000", 59574.0 + 60000.0 / 86400000.0),
        ("2021-12-26T01:00:00.000", 59574.0 + 3600000.0 / 86400000.0),
        ("2021-12-26T12:00:00.000", 59574.5),
        ("2021-12-26T13:00:00.000", 59574.0 + 46800000.0 / 86400000.0),
    ];
    for (utc, expected) in cases {
        let utc = DateTime::parse_from_str(utc, DT_FMT).unwrap();
        let mjd = ut2mjd(&utc).unwrap();
        assert!(approx_eq(as_number(mjd), expected), "{:?} {}", mjd, expected);
    }
}

#[test]
fn test_ut2mjd_at_noon_is_a_half() {
    let mjd = ut2mjd_str("2021-12-26T12:00:00", "%Y-%m-%dT%H:%M:%S").unwrap();
    assert_eq!(mjd, Mjd { day: 59574, nanos_of_day: 43_200_000_000_000 });
    assert_eq!(as_number(mjd), 59574.5);
    assert_eq!(as_number(mjd).to_string(), "59574.5");
}

#[test]
fn test_ut2mjd_str_arg_dt_fmt() {
    let cases = [
        ("2021-12-26T11:06:12.000", "%Y-%m-%dT%H:%M:%S%.3f", "59574.46263888889"),
        ("2021-12-26T11:06:12.123", "%Y-%m-%dT%H:%M:%S%.3f", "59574.4626403125"),
        ("2021-12-26T11:06:12", "%Y-%m-%dT%H:%M:%S%.3f", "59574.46263888889"),
        ("2021-12-26T11:06:12", "%Y-%m-%dT%H:%M:%S", "59574.46263888889"),
        ("2021-12-26 11:06:12", "%Y-%m-%d %H:%M:%S", "59574.46263888889"),
    ];
    for (utc, dt_fmt, expected) in cases {
        let mjd = ut2mjd_str(utc, dt_fmt).unwrap();
        assert_eq!(as_number(mjd).to_string(), expected);
    }
    assert_eq!(
        ut2mjd_str("2021-12-26T11:06:12", "%Y-%m-%d %H:%M:%S"),
        Err(Error::DatetimeParseError("2021-12-26T11:06:12".to_string()))
    );
}

#[test]
fn test_ut2mjd_exact_parts() {
    let mjd = ut2mjd_str("2021-12-26T11:06:12.123", DT_FMT).unwrap();
    assert_eq!(mjd, Mjd { day: 59574, nanos_of_day: 39_972_123_000_000 });
    let mjd = ut2mjd_str("1858-11-17T00:00:00.000", DT_FMT).unwrap();
    assert_eq!(mjd, Mjd { day: 0, nanos_of_day: 0 });
    let mjd = ut2mjd_str("1858-11-16T23:59:59.999", DT_FMT).unwrap();
    assert_eq!(mjd, Mjd { day: -1, nanos_of_day: 86_399_999_000_000 });
    // A leap second counts on top of the day.
    let mjd = ut2mjd_str("2016-12-31T23:59:60.500", DT_FMT).unwrap();
    assert_eq!(mjd, Mjd { day: 57753, nanos_of_day: 86_400_500_000_000 });
}

#[test]
fn test_mjd_date() {
    assert_eq!(mjd_date(1858, 11, 17), 0);
    assert_eq!(mjd_date(1970, 1, 1), 40587);
    assert_eq!(mjd_date(2000, 2, 29), 51603);
    assert_eq!(mjd_date(2000, 3, 1), 51604);
    assert_eq!(mjd_date(2021, 1, 26), 59240);
    assert_eq!(mjd_date(2021, 2, 26), 59271);
    assert_eq!(mjd_date(2021, 12, 26), 59574);
    assert_eq!(mjd_date(1900, 2, 28), 15078);
    assert_eq!(mjd_date(1900, 3, 1), 15079);
    assert_eq!(mjd_date(1, 1, 1), -678575);
    assert_eq!(mjd_date(0, 2, 29), -678882);
    assert_eq!(mjd_date(-4, 2, 29), -680343);
    assert_eq!(mjd_date(-262143, 1, 1), -96424705);
    assert_eq!(mjd_date(262142, 12, 31), 95066823);
}

#[test]
fn test_mjd_date_agrees_with_the_count_of_days() {
    let mut timestamp: i64 = -20_000_000_000;
    while timestamp < 20_000_000_000 {
        let datetime = DateTime::from_timestamp(timestamp, 0).unwrap();
        let mjd = ut2mjd(&datetime).unwrap();
        assert_eq!(mjd.day, timestamp.div_euclid(86_400) + 40587, "{}", timestamp);
        assert_eq!(mjd.nanos_of_day, timestamp.rem_euclid(86_400) as u64 * 1_000_000_000);
        timestamp += 86_400 * 13 + 3_601;
    }
}
