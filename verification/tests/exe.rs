use chrono::NaiveDate;
use convdate::convtbl::TaiUtcTable;
use convdate::convtbl::UtcTaiTable;
use convdate::error::Error;
use convdate::exe::converter::convertion_step;
use convdate::exe::converter::Converter;
use convdate::exe::converter::Output;
use convdate::exe::converter::Tai2UtcConverter;
use convdate::exe::converter::Tt2UtcConverter;
use convdate::exe::converter::Ut2MjdConverter;
use convdate::exe::converter::Utc2TaiConverter;
use convdate::exe::converter::Utc2TtConverter;
use convdate::exe::execcode::conversion_result;
use convdate::exe::execcode::execcode;
use convdate::exe::Arguments;
use convdate::exe::EnvValues;
use convdate::exe::Parameters;
use convdate::exe::DT_FMT;
use convdate::exe::EXIT_CODE_NG;
use convdate::exe::EXIT_CODE_OK;
use convdate::exe::EXIT_CODE_SOME_DT_NOT_CONVERTED;
use convdate::exe::LEAPS_TABLE_FILENAME;
use convdate::ut2mjd::Mjd;

fn pairs(vars: &[(&str, &str)]) -> Vec<(String, String)> {
    vars.iter().map(|(name, value)| (name.to_string(), value.to_string())).collect()
}

fn some(text: &str) -> Option<String> {
    Some(text.to_string())
}

fn no_arguments() -> Arguments {
    Arguments::new(None, None, false, None, vec![])
}

fn table() -> TaiUtcTable {
    TaiUtcTable::from_lines(
        vec!["2012-07-01T00:00:00 5", "2015-07-01T00:00:00 6", "2017-01-01T00:00:00 7"],
        DT_FMT,
    )
    .unwrap()
}

/// Runs the inputs through a converter as a program does, and gives the exit
/// code, what goes to the standard output and what goes to the standard
/// error.
fn run(converter: &impl Converter, io_pair_flg: bool, inputs: &[&str]) -> (i32, String, String) {
    let mut stdout = String::new();
    let mut stderr = String::new();
    let mut someone_is_err = false;
    for in_dt in inputs {
        let out_dt = converter.convert(in_dt);
        let (output, failed) = convertion_step(io_pair_flg, someone_is_err, in_dt, out_dt);
        someone_is_err = failed;
        match output {
            Output::Stdout(line) => {
                stdout.push_str(&line);
                stdout.push('\n');
            }
            Output::Stderr(message) => {
                stderr.push_str(&message);
                stderr.push('\n');
            }
        }
    }
    (execcode(&conversion_result(someone_is_err)), stdout, stderr)
}

#[test]
fn test_constants() {
    assert_eq!(DT_FMT, "%Y-%m-%dT%H:%M:%S%.3f");
    assert_eq!(LEAPS_TABLE_FILENAME, "leaps.txt");
    assert_eq!(EXIT_CODE_OK, 0);
    assert_eq!(EXIT_CODE_NG, 1);
    assert_eq!(EXIT_CODE_SOME_DT_NOT_CONVERTED, 2);
}

#[test]
fn test_execcode() {
    assert_eq!(execcode(&Ok(())), 0);
    assert_eq!(execcode(&Err(convdate::exe::error::Error::FailedSomeConvertionError())), 2);
    assert_eq!(conversion_result(false), Ok(()));
    assert_eq!(
        conversion_result(true),
        Err(convdate::exe::error::Error::FailedSomeConvertionError())
    );
    assert_eq!(
        convdate::exe::error::Error::FailedSomeConvertionError().message(),
        "Failed convertion of some datetimes."
    );
}

#[test]
fn test_arguments() {
    let args = Arguments::new(
        some("%Y%m%d%H%M%S"),
        some("%Y-%m-%d %H:%M:%S"),
        true,
        some("/tmp/tai-utc.txt"),
        vec!["2017-01-01 00:00:00".to_string(), "2017-01-01 00:00:01".to_string()],
    );
    assert_eq!(args.get_leaps_dt_fmt(), Some("%Y%m%d%H%M%S"));
    assert_eq!(args.get_dt_fmt(), Some("%Y-%m-%d %H:%M:%S"));
    assert_eq!(args.get_io_pair_flg(), true);
    assert_eq!(args.get_leaps_path(), Some("/tmp/tai-utc.txt"));
    assert_eq!(args.get_datetimes().len(), 2);
    assert_eq!(args.get_datetimes()[1], "2017-01-01 00:00:01");

    let args = no_arguments();
    assert_eq!(args.get_leaps_dt_fmt(), None);
    assert_eq!(args.get_dt_fmt(), None);
    assert_eq!(args.get_io_pair_flg(), false);
    assert_eq!(args.get_leaps_path(), None);
    assert!(args.get_datetimes().is_empty());
}

#[test]
fn test_env_values() {
    let env_vars = EnvValues::new(pairs(&[
        ("PATH", "/bin"),
        ("DT_FMT", "%Y%m%d"),
        ("LEAPS_TABLE", "/tmp/a.txt"),
        ("LEAPS_DT_FMT", "%Y"),
        ("dt_fmt", "lower case is another name"),
    ]));
    assert_eq!(env_vars.get_dt_fmt(), Some("%Y%m%d"));
    assert_eq!(env_vars.get_leaps_dt_fmt(), Some("%Y"));
    assert_eq!(env_vars.get_leaps_path(), Some("/tmp/a.txt"));

    let env_vars = EnvValues::new(pairs(&[("PATH", "/bin")]));
    assert_eq!(env_vars.get_dt_fmt(), None);
    assert_eq!(env_vars.get_leaps_dt_fmt(), None);
    assert_eq!(env_vars.get_leaps_path(), None);

    let env_vars = EnvValues::new(vec![]);
    assert_eq!(env_vars.get_dt_fmt(), None);
}

#[test]
fn test_env_values_later_pair_counts() {
    let env_vars = EnvValues::new(pairs(&[
        ("DT_FMT", "first"),
        ("LEAPS_TABLE", "one"),
        ("DT_FMT", "second"),
        ("DT_FMT", ""),
    ]));
    assert_eq!(env_vars.get_dt_fmt(), Some(""));
    assert_eq!(env_vars.get_leaps_path(), Some("one"));
}

#[test]
fn test_parameters_defaults() {
    let args = no_arguments();
    let env_vars = EnvValues::new(vec![]);
    let params = Parameters::new(&args, &env_vars, "/opt/convdate/leaps.txt");
    assert_eq!(params.get_dt_fmt(), "%Y-%m-%dT%H:%M:%S%.3f");
    assert_eq!(params.get_leaps_dt_fmt(), "%Y-%m-%dT%H:%M:%S%.3f");
    assert_eq!(params.get_leaps_path(), "/opt/convdate/leaps.txt");
    assert_eq!(params.io_pair_flg(), false);
}

#[test]
fn test_parameters_from_env() {
    let args = no_arguments();
    let env_vars = EnvValues::new(pairs(&[
        ("DT_FMT", "%Y%m%d%H%M%S"),
        ("LEAPS_DT_FMT", "%Y/%m/%d-%H:%M:%S"),
        ("LEAPS_TABLE", "/tmp/env.txt"),
    ]));
    let params = Parameters::new(&args, &env_vars, "/opt/convdate/leaps.txt");
    assert_eq!(params.get_dt_fmt(), "%Y%m%d%H%M%S");
    assert_eq!(params.get_leaps_dt_fmt(), "%Y/%m/%d-%H:%M:%S");
    assert_eq!(params.get_leaps_path(), "/tmp/env.txt");
    assert_eq!(params.io_pair_flg(), false);
}

#[test]
fn test_parameters_arguments_against_env() {
    let args = Arguments::new(
        some("%Y%m%d%H%M%S"),
        some("%Y-%m-%d %H:%M:%S"),
        true,
        some("/tmp/arg.txt"),
        vec![],
    );
    let env_vars = EnvValues::new(pairs(&[
        ("DT_FMT", "%Y%m%d%H%M%S%.3f"),
        ("LEAPS_DT_FMT", "%Y/%m/%d-%H:%M:%S"),
        ("LEAPS_TABLE", "/tmp/env.txt"),
    ]));
    let params = Parameters::new(&args, &env_vars, "/opt/convdate/leaps.txt");
    assert_eq!(params.get_dt_fmt(), "%Y-%m-%d %H:%M:%S");
    assert_eq!(params.get_leaps_dt_fmt(), "%Y%m%d%H%M%S");
    assert_eq!(params.get_leaps_path(), "/tmp/arg.txt");
    assert_eq!(params.io_pair_flg(), true);
}

#[test]
fn test_parameters_mixed() {
    let args = Arguments::new(None, some("%Y-%m-%d %H:%M:%S"), false, None, vec![]);
    let env_vars = EnvValues::new(pairs(&[("LEAPS_TABLE", "/tmp/env.txt")]));
    let params = Parameters::new(&args, &env_vars, "/opt/convdate/leaps.txt");
    assert_eq!(params.get_dt_fmt(), "%Y-%m-%d %H:%M:%S");
    assert_eq!(params.get_leaps_dt_fmt(), "%Y-%m-%dT%H:%M:%S%.3f");
    assert_eq!(params.get_leaps_path(), "/tmp/env.txt");
}

#[test]
fn test_convertion_step() {
    assert_eq!(
        convertion_step(false, false, "in", Ok("out".to_string())),
        (Output::Stdout("out".to_string()), false)
    );
    assert_eq!(
        convertion_step(true, false, "in", Ok("out".to_string())),
        (Output::Stdout("in out".to_string()), false)
    );
    assert_eq!(
        convertion_step(true, true, "in", Ok("out".to_string())),
        (Output::Stdout("in out".to_string()), true)
    );
    assert_eq!(
        convertion_step(true, false, "in", Err(Error::DatetimeParseError("in".to_string()))),
        (Output::Stderr("Cannot parse the datetime: in".to_string()), true)
    );
    assert_eq!(
        convertion_step(false, true, "in", Err(Error::DatetimeTooLowError("x".to_string()))),
        (Output::Stderr("The datetime is too low: x".to_string()), true)
    );
}

#[test]
fn test_error_messages() {
    let text = || "abc".to_string();
    assert_eq!(
        Error::TaiUtcTableParseError(text()).message(),
        "Illegal definition of TAI-UTC difference: abc"
    );
    assert_eq!(
        Error::TaiUtcTableDatetimeParseError(text()).message(),
        "Illegal definition of TAI-UTC difference (datetime): abc"
    );
    assert_eq!(
        Error::TaiUtcTableDiffParseError(text()).message(),
        "Illegal definition of TAI-UTC difference (seconds): abc"
    );
    assert_eq!(Error::DatetimeTooLowError(text()).message(), "The datetime is too low: abc");
    assert_eq!(Error::DatetimeParseError(text()).message(), "Cannot parse the datetime: abc");
    assert_eq!(
        Error::DatetimeOutOfRangeError(text()).message(),
        "The datetime is out of range: abc"
    );
    assert_eq!(Error::DatetimeFormatError(text()).message(), "Cannot format the datetime: abc");
    assert_eq!(
        Error::LeapsTableIOError(text()).message(),
        "The TAI-UTC table file isn't available: abc"
    );
    assert_eq!(
        Error::LeapsTableNotTextError(text()).message(),
        "Cannot read the TAI-UTC table file as text: abc"
    );
}

#[test]
fn test_error_cited_for() {
    let subject = || "2017-01-01 00:00:00".to_string();
    assert_eq!(
        Error::DatetimeTooLowError("x".to_string()).cited_for(subject()),
        Error::DatetimeTooLowError(subject())
    );
    assert_eq!(
        Error::DatetimeOutOfRangeError("x".to_string()).cited_for(subject()),
        Error::DatetimeOutOfRangeError(subject())
    );
    assert_eq!(
        Error::DatetimeParseError("x".to_string()).cited_for(subject()),
        Error::DatetimeParseError("x".to_string())
    );
    assert_eq!(
        Error::TaiUtcTableParseError("x".to_string()).cited_for(subject()),
        Error::TaiUtcTableParseError("x".to_string())
    );
}

#[test]
fn test_utc2tai_converter_run() {
    let converter = Utc2TaiConverter::new(table(), DT_FMT);
    let (code, stdout, stderr) = run(
        &converter,
        false,
        &[
            "2015-06-30T23:59:59.000",
            "2015-06-30T23:59:60.001",
            "2015-07-01T00:00:00.002",
            "2015-07-01T00:00:01.003",
            "2015-07-01T00:00:02.004",
            "2016-12-31T23:59:59",
            "2016-12-31T23:59:60",
            "2017-01-01T00:00:00",
            "2017-01-01T00:00:01",
            "2017-01-01T00:00:02",
        ],
    );
    assert_eq!(code, 0);
    assert_eq!(
        stdout,
        "2015-07-01T00:00:04.000\n\
         2015-07-01T00:00:05.001\n\
         2015-07-01T00:00:06.002\n\
         2015-07-01T00:00:07.003\n\
         2015-07-01T00:00:08.004\n\
         2017-01-01T00:00:05.000\n\
         2017-01-01T00:00:06.000\n\
         2017-01-01T00:00:07.000\n\
         2017-01-01T00:00:08.000\n\
         2017-01-01T00:00:09.000\n"
    );
    assert_eq!(stderr, "");
}

#[test]
fn test_utc2tai_converter_run_with_illegal_inputs() {
    let converter = Utc2TaiConverter::new(table(), DT_FMT);
    let (code, stdout, stderr) = run(
        &converter,
        false,
        &[
            "2015-06-30T23:59:59.000",
            "2015-06-30T23:59:60.001",
            "2010-07-01T00:00:00.002",
            "2015-07-01T00:00:01.003",
            "2015-07-01T00:00:02.004",
            "2016-12-3123:59:59",
            "2016-12-3123:59:60",
            "2017-01-01T00:00:00",
            "2017-01-01T00:00:01",
            "2017-01-01T00:00:02",
        ],
    );
    assert_eq!(code, 2);
    assert_eq!(
        stdout,
        "2015-07-01T00:00:04.000\n\
         2015-07-01T00:00:05.001\n\
         2015-07-01T00:00:07.003\n\
         2015-07-01T00:00:08.004\n\
         2017-01-01T00:00:07.000\n\
         2017-01-01T00:00:08.000\n\
         2017-01-01T00:00:09.000\n"
    );
    assert_eq!(
        stderr,
        "The datetime is too low: 2010-07-01 00:00:00.002\n\
         Cannot parse the datetime: 2016-12-3123:59:59\n\
         Cannot parse the datetime: 2016-12-3123:59:60\n"
    );
}

#[test]
fn test_tai2utc_converter_run_with_io_pair() {
    let converter =
        Tai2UtcConverter::new(UtcTaiTable::from_tai_utc_table(&table()).unwrap(), DT_FMT);
    let (code, stdout, stderr) = run(
        &converter,
        true,
        &["2015-07-01T00:00:04", "2015-07-01T00:00:05", "2015-07-01T00:00:06", "oops"],
    );
    assert_eq!(code, 2);
    assert_eq!(
        stdout,
        "2015-07-01T00:00:04 2015-06-30T23:59:59.000\n\
         2015-07-01T00:00:05 2015-06-30T23:59:60.000\n\
         2015-07-01T00:00:06 2015-07-01T00:00:00.000\n"
    );
    assert_eq!(stderr, "Cannot parse the datetime: oops\n");
}

#[test]
fn test_tt2utc_and_utc2tt_converter_run() {
    let converter =
        Tt2UtcConverter::new(UtcTaiTable::from_tai_utc_table(&table()).unwrap(), "%Y%m%d%H%M%S%.3f");
    let (code, stdout, stderr) = run(&converter, false, &["20170101000039.184"]);
    assert_eq!((code, stdout.as_str(), stderr.as_str()), (0, "20170101000000.000\n", ""));

    let converter = Utc2TtConverter::new(table(), "%Y%m%d%H%M%S%.3f");
    let (code, stdout, stderr) = run(&converter, false, &["20170101000000.000"]);
    assert_eq!((code, stdout.as_str(), stderr.as_str()), (0, "20170101000039.184\n", ""));
}

#[test]
fn test_ut2mjd_converter() {
    let converter = Ut2MjdConverter::new("%Y-%m-%dT%H:%M:%S");
    assert_eq!(
        converter.convert_exact("2021-12-26T12:00:00"),
        Ok(Mjd { day: 59574, nanos_of_day: 43_200_000_000_000 })
    );
    assert_eq!(
        converter.convert_exact("2021-12-26 12:00:00"),
        Err(Error::DatetimeParseError("2021-12-26 12:00:00".to_string()))
    );
}

#[test]
fn test_table_with_other_format() {
    let table = TaiUtcTable::from_lines(
        vec!["2012/07/01-00:00:00 5", "2015/07/01-00:00:00 6", "2017/01/01-00:00:00 7"],
        "%Y/%m/%d-%H:%M:%S",
    )
    .unwrap();
    let timestamp =
        NaiveDate::from_ymd_opt(2015, 7, 1).unwrap().and_hms_opt(0, 0, 0).unwrap().and_utc().timestamp();
    assert_eq!(table.row(1).datetime.timestamp(), timestamp);
    assert_eq!(table.row(1).diff_seconds, 6);
}
