//! The converters that the command line programs run, one for each
//! direction, and what a program writes for one input.
use crate::convtbl::taiutc::ForwardRow;
use crate::convtbl::taiutc::TaiUtcTable;
use crate::convtbl::utctai::ReverseRow;
use crate::convtbl::utctai::UtcTaiTable;
use crate::datetime::Instant;
use crate::datetime::converted_text;
use crate::datetime::parsed_instant;
use crate::error::Error;
use crate::error::ErrorView;
use crate::error::text_result;
use crate::tai2utc::tai2utc;
use crate::tai2utc::tai2utc_instant;
use crate::tt2utc::tt2utc;
use crate::tt2utc::tt2utc_instant;
use crate::ut2mjd::Mjd;
use crate::ut2mjd::mjd_of;
use crate::ut2mjd::ut2mjd_str;
use crate::utc2tai::utc2tai;
use crate::utc2tai::utc2tai_instant;
use crate::utc2tt::utc2tt;
use crate::utc2tt::utc2tt_instant;
use vstd::prelude::*;
use vstd::string::StringExecFns;

verus! {

/// A conversion of datetimes given as text.
pub trait Converter {
    /// Converts one datetime.
    fn convert(&self, datetime: &str) -> Result<String, Error>;
}

/// Converts TAI to UTC.
pub struct Tai2UtcConverter<'a> {
    table: UtcTaiTable,
    dt_fmt: &'a str,
}

impl<'a> Tai2UtcConverter<'a> {
    /// The rows of the table that the converter works with.
    pub closed spec fn rows(&self) -> Seq<ReverseRow> {
        self.table@
    }

    /// The format that the converter reads and writes.
    pub closed spec fn format(&self) -> Seq<char> {
        self.dt_fmt@
    }

    /// The converter that works with the given table and format.
    pub fn new(table: UtcTaiTable, dt_fmt: &'a str) -> (converter: Tai2UtcConverter<'a>)
        ensures
            converter.rows() == table@,
            converter.format() == dt_fmt@,
    {
        Tai2UtcConverter { table, dt_fmt }
    }
}

impl<'a> Converter for Tai2UtcConverter<'a> {
    fn convert(&self, datetime: &str) -> (r: Result<String, Error>)
        ensures
            text_result(r) == converted_text(
                datetime@,
                self.format(),
                |tai: Instant| tai2utc_instant(self.rows(), tai),
            ),
    {
        tai2utc(datetime, &self.table, self.dt_fmt)
    }
}

/// Converts TT to UTC.
pub struct Tt2UtcConverter<'a> {
    table: UtcTaiTable,
    dt_fmt: &'a str,
}

impl<'a> Tt2UtcConverter<'a> {
    /// The rows of the table that the converter works with.
    pub closed spec fn rows(&self) -> Seq<ReverseRow> {
        self.table@
    }

    /// The format that the converter reads and writes.
    pub closed spec fn format(&self) -> Seq<char> {
        self.dt_fmt@
    }

    /// The converter that works with the given table and format.
    pub fn new(table: UtcTaiTable, dt_fmt: &'a str) -> (converter: Tt2UtcConverter<'a>)
        ensures
            converter.rows() == table@,
            converter.format() == dt_fmt@,
    {
        Tt2UtcConverter { table, dt_fmt }
    }
}

impl<'a> Converter for Tt2UtcConverter<'a> {
    fn convert(&self, datetime: &str) -> (r: Result<String, Error>)
        ensures
            text_result(r) == converted_text(
                datetime@,
                self.format(),
                |tt: Instant| tt2utc_instant(self.rows(), tt),
            ),
    {
        tt2utc(datetime, &self.table, self.dt_fmt)
    }
}

/// Converts UTC to TAI.
pub struct Utc2TaiConverter<'a> {
    table: TaiUtcTable,
    dt_fmt: &'a str,
}

impl<'a> Utc2TaiConverter<'a> {
    /// The rows of the table that the converter works with.
    pub closed spec fn rows(&self) -> Seq<ForwardRow> {
        self.table@
    }

    /// The format that the converter reads and writes.
    pub closed spec fn format(&self) -> Seq<char> {
        self.dt_fmt@
    }

    /// The converter that works with the given table and format.
    pub fn new(table: TaiUtcTable, dt_fmt: &'a str) -> (converter: Utc2TaiConverter<'a>)
        ensures
            converter.rows() == table@,
            converter.format() == dt_fmt@,
    {
        Utc2TaiConverter { table, dt_fmt }
    }
}

impl<'a> Converter for Utc2TaiConverter<'a> {
    fn convert(&self, datetime: &str) -> (r: Result<String, Error>)
        ensures
            text_result(r) == converted_text(
                datetime@,
                self.format(),
                |utc: Instant| utc2tai_instant(self.rows(), utc),
            ),
    {
        utc2tai(datetime, &self.table, self.dt_fmt)
    }
}

/// Converts UTC to TT.
pub struct Utc2TtConverter<'a> {
    table: TaiUtcTable,
    dt_fmt: &'a str,
}

impl<'a> Utc2TtConverter<'a> {
    /// The rows of the table that the converter works with.
    pub closed spec fn rows(&self) -> Seq<ForwardRow> {
        self.table@
    }

    /// The format that the converter reads and writes.
    pub closed spec fn format(&self) -> Seq<char> {
        self.dt_fmt@
    }

    /// The converter that works with the given table and format.
    pub fn new(table: TaiUtcTable, dt_fmt: &'a str) -> (converter: Utc2TtConverter<'a>)
        ensures
            converter.rows() == table@,
            converter.format() == dt_fmt@,
    {
        Utc2TtConverter { table, dt_fmt }
    }
}

impl<'a> Converter for Utc2TtConverter<'a> {
    fn convert(&self, datetime: &str) -> (r: Result<String, Error>)
        ensures
            text_result(r) == converted_text(
                datetime@,
                self.format(),
                |utc: Instant| utc2tt_instant(self.rows(), utc),
            ),
    {
        utc2tt(datetime, &self.table, self.dt_fmt)
    }
}

/// Converts UT to the Modified Julian Date.
pub struct Ut2MjdConverter<'a> {
    dt_fmt: &'a str,
}

impl<'a> Ut2MjdConverter<'a> {
    /// The format that the converter reads.
    pub closed spec fn format(&self) -> Seq<char> {
        self.dt_fmt@
    }

    /// The converter that reads the given format.
    pub fn new(dt_fmt: &'a str) -> (converter: Ut2MjdConverter<'a>)
        ensures
            converter.format() == dt_fmt@,
    {
        Ut2MjdConverter { dt_fmt }
    }

    /// Converts one datetime to the Modified Julian Date, held exactly.
    pub fn convert_exact(&self, datetime: &str) -> (r: Result<Mjd, Error>)
        ensures
            match parsed_instant(datetime@, self.format()) {
                None => r matches Err(e) && e@ == ErrorView::DatetimeParseError(datetime@),
                Some(instant) => r matches Ok(mjd) && (mjd.day as int, mjd.nanos_of_day as int)
                    == mjd_of(instant),
            },
    {
        ut2mjd_str(datetime, self.dt_fmt)
    }
}

/// The line that reports a conversion: the result alone, or the input, a
/// space and the result where `io_pair_flg` asks for both.
pub open spec fn report_line(io_pair_flg: bool, in_dt: Seq<char>, out_dt: Seq<char>) -> Seq<
    char,
> {
    if io_pair_flg {
        in_dt + " "@ + out_dt
    } else {
        out_dt
    }
}

/// What a program writes for one input.
#[derive(Debug, PartialEq)]
pub enum Output {
    /// A line for the standard output, without its line break.
    Stdout(String),
    /// A message for the standard error, without the program's name.
    Stderr(String),
}

/// The mathematical value of an [`Output`].
pub enum OutputView {
    Stdout(Seq<char>),
    Stderr(Seq<char>),
}

impl View for Output {
    type V = OutputView;

    open spec fn view(&self) -> OutputView {
        match self {
            Output::Stdout(line) => OutputView::Stdout(line@),
            Output::Stderr(message) => OutputView::Stderr(message@),
        }
    }
}

/// What a program writes for the input `in_dt` once its conversion has ended
/// as `out_dt`: the reporting line for a result, the message for an error.
pub open spec fn output_of(
    io_pair_flg: bool,
    in_dt: Seq<char>,
    out_dt: Result<Seq<char>, ErrorView>,
) -> OutputView {
    match out_dt {
        Ok(text) => OutputView::Stdout(report_line(io_pair_flg, in_dt, text)),
        Err(e) => OutputView::Stderr(e.message()),
    }
}

/// Decides what a program writes for one input and whether the run has
/// failed so far: it has if it had before or this conversion ended in an
/// error.
pub fn convertion_step(
    io_pair_flg: bool,
    someone_is_err: bool,
    in_dt: &str,
    out_dt: Result<String, Error>,
) -> (r: (Output, bool))
    ensures
        r.0@ == output_of(io_pair_flg, in_dt@, text_result(out_dt)),
        r.1 == (someone_is_err || out_dt is Err),
{
    match out_dt {
        Err(e) => (Output::Stderr(e.message()), true),
        Ok(text) => {
            if io_pair_flg {
                let mut line: String = in_dt.to_owned();
                line.append(" ");
                line.append(text.as_str());
                (Output::Stdout(line), someone_is_err)
            } else {
                (Output::Stdout(text), someone_is_err)
            }
        },
    }
}

} // verus!
