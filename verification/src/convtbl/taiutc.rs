//! The table of the differences TAI - UTC, which converts UTC to TAI.
use crate::convtbl::ascending;
use crate::convtbl::lemma_ascending_by_neighbours;
use crate::convtbl::scan_end;
use crate::datetime::DateTime;
use crate::datetime::Instant;
use crate::datetime::parsed_instant;
use crate::error::Error;
use crate::error::ErrorView;
use crate::text::chars_of;
use crate::text::find_from;
use crate::text::first_occurrence;
use crate::text::parse_i64;
use crate::text::signed_decimal;
use crate::text::two_fields;
use vstd::prelude::*;
use vstd::string::StrSliceExecFns;

verus! {

/// The mathematical value of a [`DiffTaiUtc`].
pub struct ForwardRow {
    /// The UTC instant from which the offset holds.
    pub instant: Instant,
    /// TAI - UTC in seconds from that instant on.
    pub offset: int,
}

/// The row that a table line writes, or the error that the line gives.
///
/// The line must consist of exactly two fields. The first is a datetime in
/// the format `fmt`, the second a signed 64-bit integer.
pub open spec fn row_of_line(line: Seq<char>, sep: Seq<char>, fmt: Seq<char>) -> Result<
    ForwardRow,
    ErrorView,
> {
    match two_fields(line, sep) {
        None => Err(ErrorView::TaiUtcTableParseError(line)),
        Some(fields) => match parsed_instant(fields.0, fmt) {
            None => Err(ErrorView::TaiUtcTableDatetimeParseError(fields.0)),
            Some(instant) => match signed_decimal(fields.1) {
                None => Err(ErrorView::TaiUtcTableDiffParseError(line)),
                Some(offset) => Ok(ForwardRow { instant, offset }),
            },
        },
    }
}

/// The rows that the lines write, in their order, or the error of the
/// first line that gives one.
pub open spec fn rows_of_lines(lines: Seq<Seq<char>>, fmt: Seq<char>) -> Result<
    Seq<ForwardRow>,
    ErrorView,
>
    decreases lines.len(),
{
    if lines.len() == 0 {
        Ok(Seq::empty())
    } else {
        match rows_of_lines(lines.drop_last(), fmt) {
            Err(e) => Err(e),
            Ok(rows) => match row_of_line(lines.last(), " "@, fmt) {
                Err(e) => Err(e),
                Ok(row) => Ok(rows.push(row)),
            },
        }
    }
}

/// The instants of the rows, in their order.
pub open spec fn forward_instants(rows: Seq<ForwardRow>) -> Seq<Instant> {
    rows.map_values(|row: ForwardRow| row.instant)
}

/// The row in effect at `query`: the last row before the first one whose
/// instant comes after `query`. `None` where the table is empty or its first
/// row comes after `query`.
pub open spec fn dominant_forward_row(rows: Seq<ForwardRow>, query: Instant) -> Option<
    ForwardRow,
> {
    let end = scan_end(forward_instants(rows), query, 0);
    if end == 0 {
        None
    } else {
        Some(rows[end - 1])
    }
}

/// Difference TAI - UTC and the instant from which it holds: one row of the
/// table.
#[derive(Debug, Clone, Copy, PartialEq)]
pub struct DiffTaiUtc {
    /// The UTC instant at which the difference changes.
    pub datetime: DateTime,
    /// The difference TAI - UTC in seconds.
    pub diff_seconds: i64,
}

impl View for DiffTaiUtc {
    type V = ForwardRow;

    open spec fn view(&self) -> ForwardRow {
        ForwardRow { instant: self.datetime@, offset: self.diff_seconds as int }
    }
}

impl DiffTaiUtc {
    /// Reads a row from a line of a table file.
    ///
    /// `sep` stands between the datetime and the difference, and `fmt` is
    /// the format of the datetime.
    pub fn from_line(line: &str, sep: &str, fmt: &str) -> (r: Result<DiffTaiUtc, Error>)
        ensures
            r matches Ok(row) ==> row_of_line(line@, sep@, fmt@) == Ok::<ForwardRow, ErrorView>(
                row@,
            ),
            r matches Err(e) ==> row_of_line(line@, sep@, fmt@) == Err::<ForwardRow, ErrorView>(
                e@,
            ),
    {
        let line_chars: Vec<char> = chars_of(line);
        let sep_chars: Vec<char> = chars_of(sep);
        let at: usize = match find_from(&line_chars, &sep_chars, 0) {
            None => {
                return Err(Error::TaiUtcTableParseError(line.to_owned()));
            },
            Some(at) => at,
        };
        let rest: usize = at + sep_chars.len();
        if sep_chars.len() > 0 || at < line_chars.len() {
            let resume: usize = if sep_chars.len() == 0 {
                at + 1
            } else {
                rest
            };
            if find_from(&line_chars, &sep_chars, resume).is_some() {
                return Err(Error::TaiUtcTableParseError(line.to_owned()));
            }
        }
        let first: &str = line.substring_char(0, at);
        let datetime: DateTime = match DateTime::parse_from_str(first, fmt) {
            None => {
                return Err(Error::TaiUtcTableDatetimeParseError(first.to_owned()));
            },
            Some(datetime) => datetime,
        };
        match parse_i64(&line_chars, rest) {
            None => Err(Error::TaiUtcTableDiffParseError(line.to_owned())),
            Some(diff_seconds) => Ok(DiffTaiUtc { datetime, diff_seconds }),
        }
    }

    /// Reads rows from the lines of a table file, in which a single space
    /// stands between the two fields.
    ///
    /// The first line that is no row stops the reading, and its error is
    /// returned.
    pub fn from_lines(lines: Vec<&str>, fmt: &str) -> (r: Result<Vec<DiffTaiUtc>, Error>)
        ensures
            r matches Ok(rows) ==> rows_of_lines(lines@.map_values(|line: &str| line@), fmt@)
                == Ok::<Seq<ForwardRow>, ErrorView>(rows@.map_values(|row: DiffTaiUtc| row@)),
            r matches Err(e) ==> rows_of_lines(lines@.map_values(|line: &str| line@), fmt@)
                == Err::<Seq<ForwardRow>, ErrorView>(e@),
    {
        let ghost texts = lines@.map_values(|line: &str| line@);
        let mut diff_list: Vec<DiffTaiUtc> = Vec::new();
        let mut i: usize = 0;
        assert(diff_list@.map_values(|row: DiffTaiUtc| row@) == Seq::<ForwardRow>::empty());
        while i < lines.len()
            invariant
                i <= lines.len(),
                texts == lines@.map_values(|line: &str| line@),
                rows_of_lines(texts.take(i as int), fmt@) == Ok::<Seq<ForwardRow>, ErrorView>(
                    diff_list@.map_values(|row: DiffTaiUtc| row@),
                ),
            decreases lines.len() - i,
        {
            proof {
                assert(texts.take(i + 1).drop_last() == texts.take(i as int));
            }
            match DiffTaiUtc::from_line(lines[i], " ", fmt) {
                Err(e) => {
                    proof {
                        lemma_rows_of_lines_fails(texts, fmt@, i + 1);
                    }
                    return Err(e);
                },
                Ok(row) => {
                    let ghost before = diff_list@.map_values(|row: DiffTaiUtc| row@);
                    diff_list.push(row);
                    assert(diff_list@.map_values(|row: DiffTaiUtc| row@) == before.push(row@));
                },
            }
            i += 1;
        }
        assert(texts.take(i as int) == texts);
        Ok(diff_list)
    }
}

/// The table of the differences TAI - UTC, in the order in which the rows
/// were given. The rows are expected in ascending order of their instants;
/// the table does not sort them.
pub struct TaiUtcTable {
    diff_list: Vec<DiffTaiUtc>,
}

impl View for TaiUtcTable {
    type V = Seq<ForwardRow>;

    closed spec fn view(&self) -> Seq<ForwardRow> {
        self.diff_list@.map_values(|row: DiffTaiUtc| row@)
    }
}

impl TaiUtcTable {
    /// Reads a table from the lines of a table file, in which a single
    /// space stands between the two fields.
    ///
    /// The first line that is no row stops the reading, and its error is
    /// returned.
    pub fn from_lines(lines: Vec<&str>, fmt: &str) -> (r: Result<TaiUtcTable, Error>)
        ensures
            r matches Ok(table) ==> rows_of_lines(lines@.map_values(|line: &str| line@), fmt@)
                == Ok::<Seq<ForwardRow>, ErrorView>(table@),
            r matches Err(e) ==> rows_of_lines(lines@.map_values(|line: &str| line@), fmt@)
                == Err::<Seq<ForwardRow>, ErrorView>(e@),
    {
        match DiffTaiUtc::from_lines(lines, fmt) {
            Ok(diff_list) => Ok(TaiUtcTable { diff_list }),
            Err(e) => Err(e),
        }
    }

    /// The rows in their order.
    pub fn rows(&self) -> (rows: &Vec<DiffTaiUtc>)
        ensures
            rows@.map_values(|row: DiffTaiUtc| row@) == self@,
    {
        &self.diff_list
    }

    /// The number of rows.
    pub fn len(&self) -> (n: usize)
        ensures
            n == self@.len(),
    {
        self.diff_list.len()
    }

    /// Whether the rows stand in ascending order of their instants, as the
    /// lookup takes them to.
    pub fn is_ascending(&self) -> (b: bool)
        ensures
            b == ascending(forward_instants(self@)),
    {
        let ghost keys = forward_instants(self@);
        let mut i: usize = 1;
        while i < self.diff_list.len()
            invariant
                1 <= i,
                keys == forward_instants(self@),
                keys.len() == self.diff_list.len(),
                forall|k: int| 0 <= k < keys.len() ==> keys[k] == (#[trigger] self.diff_list[k]).datetime@,
                forall|k: int| 0 <= k < i - 1 ==> (#[trigger] keys[k]).not_after(keys[k + 1]),
            decreases self.diff_list.len() - i,
        {
            if self.diff_list[i].datetime.is_before(&self.diff_list[i - 1].datetime) {
                return false;
            }
            i += 1;
        }
        proof {
            lemma_ascending_by_neighbours(keys);
        }
        true
    }

    /// The row at position `i`.
    pub fn row(&self, i: usize) -> (row: &DiffTaiUtc)
        requires
            i < self@.len(),
        ensures
            row@ == self@[i as int],
    {
        &self.diff_list[i]
    }

    /// Picks the row in effect at a UTC instant: the last row whose instant
    /// is not after `datetime`, the rows taken in their order up to the first
    /// one that is after it.
    ///
    /// Fails where the table is empty or `datetime` precedes its first row.
    pub fn pick_dominant_row<'a>(&'a self, datetime: &DateTime) -> (r: Result<
        &'a DiffTaiUtc,
        Error,
    >)
        ensures
            r matches Ok(row) ==> dominant_forward_row(self@, datetime@) == Some(row@),
            r matches Err(e) ==> dominant_forward_row(self@, datetime@) is None && e@
                == ErrorView::DatetimeTooLowError(datetime@.displayed()),
    {
        let ghost keys = forward_instants(self@);
        let mut end: usize = 0;
        while end < self.diff_list.len() && !datetime.is_before(&self.diff_list[end].datetime)
            invariant
                end <= self.diff_list.len(),
                keys == forward_instants(self@),
                keys.len() == self.diff_list.len(),
                forall|i: int| 0 <= i < keys.len() ==> keys[i] == (#[trigger] self.diff_list[i]).datetime@,
                scan_end(keys, datetime@, 0) == scan_end(keys, datetime@, end as int),
            decreases self.diff_list.len() - end,
        {
            end += 1;
        }
        if end == 0 {
            Err(Error::DatetimeTooLowError(datetime.display()))
        } else {
            Ok(&self.diff_list[end - 1])
        }
    }
}

impl From<Vec<DiffTaiUtc>> for TaiUtcTable {
    /// The table that holds the given rows in their order.
    fn from(diff_list: Vec<DiffTaiUtc>) -> (table: TaiUtcTable)
        ensures
            table@ == diff_list@.map_values(|row: DiffTaiUtc| row@),
    {
        TaiUtcTable { diff_list }
    }
}

impl vstd::std_specs::convert::FromSpecImpl<Vec<DiffTaiUtc>> for TaiUtcTable {
    open spec fn obeys_from_spec() -> bool {
        true
    }

    closed spec fn from_spec(diff_list: Vec<DiffTaiUtc>) -> TaiUtcTable {
        TaiUtcTable { diff_list }
    }
}

/// Reading stops at the first line that is no row: once the lines up to a
/// point give an error, all the lines give that error.
pub proof fn lemma_rows_of_lines_fails(lines: Seq<Seq<char>>, fmt: Seq<char>, n: int)
    requires
        0 <= n <= lines.len(),
        rows_of_lines(lines.take(n), fmt) is Err,
    ensures
        rows_of_lines(lines, fmt) == rows_of_lines(lines.take(n), fmt),
    decreases lines.len() - n,
{
    if n == lines.len() {
        assert(lines.take(n) == lines);
    } else {
        assert(lines.take(n + 1).drop_last() == lines.take(n));
        lemma_rows_of_lines_fails(lines, fmt, n + 1);
    }
}

} // verus!
