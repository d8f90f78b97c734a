//! The table of the differences UTC - TAI, which converts TAI to UTC. It is
//! derived from the table of the differences TAI - UTC.
use crate::convtbl::ascending;
use crate::convtbl::lemma_ascending_by_neighbours;
use crate::convtbl::scan_end;
use crate::convtbl::taiutc::DiffTaiUtc;
use crate::convtbl::taiutc::ForwardRow;
use crate::convtbl::taiutc::TaiUtcTable;
use crate::datetime::DateTime;
use crate::datetime::Instant;
use crate::error::Error;
use crate::error::ErrorView;
use vstd::prelude::*;

verus! {

/// The most seconds that one row may insert.
pub const MAX_CORRECTION: u32 = 59;

/// The mathematical value of a [`DiffUtcTai`].
pub struct ReverseRow {
    /// The TAI instant from which the row holds.
    pub instant: Instant,
    /// UTC - TAI in seconds from that instant on.
    pub offset: int,
    /// Seconds that are shown as a leap second while the row holds.
    pub correction: int,
}

/// The row that takes over where the offset of `row` has fully come into
/// effect on the TAI scale.
pub open spec fn final_row(row: ForwardRow) -> ReverseRow {
    ReverseRow {
        instant: row.instant.normalized().plus_seconds(row.offset),
        offset: -row.offset,
        correction: 0,
    }
}

/// The row that covers the seconds which `row` inserts after the offset
/// `previous`: it starts where the inserted seconds start on the TAI scale.
pub open spec fn transitional_row(row: ForwardRow, previous: int) -> ReverseRow {
    ReverseRow {
        instant: row.instant.normalized().plus_seconds(previous),
        offset: -row.offset,
        correction: row.offset - previous,
    }
}

/// Whether row `i` raises the offset of the row before it, that is, inserts
/// seconds. The first row never does.
pub open spec fn inserts(rows: Seq<ForwardRow>, i: int) -> bool {
    0 < i < rows.len() && rows[i - 1].offset < rows[i].offset
}

/// The rows that row `i` of the forward table gives: a transitional row
/// where it inserts seconds, and a final row in any case.
pub open spec fn derived_rows(rows: Seq<ForwardRow>, i: int) -> Seq<ReverseRow> {
    if inserts(rows, i) {
        seq![transitional_row(rows[i], rows[i - 1].offset), final_row(rows[i])]
    } else {
        seq![final_row(rows[i])]
    }
}

/// Whether the rows that row `i` gives can be held: their instants are
/// representable, and the inserted seconds are fewer than 60.
pub open spec fn derivable(rows: Seq<ForwardRow>, i: int) -> bool {
    &&& final_row(rows[i]).instant.representable()
    &&& inserts(rows, i) ==> {
        &&& transitional_row(rows[i], rows[i - 1].offset).instant.representable()
        &&& rows[i].offset - rows[i - 1].offset <= MAX_CORRECTION
    }
}

/// The first row from `from` on whose rows cannot be held, or the length.
pub open spec fn first_underivable(rows: Seq<ForwardRow>, from: int) -> int
    decreases rows.len() - from,
{
    if 0 <= from < rows.len() && derivable(rows, from) {
        first_underivable(rows, from + 1)
    } else {
        from
    }
}

/// The rows that the first `n` rows of the forward table give, in order.
pub open spec fn reverse_rows(rows: Seq<ForwardRow>, n: int) -> Seq<ReverseRow>
    decreases n,
{
    if n <= 0 {
        Seq::empty()
    } else {
        reverse_rows(rows, n - 1) + derived_rows(rows, n - 1)
    }
}

/// The number of rows that the forward rows before row `i` give, which is
/// the position of the first row that row `i` gives.
pub open spec fn rows_before(rows: Seq<ForwardRow>, i: int) -> int {
    reverse_rows(rows, i).len() as int
}

/// The forward row that gave the row at position `at` among the rows of the
/// first `n` forward rows.
pub open spec fn source_row(rows: Seq<ForwardRow>, n: int, at: int) -> int
    decreases n,
{
    if n <= 1 {
        0
    } else if at >= rows_before(rows, n - 1) {
        n - 1
    } else {
        source_row(rows, n - 1, at)
    }
}

/// The rows of the first `i` forward rows stay where they are when more
/// forward rows are taken.
pub proof fn lemma_reverse_rows_prefix(rows: Seq<ForwardRow>, i: int, n: int)
    requires
        0 <= i <= n,
    ensures
        rows_before(rows, i) <= rows_before(rows, n),
        reverse_rows(rows, n).subrange(0, rows_before(rows, i)) == reverse_rows(rows, i),
    decreases n - i,
{
    if i < n {
        lemma_reverse_rows_prefix(rows, i, n - 1);
    }
}

/// Where the rows of forward row `i` stand among the rows of the first `n`
/// forward rows: the transitional row, if there is one, right before the
/// final row, and the rows of the next forward row right behind.
pub proof fn lemma_derived_rows_at(rows: Seq<ForwardRow>, i: int, n: int)
    requires
        0 <= i < n,
    ensures
        0 <= rows_before(rows, i) < rows_before(rows, i + 1) <= rows_before(rows, n),
        inserts(rows, i) ==> rows_before(rows, i + 1) == rows_before(rows, i) + 2 && reverse_rows(
            rows,
            n,
        )[rows_before(rows, i)] == transitional_row(rows[i], rows[i - 1].offset),
        !inserts(rows, i) ==> rows_before(rows, i + 1) == rows_before(rows, i) + 1,
        reverse_rows(rows, n)[rows_before(rows, i + 1) - 1] == final_row(rows[i]),
{
    lemma_reverse_rows_prefix(rows, i + 1, n);
    let upto = reverse_rows(rows, i + 1);
    let start = rows_before(rows, i);
    assert(reverse_rows(rows, n).subrange(0, rows_before(rows, i + 1))[start] == upto[start]);
    assert(reverse_rows(rows, n).subrange(0, rows_before(rows, i + 1))[rows_before(rows, i + 1) - 1]
        == upto[rows_before(rows, i + 1) - 1]);
}

/// Every row among the rows of the first `n` forward rows was given by one
/// of them.
pub proof fn lemma_source_row(rows: Seq<ForwardRow>, n: int, at: int)
    requires
        0 <= at < rows_before(rows, n),
    ensures
        0 <= source_row(rows, n, at) < n,
        rows_before(rows, source_row(rows, n, at)) <= at < rows_before(
            rows,
            source_row(rows, n, at) + 1,
        ),
    decreases n,
{
    if n > 1 && at < rows_before(rows, n - 1) {
        lemma_source_row(rows, n - 1, at);
    }
}

/// Where no forward row from `from` on fails to be derived, each of them can
/// be derived.
pub proof fn lemma_all_derivable(rows: Seq<ForwardRow>, from: int)
    requires
        0 <= from <= rows.len(),
        first_underivable(rows, from) >= rows.len(),
    ensures
        forall|i: int| from <= i < rows.len() ==> derivable(rows, i),
    decreases rows.len() - from,
{
    if from < rows.len() {
        lemma_all_derivable(rows, from + 1);
    }
}

/// The reverse table of a forward table, or the error of the first row
/// whose rows cannot be held, which names the instant of that row.
pub open spec fn reverse_table(rows: Seq<ForwardRow>) -> Result<Seq<ReverseRow>, ErrorView> {
    let stop = first_underivable(rows, 0);
    if stop >= rows.len() {
        Ok(reverse_rows(rows, rows.len() as int))
    } else {
        Err(ErrorView::DatetimeOutOfRangeError(rows[stop].instant.displayed()))
    }
}

/// The instants of the rows, in their order.
pub open spec fn reverse_instants(rows: Seq<ReverseRow>) -> Seq<Instant> {
    rows.map_values(|row: ReverseRow| row.instant)
}

/// The row in effect at `query`: the last row before the first one whose
/// instant comes after `query`. `None` where the table is empty or its first
/// row comes after `query`.
pub open spec fn dominant_reverse_row(rows: Seq<ReverseRow>, query: Instant) -> Option<
    ReverseRow,
> {
    let end = scan_end(reverse_instants(rows), query, 0);
    if end == 0 {
        None
    } else {
        Some(rows[end - 1])
    }
}

/// Difference UTC - TAI and the instant from which it holds: one row of the
/// table.
#[derive(Debug, Clone, Copy, PartialEq)]
pub struct DiffUtcTai {
    /// The TAI instant at which the difference changes.
    pub datetime: DateTime,
    /// The part of the difference UTC - TAI that is carried into the minutes,
    /// in seconds.
    pub diff_seconds: i64,
    /// The part of the difference that is not carried into the minutes but
    /// shown as a leap second, in seconds.
    pub corr_seconds: u32,
}

impl View for DiffUtcTai {
    type V = ReverseRow;

    open spec fn view(&self) -> ReverseRow {
        ReverseRow {
            instant: self.datetime@,
            offset: self.diff_seconds as int,
            correction: self.corr_seconds as int,
        }
    }
}

/// The table of the differences UTC - TAI.
///
/// It is made from a [`TaiUtcTable`] only, never from text.
#[derive(Debug)]
pub struct UtcTaiTable(Vec<DiffUtcTai>);

impl View for UtcTaiTable {
    type V = Seq<ReverseRow>;

    closed spec fn view(&self) -> Seq<ReverseRow> {
        self.0@.map_values(|row: DiffUtcTai| row@)
    }
}

impl UtcTaiTable {
    /// Derives the table from the table of the differences TAI - UTC.
    ///
    /// The rows are taken in their order. A row that raises the offset of
    /// the row before it gives two rows: a transitional one at its
    /// continuous instant plus the earlier offset, which carries the raise
    /// as its correction, and a final one at its continuous instant plus its
    /// own offset. Any other row gives the final row alone.
    ///
    /// Fails at the first row whose rows cannot be held.
    pub fn from_tai_utc_table(tai_utc_table: &TaiUtcTable) -> (r: Result<UtcTaiTable, Error>)
        ensures
            r matches Ok(table) ==> reverse_table(tai_utc_table@) == Ok::<
                Seq<ReverseRow>,
                ErrorView,
            >(table@),
            r matches Err(e) ==> reverse_table(tai_utc_table@) == Err::<
                Seq<ReverseRow>,
                ErrorView,
            >(e@),
    {
        let ghost rows = tai_utc_table@;
        let n: usize = tai_utc_table.len();
        let mut diff_list: Vec<DiffUtcTai> = Vec::new();
        let mut i: usize = 0;
        while i < n
            invariant
                i <= n,
                n == rows.len(),
                rows == tai_utc_table@,
                first_underivable(rows, 0) == first_underivable(rows, i as int),
                diff_list@.map_values(|row: DiffUtcTai| row@) == reverse_rows(rows, i as int),
            decreases n - i,
        {
            let row: &DiffTaiUtc = tai_utc_table.row(i);
            if i > 0 {
                let previous: i64 = tai_utc_table.row(i - 1).diff_seconds;
                if previous < row.diff_seconds {
                    let raise: i128 = row.diff_seconds as i128 - previous as i128;
                    if raise > MAX_CORRECTION as i128 {
                        return Err(Error::DatetimeOutOfRangeError(row.datetime.display()));
                    }
                    match row.datetime.shifted(previous) {
                        None => {
                            return Err(Error::DatetimeOutOfRangeError(row.datetime.display()));
                        },
                        Some(start) => {
                            diff_list.push(
                                DiffUtcTai {
                                    datetime: start,
                                    diff_seconds: -row.diff_seconds,
                                    corr_seconds: raise as u32,
                                },
                            );
                        },
                    }
                }
            }
            proof {
                use_type_invariant(&row.datetime);
            }
            match row.datetime.shifted(row.diff_seconds) {
                None => {
                    return Err(Error::DatetimeOutOfRangeError(row.datetime.display()));
                },
                Some(start) => {
                    diff_list.push(
                        DiffUtcTai {
                            datetime: start,
                            diff_seconds: -row.diff_seconds,
                            corr_seconds: 0,
                        },
                    );
                },
            }
            i += 1;
        }
        Ok(UtcTaiTable(diff_list))
    }

    /// The rows in their order.
    pub fn rows(&self) -> (rows: &Vec<DiffUtcTai>)
        ensures
            rows@.map_values(|row: DiffUtcTai| row@) == self@,
    {
        &self.0
    }

    /// The number of rows.
    pub fn len(&self) -> (n: usize)
        ensures
            n == self@.len(),
    {
        self.0.len()
    }

    /// Whether the rows stand in ascending order of their instants, as the
    /// lookup takes them to.
    pub fn is_ascending(&self) -> (b: bool)
        ensures
            b == ascending(reverse_instants(self@)),
    {
        let ghost keys = reverse_instants(self@);
        let mut i: usize = 1;
        while i < self.0.len()
            invariant
                1 <= i,
                keys == reverse_instants(self@),
                keys.len() == self.0.len(),
                forall|k: int| 0 <= k < keys.len() ==> keys[k] == (#[trigger] self.0[k]).datetime@,
                forall|k: int| 0 <= k < i - 1 ==> (#[trigger] keys[k]).not_after(keys[k + 1]),
            decreases self.0.len() - i,
        {
            if self.0[i].datetime.is_before(&self.0[i - 1].datetime) {
                return false;
            }
            i += 1;
        }
        proof {
            lemma_ascending_by_neighbours(keys);
        }
        true
    }

    /// The row at position `i`.
    pub fn row(&self, i: usize) -> (row: &DiffUtcTai)
        requires
            i < self@.len(),
        ensures
            row@ == self@[i as int],
    {
        &self.0[i]
    }

    /// Picks the row in effect at a TAI instant: the last row whose instant
    /// is not after `datetime`, the rows taken in their order up to the first
    /// one that is after it.
    ///
    /// Fails where the table is empty or `datetime` precedes its first row.
    pub fn pick_dominant_row<'a>(&'a self, datetime: &DateTime) -> (r: Result<
        &'a DiffUtcTai,
        Error,
    >)
        ensures
            r matches Ok(row) ==> dominant_reverse_row(self@, datetime@) == Some(row@),
            r matches Err(e) ==> dominant_reverse_row(self@, datetime@) is None && e@
                == ErrorView::DatetimeTooLowError(datetime@.displayed()),
    {
        let ghost keys = reverse_instants(self@);
        let mut end: usize = 0;
        while end < self.0.len() && !datetime.is_before(&self.0[end].datetime)
            invariant
                end <= self.0.len(),
                keys == reverse_instants(self@),
                keys.len() == self.0.len(),
                forall|i: int| 0 <= i < keys.len() ==> keys[i] == (#[trigger] self.0[i]).datetime@,
                scan_end(keys, datetime@, 0) == scan_end(keys, datetime@, end as int),
            decreases self.0.len() - end,
        {
            end += 1;
        }
        if end == 0 {
            Err(Error::DatetimeTooLowError(datetime.display()))
        } else {
            Ok(&self.0[end - 1])
        }
    }
}

} // verus!
