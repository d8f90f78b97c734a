//! What holds of the tables and the conversions as a whole.
use crate::convtbl::ascending;
use crate::convtbl::lemma_scan_end;
use crate::convtbl::lemma_scan_end_is;
use crate::convtbl::scan_end;
use crate::convtbl::taiutc::ForwardRow;
use crate::convtbl::taiutc::dominant_forward_row;
use crate::convtbl::taiutc::forward_instants;
use crate::convtbl::utctai::ReverseRow;
use crate::convtbl::utctai::dominant_reverse_row;
use crate::convtbl::utctai::MAX_CORRECTION;
use crate::convtbl::utctai::derivable;
use crate::convtbl::utctai::final_row;
use crate::convtbl::utctai::lemma_all_derivable;
use crate::convtbl::utctai::lemma_derived_rows_at;
use crate::convtbl::utctai::lemma_source_row;
use crate::convtbl::utctai::reverse_instants;
use crate::convtbl::utctai::reverse_table;
use crate::convtbl::utctai::rows_before;
use crate::convtbl::utctai::source_row;
use crate::convtbl::utctai::transitional_row;
use crate::datetime::Instant;
use crate::error::ErrorView;
use crate::tai2utc::tai2utc_instant;
use crate::tt::tai2tt_instant;
use crate::tt::tt2tai_instant;
use crate::utc2tai::utc2tai_instant;
use vstd::prelude::*;

verus! {

/// In an ascending table the scan finds the floor of the query: every row
/// before the place where it stops is not after the query, and every row from
/// there on is after it. The row in effect is the last row that is not after
/// the query.
pub proof fn law_scan_parts_ascending_table(keys: Seq<Instant>, query: Instant)
    requires
        ascending(keys),
    ensures
        0 <= scan_end(keys, query, 0) <= keys.len(),
        forall|i: int| 0 <= i < scan_end(keys, query, 0) ==> (#[trigger] keys[i]).not_after(query),
        forall|i: int| scan_end(keys, query, 0) <= i < keys.len() ==> query.before(#[trigger] keys[i]),
{
    lemma_scan_end(keys, query, 0);
    let end = scan_end(keys, query, 0);
    assert forall|i: int| end <= i < keys.len() implies query.before(#[trigger] keys[i]) by {
        assert(keys[end].not_after(keys[i]));
    }
}

/// A scan of an ascending table for the instant of one of its rows stops
/// behind the last row with that instant: the lower bound is inclusive.
pub proof fn law_scan_includes_equal_instant(keys: Seq<Instant>, i: int)
    requires
        ascending(keys),
        0 <= i < keys.len(),
    ensures
        i < scan_end(keys, keys[i], 0) <= keys.len(),
        keys[scan_end(keys, keys[i], 0) - 1] == keys[i],
{
    let query = keys[i];
    let end = scan_end(keys, query, 0);
    lemma_scan_end(keys, query, 0);
    if end <= i {
        assert(keys[end].not_after(keys[i]));
    }
    assert(keys[end - 1].not_after(query));
    assert(keys[i].not_after(keys[end - 1]));
}

/// In an ascending table of the differences TAI - UTC, the row in effect at
/// the instant of a row is that row, unless a later row has the same
/// instant and differs from it.
pub proof fn law_forward_row_is_dominant_at_its_instant(rows: Seq<ForwardRow>, i: int)
    requires
        ascending(forward_instants(rows)),
        0 <= i < rows.len(),
        forall|j: int| i < j < rows.len() && rows[j].instant == rows[i].instant ==> rows[j] == rows[i],
    ensures
        dominant_forward_row(rows, rows[i].instant) == Some(rows[i]),
{
    law_scan_includes_equal_instant(forward_instants(rows), i);
}

/// In an ascending table of the differences UTC - TAI, the row in effect at
/// the instant of a row is that row, unless a later row has the same
/// instant and differs from it.
pub proof fn law_reverse_row_is_dominant_at_its_instant(rows: Seq<ReverseRow>, i: int)
    requires
        ascending(reverse_instants(rows)),
        0 <= i < rows.len(),
        forall|j: int| i < j < rows.len() && rows[j].instant == rows[i].instant ==> rows[j] == rows[i],
    ensures
        dominant_reverse_row(rows, rows[i].instant) == Some(rows[i]),
{
    law_scan_includes_equal_instant(reverse_instants(rows), i);
}

/// No row is in effect at an instant that comes before the first row, in
/// either table.
pub proof fn law_no_row_before_the_first(
    forward: Seq<ForwardRow>,
    reverse: Seq<ReverseRow>,
    query: Instant,
)
    ensures
        forward.len() == 0 || query.before(forward[0].instant) ==> dominant_forward_row(
            forward,
            query,
        ) is None,
        reverse.len() == 0 || query.before(reverse[0].instant) ==> dominant_reverse_row(
            reverse,
            query,
        ) is None,
{
}

/// What holds of every row of a derived table of the differences UTC - TAI:
/// its instant is representable and continuous, its offset is the negative
/// of the offset of the forward row that gave it, and its correction is
/// below 60 and other than zero just where the row is transitional, that
/// is, the first of two rows that a forward row gave.
pub proof fn law_derived_rows_are_well_formed(
    forward: Seq<ForwardRow>,
    reverse: Seq<ReverseRow>,
    at: int,
)
    requires
        reverse_table(forward) == Ok::<Seq<ReverseRow>, ErrorView>(reverse),
        0 <= at < reverse.len(),
    ensures
        forward.len() <= reverse.len() <= 2 * forward.len(),
        reverse[at].instant.representable(),
        reverse[at].instant.is_continuous(),
        0 <= reverse[at].correction <= MAX_CORRECTION,
        0 <= source_row(forward, forward.len() as int, at) < forward.len(),
        reverse[at].offset == -forward[source_row(forward, forward.len() as int, at)].offset,
        reverse[at].correction != 0 <==> at + 2 == rows_before(
            forward,
            source_row(forward, forward.len() as int, at) + 1,
        ),
{
    let n = forward.len() as int;
    lemma_all_derivable(forward, 0);
    lemma_source_row(forward, n, at);
    let i = source_row(forward, n, at);
    lemma_derived_rows_at(forward, i, n);
    assert(derivable(forward, i));
    lemma_row_counts(forward, n);
}

/// The first `n` forward rows give at least one row each and at most two.
proof fn lemma_row_counts(forward: Seq<ForwardRow>, n: int)
    requires
        0 <= n,
    ensures
        n <= rows_before(forward, n) <= 2 * n,
    decreases n,
{
    if n > 0 {
        lemma_row_counts(forward, n - 1);
    }
}

/// Whether the instants of all rows are continuous, that is, none of them
/// lies in a leap second.
pub open spec fn continuous_rows(rows: Seq<ForwardRow>) -> bool {
    forall|i: int| 0 <= i < rows.len() ==> (#[trigger] rows[i]).instant.is_continuous()
}

/// Whether a UTC instant lies in seconds that the table removes: the next
/// row lowers the offset, and the instant is closer to that row than the
/// offset falls. UTC never shows such an instant.
pub open spec fn in_removed_seconds(rows: Seq<ForwardRow>, utc: Instant) -> bool {
    let next = scan_end(forward_instants(rows), utc, 0);
    &&& 0 < next < rows.len()
    &&& rows[next].offset < rows[next - 1].offset
    &&& !utc.plus_seconds(rows[next - 1].offset - rows[next].offset).before(rows[next].instant)
}

/// From UTC to TAI and back: a UTC instant that lies neither in an inserted
/// leap second nor in removed seconds is what its TAI instant converts to.
///
/// The two tables are taken as ascending, the rows of the forward table as
/// continuous, and the reverse table as derived from the forward table.
pub proof fn law_utc_tai_utc_round_trip(
    forward: Seq<ForwardRow>,
    reverse: Seq<ReverseRow>,
    utc: Instant,
    tai: Instant,
)
    requires
        ascending(forward_instants(forward)),
        continuous_rows(forward),
        reverse_table(forward) == Ok::<Seq<ReverseRow>, ErrorView>(reverse),
        ascending(reverse_instants(reverse)),
        utc.representable(),
        utc.is_continuous(),
        !in_removed_seconds(forward, utc),
        utc2tai_instant(forward, utc) == Ok::<Instant, ErrorView>(tai),
    ensures
        tai2utc_instant(reverse, tai) == Ok::<Instant, ErrorView>(utc),
{
    let keys = forward_instants(forward);
    let n = forward.len() as int;
    let next = scan_end(keys, utc, 0);
    lemma_scan_end(keys, utc, 0);
    let k = next - 1;
    assert(keys[k].not_after(utc));
    assert(forward[k].instant.is_continuous());
    assert(tai == utc.plus_seconds(forward[k].offset));
    lemma_derived_rows_at(forward, k, n);
    let end = rows_before(forward, next);
    let reverse_keys = reverse_instants(reverse);
    assert(reverse_keys[end - 1] == final_row(forward[k]).instant);
    assert(reverse_keys[end - 1].not_after(tai));
    if next < n {
        lemma_derived_rows_at(forward, next, n);
        assert(forward[next].instant.is_continuous());
        assert(utc.before(keys[next]));
        assert(tai.before(reverse_keys[end]));
    }
    lemma_scan_end_is(reverse_keys, tai, end);
}

/// From UTC to TAI and back inside an inserted second: a UTC instant written
/// as the leap second before a row that raises the offset by one second is
/// what its TAI instant converts to.
///
/// The two tables are taken as ascending, the rows of the forward table as
/// continuous, and the reverse table as derived from the forward table.
pub proof fn law_leap_second_round_trip(
    forward: Seq<ForwardRow>,
    reverse: Seq<ReverseRow>,
    utc: Instant,
    tai: Instant,
)
    requires
        ascending(forward_instants(forward)),
        continuous_rows(forward),
        reverse_table(forward) == Ok::<Seq<ReverseRow>, ErrorView>(reverse),
        ascending(reverse_instants(reverse)),
        utc.representable(),
        !utc.is_continuous(),
        ({
            let next = scan_end(forward_instants(forward), utc, 0);
            &&& 0 < next < forward.len()
            &&& forward[next].instant == (Instant { secs: utc.secs + 1, nanos: 0 })
            &&& forward[next].offset == forward[next - 1].offset + 1
        }),
        utc2tai_instant(forward, utc) == Ok::<Instant, ErrorView>(tai),
    ensures
        tai2utc_instant(reverse, tai) == Ok::<Instant, ErrorView>(utc),
{
    let keys = forward_instants(forward);
    let n = forward.len() as int;
    let next = scan_end(keys, utc, 0);
    lemma_scan_end(keys, utc, 0);
    let k = next - 1;
    assert(tai == utc.normalized().plus_seconds(forward[k].offset));
    lemma_derived_rows_at(forward, next, n);
    let at = rows_before(forward, next);
    let reverse_keys = reverse_instants(reverse);
    assert(reverse[at] == transitional_row(forward[next], forward[k].offset));
    assert(reverse_keys[at] == reverse[at].instant);
    assert(reverse_keys[at].not_after(tai));
    assert(reverse[at + 1] == final_row(forward[next]));
    assert(reverse_keys[at + 1] == reverse[at + 1].instant);
    assert(tai.before(reverse_keys[at + 1]));
    lemma_scan_end_is(reverse_keys, tai, at + 1);
}

/// From TAI to UTC and back: a TAI instant outside any transitional window,
/// that is, one at which a row without correction is in effect, is what its
/// UTC instant converts to.
///
/// The two tables are taken as ascending, the rows of the forward table as
/// continuous, and the reverse table as derived from the forward table.
pub proof fn law_tai_utc_tai_round_trip(
    forward: Seq<ForwardRow>,
    reverse: Seq<ReverseRow>,
    tai: Instant,
    utc: Instant,
)
    requires
        ascending(forward_instants(forward)),
        continuous_rows(forward),
        reverse_table(forward) == Ok::<Seq<ReverseRow>, ErrorView>(reverse),
        ascending(reverse_instants(reverse)),
        tai.representable(),
        tai.is_continuous(),
        dominant_reverse_row(reverse, tai) matches Some(row) && row.correction == 0,
        tai2utc_instant(reverse, tai) == Ok::<Instant, ErrorView>(utc),
    ensures
        utc2tai_instant(forward, utc) == Ok::<Instant, ErrorView>(tai),
{
    let n = forward.len() as int;
    let reverse_keys = reverse_instants(reverse);
    let end = scan_end(reverse_keys, tai, 0);
    lemma_scan_end(reverse_keys, tai, 0);
    let at = end - 1;
    lemma_source_row(forward, n, at);
    let i = source_row(forward, n, at);
    lemma_derived_rows_at(forward, i, n);
    assert(reverse[at] == final_row(forward[i]));
    assert(forward[i].instant.is_continuous());
    assert(utc == tai.plus_seconds(-forward[i].offset));
    let keys = forward_instants(forward);
    assert(reverse_keys[at].not_after(tai));
    assert(reverse_keys[at] == final_row(forward[i]).instant);
    assert(keys[i] == forward[i].instant);
    assert(keys[i].not_after(utc));
    if i + 1 < n {
        lemma_derived_rows_at(forward, i + 1, n);
        assert(forward[i + 1].instant.is_continuous());
        assert(tai.before(reverse_keys[end]));
        assert(utc.before(keys[i + 1]));
    }
    lemma_scan_end_is(keys, utc, i + 1);
}

/// From TAI to UTC and back inside one inserted second: a TAI instant at
/// which a row with a correction of one second is in effect is what its UTC
/// instant, a leap second, converts to.
///
/// The two tables are taken as ascending, the rows of the forward table as
/// standing at whole seconds, no two of them at one instant, and the
/// reverse table as derived from the forward table.
pub proof fn law_inserted_second_round_trip(
    forward: Seq<ForwardRow>,
    reverse: Seq<ReverseRow>,
    tai: Instant,
    utc: Instant,
)
    requires
        ascending(forward_instants(forward)),
        forall|i: int|
            0 < i < forward.len() ==> forward[i - 1].instant != (#[trigger] forward[i]).instant,
        forall|i: int| 0 <= i < forward.len() ==> (#[trigger] forward[i]).instant.nanos == 0,
        reverse_table(forward) == Ok::<Seq<ReverseRow>, ErrorView>(reverse),
        ascending(reverse_instants(reverse)),
        tai.representable(),
        tai.is_continuous(),
        dominant_reverse_row(reverse, tai) matches Some(row) && row.correction == 1,
        tai2utc_instant(reverse, tai) == Ok::<Instant, ErrorView>(utc),
    ensures
        utc2tai_instant(forward, utc) == Ok::<Instant, ErrorView>(tai),
{
    let n = forward.len() as int;
    let reverse_keys = reverse_instants(reverse);
    let end = scan_end(reverse_keys, tai, 0);
    lemma_scan_end(reverse_keys, tai, 0);
    let at = end - 1;
    lemma_source_row(forward, n, at);
    let i = source_row(forward, n, at);
    lemma_derived_rows_at(forward, i, n);
    assert(reverse[at] == transitional_row(forward[i], forward[i - 1].offset));
    assert(reverse[at + 1] == final_row(forward[i]));
    assert(reverse_keys[at] == reverse[at].instant);
    assert(reverse_keys[at + 1] == reverse[at + 1].instant);
    assert(reverse_keys[at].not_after(tai));
    assert(tai.before(reverse_keys[at + 1]));
    assert(forward[i].instant.nanos == 0);
    assert(forward[i - 1].instant.nanos == 0);
    let keys = forward_instants(forward);
    assert(keys[i - 1].not_after(keys[i]));
    assert(keys[i - 1] == forward[i - 1].instant);
    assert(keys[i] == forward[i].instant);
    assert(keys[i - 1].not_after(utc));
    assert(utc.before(keys[i]));
    lemma_scan_end_is(keys, utc, i);
}

/// From TAI to TT and back: the elapsed time of a TAI instant is what its
/// TT instant converts to. That is the instant itself where it is
/// continuous; an instant written as a leap second comes back written
/// without one.
pub proof fn law_tai_tt_tai_round_trip(tai: Instant, tt: Instant)
    requires
        tai.representable(),
        tai2tt_instant(tai) == Ok::<Instant, ErrorView>(tt),
    ensures
        tai.normalized().representable() ==> tt2tai_instant(tt) == Ok::<Instant, ErrorView>(
            tai.normalized(),
        ),
        tai.is_continuous() ==> tt2tai_instant(tt) == Ok::<Instant, ErrorView>(tai),
{
}

/// From TT to TAI and back: the elapsed time of a TT instant is what its
/// TAI instant converts to. That is the instant itself where it is
/// continuous; an instant written as a leap second comes back written
/// without one.
pub proof fn law_tt_tai_tt_round_trip(tt: Instant, tai: Instant)
    requires
        tt.representable(),
        tt2tai_instant(tt) == Ok::<Instant, ErrorView>(tai),
    ensures
        tt.normalized().representable() ==> tai2tt_instant(tai) == Ok::<Instant, ErrorView>(
            tt.normalized(),
        ),
        tt.is_continuous() ==> tai2tt_instant(tai) == Ok::<Instant, ErrorView>(tt),
{
}

} // verus!
