//! Tables for the conversion between UTC and TAI.
use crate::datetime::Instant;
use vstd::prelude::*;

pub mod taiutc;
pub mod utctai;

pub use taiutc::DiffTaiUtc;
pub use taiutc::TaiUtcTable;
pub use utctai::DiffUtcTai;
pub use utctai::UtcTaiTable;

verus! {

/// The index at which a scan of `keys` from `from` on stops: the first one
/// whose instant comes after `query` in calendar order, or the length.
pub open spec fn scan_end(keys: Seq<Instant>, query: Instant, from: int) -> int
    decreases keys.len() - from,
{
    if 0 <= from < keys.len() && keys[from].not_after(query) {
        scan_end(keys, query, from + 1)
    } else {
        from
    }
}

/// What a scan stops at: every row that it passed is not after `query`, and
/// the row at which it stopped, if there is one, is.
pub proof fn lemma_scan_end(keys: Seq<Instant>, query: Instant, from: int)
    requires
        0 <= from <= keys.len(),
    ensures
        from <= scan_end(keys, query, from) <= keys.len(),
        forall|i: int| from <= i < scan_end(keys, query, from) ==> (#[trigger] keys[i]).not_after(query),
        scan_end(keys, query, from) < keys.len() ==> query.before(keys[scan_end(keys, query, from)]),
    decreases keys.len() - from,
{
    if from < keys.len() && keys[from].not_after(query) {
        lemma_scan_end(keys, query, from + 1);
    }
}

/// Whether the instants stand in ascending calendar order, equal neighbours
/// allowed.
pub open spec fn ascending(keys: Seq<Instant>) -> bool {
    forall|i: int, j: int| 0 <= i <= j < keys.len() ==> (#[trigger] keys[i]).not_after(#[trigger] keys[j])
}

/// Instants of which each is not after the one that follows it stand in
/// ascending order.
pub proof fn lemma_ascending_by_neighbours(keys: Seq<Instant>)
    requires
        forall|i: int| 0 <= i < keys.len() - 1 ==> (#[trigger] keys[i]).not_after(keys[i + 1]),
    ensures
        ascending(keys),
{
    assert forall|i: int, j: int| 0 <= i <= j < keys.len() implies (#[trigger] keys[i]).not_after(
        #[trigger] keys[j],
    ) by {
        lemma_ascending_span(keys, i, j);
    }
}

/// A step of the proof above: from row `i` up to row `j`.
proof fn lemma_ascending_span(keys: Seq<Instant>, i: int, j: int)
    requires
        forall|k: int| 0 <= k < keys.len() - 1 ==> (#[trigger] keys[k]).not_after(keys[k + 1]),
        0 <= i <= j < keys.len(),
    ensures
        keys[i].not_after(keys[j]),
    decreases j - i,
{
    if i < j {
        lemma_ascending_span(keys, i, j - 1);
        assert(keys[j - 1].not_after(keys[j]));
    }
}

/// In an ascending table the scan stops at the one place that parts the rows
/// not after the query from the rows after it.
pub proof fn lemma_scan_end_is(keys: Seq<Instant>, query: Instant, end: int)
    requires
        ascending(keys),
        0 <= end <= keys.len(),
        end > 0 ==> keys[end - 1].not_after(query),
        end < keys.len() ==> query.before(keys[end]),
    ensures
        scan_end(keys, query, 0) == end,
{
    lemma_scan_end(keys, query, 0);
    let stop = scan_end(keys, query, 0);
    if stop < end {
        assert(keys[stop].not_after(keys[end - 1]));
    } else if stop > end {
        assert(keys[end].not_after(query));
    }
}

} // verus!
