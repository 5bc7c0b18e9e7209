use crate::records::DepthRecord;
use vstd::prelude::*;

verus! {

/// The load-bearing ordering assumption on the depth ladder: snapshots come
/// from an append-only capture and are already ascending by time. The index
/// never re-sorts them.
pub open spec fn depths_ascending(s: Seq<DepthRecord>) -> bool {
    forall|i: int, j: int|
        0 <= i <= j < s.len() ==> #[trigger] s[i].datetime <= #[trigger] s[j].datetime
}

/// The as-of join, as a recursive scan from the end: the index of the last
/// element whose time is strictly before `t`, or `None` when no element
/// precedes `t`.
pub open spec fn spec_asof(s: Seq<DepthRecord>, t: i64) -> Option<int>
    decreases s.len(),
{
    if s.len() == 0 {
        None
    } else if s.last().datetime < t {
        Some(s.len() - 1)
    } else {
        spec_asof(s.drop_last(), t)
    }
}

proof fn lemma_asof_none(s: Seq<DepthRecord>, t: i64)
    requires
        forall|j: int| 0 <= j < s.len() ==> #[trigger] s[j].datetime >= t,
    ensures
        spec_asof(s, t) is None,
    decreases s.len(),
{
    if s.len() > 0 {
        assert(forall|j: int|
            0 <= j < s.drop_last().len() ==> #[trigger] s.drop_last()[j].datetime >= t);
        lemma_asof_none(s.drop_last(), t);
    }
}

proof fn lemma_asof_some(s: Seq<DepthRecord>, t: i64, i: int)
    requires
        0 <= i < s.len(),
        s[i].datetime < t,
        forall|j: int| i < j < s.len() ==> #[trigger] s[j].datetime >= t,
    ensures
        spec_asof(s, t) == Some(i),
    decreases s.len(),
{
    if i == s.len() - 1 {
    } else {
        assert(s.last().datetime >= t);
        assert(forall|j: int|
            i < j < s.drop_last().len() ==> #[trigger] s.drop_last()[j].datetime >= t);
        lemma_asof_some(s.drop_last(), t, i);
    }
}

/// What the as-of join returns: a found index points at an element strictly
/// before `t` with nothing before `t` to its right; `None` means every
/// element is at or after `t`.
pub proof fn lemma_asof_characterization(s: Seq<DepthRecord>, t: i64)
    ensures
        match spec_asof(s, t) {
            Some(i) => {
                &&& 0 <= i < s.len()
                &&& s[i].datetime < t
                &&& forall|j: int| i < j < s.len() ==> #[trigger] s[j].datetime >= t
            },
            None => forall|j: int| 0 <= j < s.len() ==> #[trigger] s[j].datetime >= t,
        },
    decreases s.len(),
{
    if s.len() > 0 && !(s.last().datetime < t) {
        lemma_asof_characterization(s.drop_last(), t);
        match spec_asof(s.drop_last(), t) {
            Some(i) => {
                assert forall|j: int| i < j < s.len() implies #[trigger] s[j].datetime >= t by {
                    if j < s.len() - 1 {
                        assert(s[j] == s.drop_last()[j]);
                    }
                }
            },
            None => {
                assert forall|j: int| 0 <= j < s.len() implies #[trigger] s[j].datetime >= t by {
                    if j < s.len() - 1 {
                        assert(s[j] == s.drop_last()[j]);
                    }
                }
            },
        }
    }
}

/// On an ascending ladder the as-of join is the element with the maximum
/// time strictly before `t`, when any element precedes `t` at all.
pub proof fn lemma_asof_is_latest(s: Seq<DepthRecord>, t: i64)
    requires
        depths_ascending(s),
    ensures
        match spec_asof(s, t) {
            Some(i) => {
                &&& 0 <= i < s.len()
                &&& s[i].datetime < t
                &&& forall|j: int|
                    0 <= j < s.len() && #[trigger] s[j].datetime < t ==> s[j].datetime
                        <= s[i].datetime
            },
            None => forall|j: int| 0 <= j < s.len() ==> #[trigger] s[j].datetime >= t,
        },
{
    lemma_asof_characterization(s, t);
    if let Some(i) = spec_asof(s, t) {
        assert forall|j: int|
            0 <= j < s.len() && #[trigger] s[j].datetime < t implies s[j].datetime
            <= s[i].datetime by {
            if j > i {
                assert(s[j].datetime >= t);
            }
        }
    }
}

/// Binary search for the latest snapshot strictly before `t` over the
/// ascending ladder: the executable form of `spec_asof`, in logarithmic
/// rather than linear time.
pub fn latest_before(depths: &Vec<DepthRecord>, t: i64) -> (r: Option<usize>)
    requires
        depths_ascending(depths@),
    ensures
        match r {
            Some(i) => spec_asof(depths@, t) == Some(i as int),
            None => spec_asof(depths@, t) is None,
        },
{
    let mut lo: usize = 0;
    let mut hi: usize = depths.len();
    while lo < hi
        invariant
            0 <= lo <= hi <= depths@.len(),
            depths_ascending(depths@),
            forall|k: int| 0 <= k < lo ==> #[trigger] depths@[k].datetime < t,
            forall|k: int| hi <= k < depths@.len() ==> #[trigger] depths@[k].datetime >= t,
        decreases hi - lo,
    {
        let mid = lo + (hi - lo) / 2;
        if depths[mid].datetime < t {
            lo = mid + 1;
        } else {
            hi = mid;
        }
    }
    if lo == 0 {
        proof {
            lemma_asof_none(depths@, t);
        }
        None
    } else {
        proof {
            lemma_asof_some(depths@, t, lo - 1);
        }
        Some(lo - 1)
    }
}

} // verus!
