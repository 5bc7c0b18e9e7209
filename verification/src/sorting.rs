use crate::records::TradeRecord;
use vstd::prelude::*;

verus! {

/// Ascending chronological order, the order both analytics passes consume.
pub open spec fn sorted_by_time(s: Seq<TradeRecord>) -> bool {
    forall|i: int, j: int|
        0 <= i <= j < s.len() ==> #[trigger] s[i].datetime <= #[trigger] s[j].datetime
}

/// Sort trades ascending by event time: the result is a chronologically
/// ordered permutation of the input, built by insertion into an output
/// vector.
pub fn sort_trades_by_time(v: &Vec<TradeRecord>) -> (r: Vec<TradeRecord>)
    ensures
        sorted_by_time(r@),
        r@.to_multiset() == v@.to_multiset(),
        r@.len() == v@.len(),
{
    let mut out: Vec<TradeRecord> = Vec::new();
    proof {
        assert(v@.take(0) =~= Seq::<TradeRecord>::empty());
        assert(out@.to_multiset() =~= v@.take(0).to_multiset());
    }
    let mut idx: usize = 0;
    while idx < v.len()
        invariant
            idx <= v@.len(),
            out@.len() == idx,
            sorted_by_time(out@),
            out@.to_multiset() == v@.take(idx as int).to_multiset(),
        decreases v@.len() - idx,
    {
        let x = v[idx];
        let mut p: usize = out.len();
        while p > 0 && out[p - 1].datetime > x.datetime
            invariant
                p <= out@.len(),
                sorted_by_time(out@),
                forall|k: int| p <= k < out@.len() ==> #[trigger] out@[k].datetime > x.datetime,
            decreases p,
        {
            p -= 1;
        }
        let ghost prev = out@;
        let ghost pos = p as int;
        out.insert(p, x);
        proof {
            prev.insert_ensures(pos, x);
            assert(sorted_by_time(out@)) by {
                assert forall|a: int, b: int|
                    0 <= a <= b < out@.len() implies #[trigger] out@[a].datetime
                    <= #[trigger] out@[b].datetime by {
                    if a < pos && b < pos {
                        assert(out@[a] == prev[a] && out@[b] == prev[b]);
                    } else if a < pos && b == pos {
                        assert(out@[a] == prev[a]);
                        assert(prev[a].datetime <= prev[pos - 1].datetime);
                    } else if a == pos && b == pos {
                    } else if a == pos && b > pos {
                        assert(out@[b] == prev[b - 1]);
                    } else if a < pos && b > pos {
                        assert(out@[a] == prev[a] && out@[b] == prev[b - 1]);
                    } else {
                        // pos < a <= b
                        assert(out@[a] == prev[a - 1] && out@[b] == prev[b - 1]);
                    }
                }
            }
            assert(out@.to_multiset() == v@.take(idx + 1).to_multiset()) by {
                vstd::seq_lib::to_multiset_insert(prev, pos, x);
                assert(v@.take(idx + 1) =~= v@.take(idx as int).push(v@[idx as int]));
                vstd::seq_lib::to_multiset_build(v@.take(idx as int), v@[idx as int]);
            }
        }
        idx += 1;
    }
    proof {
        assert(v@.take(v@.len() as int) =~= v@);
    }
    out
}

} // verus!
