use crate::records::{Chart, Ratio, Stats, TradeRecord};
use crate::timefmt::{spec_timestamp_text, timestamp_to_datetime_str};
use vstd::prelude::*;

verus! {

/// Machine limits under which every accumulator of the analytics passes
/// provably fits its integer type: prices within `PRICE_LIMIT` fixed-point
/// units in magnitude, volumes within `VOLUME_LIMIT`, and at most
/// `TRADE_COUNT_LIMIT` trades per file.
pub const PRICE_LIMIT: i64 = 0x100_0000_0000;

pub const VOLUME_LIMIT: i64 = 0x100_0000_0000;

pub const TRADE_COUNT_LIMIT: usize = 0x40_0000;

pub open spec fn trade_in_range(t: TradeRecord) -> bool {
    &&& 0 <= t.volume <= VOLUME_LIMIT
    &&& -PRICE_LIMIT <= t.price <= PRICE_LIMIT
}

/// The precondition of both analytics passes: volumes are non-negative, and
/// every value is small enough that volume sums fit an `i64` and notional
/// sums fit an `i128`.
pub open spec fn analytics_in_range(s: Seq<TradeRecord>) -> bool {
    &&& s.len() <= TRADE_COUNT_LIMIT
    &&& forall|i: int| 0 <= i < s.len() ==> trade_in_range(#[trigger] s[i])
}

/// Total traded volume of a trade sequence.
pub open spec fn sum_volume(s: Seq<TradeRecord>) -> int
    decreases s.len(),
{
    if s.len() == 0 {
        0
    } else {
        sum_volume(s.drop_last()) + s.last().volume
    }
}

/// Total notional (price times volume summed) of a trade sequence.
pub open spec fn sum_notional(s: Seq<TradeRecord>) -> int
    decreases s.len(),
{
    if s.len() == 0 {
        0
    } else {
        sum_notional(s.drop_last()) + s.last().price * s.last().volume
    }
}

pub proof fn lemma_sum_bounds(s: Seq<TradeRecord>)
    requires
        forall|i: int| 0 <= i < s.len() ==> trade_in_range(#[trigger] s[i]),
    ensures
        0 <= sum_volume(s) <= s.len() * VOLUME_LIMIT,
        -(s.len() * (PRICE_LIMIT * VOLUME_LIMIT)) <= sum_notional(s) <= s.len() * (PRICE_LIMIT
            * VOLUME_LIMIT),
    decreases s.len(),
{
    if s.len() > 0 {
        assert(forall|i: int|
            0 <= i < s.drop_last().len() ==> trade_in_range(#[trigger] s.drop_last()[i]));
        lemma_sum_bounds(s.drop_last());
        let x = s.last();
        assert(trade_in_range(x));
        assert(-(PRICE_LIMIT * VOLUME_LIMIT) <= x.price * x.volume <= PRICE_LIMIT * VOLUME_LIMIT)
            by (nonlinear_arith)
            requires
                -PRICE_LIMIT <= x.price <= PRICE_LIMIT,
                0 <= x.volume <= VOLUME_LIMIT,
        ;
    }
}

/// The chart's running VWAP entry for the trade at index `i`: the exact
/// rational notional-over-volume of the prefix through `i`, or the defined
/// zero when the prefix volume sum is zero.
pub open spec fn spec_vwap_at(s: Seq<TradeRecord>, i: int) -> Ratio
    recommends
        analytics_in_range(s),
        0 <= i < s.len(),
{
    let pre = s.take(i + 1);
    if sum_volume(pre) > 0 {
        Ratio { num: sum_notional(pre) as i128, den: sum_volume(pre) as i128 }
    } else {
        Ratio { num: 0, den: 1 }
    }
}

/// What the chart holds for the trade sequence `s`, one entry per trade in
/// the given (ascending) order.
pub open spec fn chart_matches(c: Chart, s: Seq<TradeRecord>) -> bool {
    &&& c.timestamps@.len() == s.len()
    &&& c.prices@.len() == s.len()
    &&& c.volumes@.len() == s.len()
    &&& c.total_volumes@.len() == s.len()
    &&& c.vwap@.len() == s.len()
    &&& forall|k: int|
        0 <= k < s.len() ==> (#[trigger] c.timestamps@[k])@ == spec_timestamp_text(s[k].datetime)
    &&& forall|k: int| 0 <= k < s.len() ==> #[trigger] c.prices@[k] == s[k].price
    &&& forall|k: int| 0 <= k < s.len() ==> #[trigger] c.volumes@[k] == s[k].volume
    &&& forall|k: int| 0 <= k < s.len() ==> #[trigger] c.total_volumes@[k] == sum_volume(s.take(k + 1))
    &&& forall|k: int| 0 <= k < s.len() ==> #[trigger] c.vwap@[k] == spec_vwap_at(s, k)
}

/// One ascending pass over the trades: per-trade timestamp text, price and
/// volume, the running cumulative volume, and the running whole-history VWAP.
pub fn process_chart(trades: &Vec<TradeRecord>) -> (c: Chart)
    requires
        analytics_in_range(trades@),
    ensures
        chart_matches(c, trades@),
{
    let ghost s = trades@;
    let mut timestamps: Vec<String> = Vec::new();
    let mut prices: Vec<i64> = Vec::new();
    let mut volumes: Vec<i64> = Vec::new();
    let mut total_volumes: Vec<i64> = Vec::new();
    let mut vwap: Vec<Ratio> = Vec::new();
    let mut cum_vol: i64 = 0;
    let mut cum_notional: i128 = 0;
    let mut i: usize = 0;
    proof {
        assert(s.take(0) =~= Seq::<TradeRecord>::empty());
    }
    while i < trades.len()
        invariant
            i <= s.len(),
            s == trades@,
            analytics_in_range(s),
            timestamps@.len() == i,
            prices@.len() == i,
            volumes@.len() == i,
            total_volumes@.len() == i,
            vwap@.len() == i,
            cum_vol == sum_volume(s.take(i as int)),
            cum_notional == sum_notional(s.take(i as int)),
            forall|k: int|
                0 <= k < i ==> (#[trigger] timestamps@[k])@ == spec_timestamp_text(s[k].datetime),
            forall|k: int| 0 <= k < i ==> #[trigger] prices@[k] == s[k].price,
            forall|k: int| 0 <= k < i ==> #[trigger] volumes@[k] == s[k].volume,
            forall|k: int| 0 <= k < i ==> #[trigger] total_volumes@[k] == sum_volume(s.take(k + 1)),
            forall|k: int| 0 <= k < i ==> #[trigger] vwap@[k] == spec_vwap_at(s, k),
        decreases s.len() - i,
    {
        let t = trades[i];
        proof {
            assert(s.take(i + 1).drop_last() =~= s.take(i as int));
            assert(s.take(i + 1).last() == s[i as int]);
            assert(forall|k: int|
                0 <= k < s.take(i + 1).len() ==> trade_in_range(#[trigger] s.take(i + 1)[k]));
            lemma_sum_bounds(s.take(i + 1));
            lemma_sum_bounds(s.take(i as int));
            assert(s.take(i + 1).len() * VOLUME_LIMIT <= TRADE_COUNT_LIMIT * VOLUME_LIMIT)
                by (nonlinear_arith)
                requires
                    s.take(i + 1).len() <= TRADE_COUNT_LIMIT,
            ;
            assert(s.take(i + 1).len() * (PRICE_LIMIT * VOLUME_LIMIT) <= TRADE_COUNT_LIMIT * (
            PRICE_LIMIT * VOLUME_LIMIT)) by (nonlinear_arith)
                requires
                    s.take(i + 1).len() <= TRADE_COUNT_LIMIT,
            ;
            assert(-(PRICE_LIMIT * VOLUME_LIMIT) <= t.price * t.volume <= PRICE_LIMIT
                * VOLUME_LIMIT) by (nonlinear_arith)
                requires
                    -PRICE_LIMIT <= t.price <= PRICE_LIMIT,
                    0 <= t.volume <= VOLUME_LIMIT,
            ;
        }
        cum_vol = cum_vol + t.volume;
        let pv: i128 = (t.price as i128) * (t.volume as i128);
        cum_notional = cum_notional + pv;
        timestamps.push(timestamp_to_datetime_str(t.datetime));
        prices.push(t.price);
        volumes.push(t.volume);
        total_volumes.push(cum_vol);
        if cum_vol > 0 {
            vwap.push(Ratio { num: cum_notional, den: cum_vol as i128 });
        } else {
            vwap.push(Ratio { num: 0, den: 1 });
        }
        i = i + 1;
    }
    proof {
        assert(s.take(s.len() as int) =~= s);
    }
    Chart { timestamps, prices, volumes, total_volumes, vwap }
}

/// Highest trade price of a non-empty sequence.
pub open spec fn max_price(s: Seq<TradeRecord>) -> int
    recommends
        s.len() > 0,
    decreases s.len(),
{
    if s.len() <= 1 {
        s[0].price as int
    } else {
        let m = max_price(s.drop_last());
        if s.last().price > m {
            s.last().price as int
        } else {
            m
        }
    }
}

/// Lowest trade price of a non-empty sequence.
pub open spec fn min_price(s: Seq<TradeRecord>) -> int
    recommends
        s.len() > 0,
    decreases s.len(),
{
    if s.len() <= 1 {
        s[0].price as int
    } else {
        let m = min_price(s.drop_last());
        if s.last().price < m {
            s.last().price as int
        } else {
            m
        }
    }
}

/// The average price: total notional over total volume as an exact rational,
/// or the defined zero when the total volume is zero.
pub open spec fn spec_avg_price(s: Seq<TradeRecord>) -> Ratio
    recommends
        analytics_in_range(s),
{
    if sum_volume(s) > 0 {
        Ratio { num: sum_notional(s) as i128, den: sum_volume(s) as i128 }
    } else {
        Ratio { num: 0, den: 1 }
    }
}

/// The percentage change: `change / open_price * 100` as an exact rational,
/// or the defined zero when the open price is not positive.
pub open spec fn spec_change_pct(s: Seq<TradeRecord>) -> Ratio
    recommends
        s.len() > 0,
{
    if s[0].price > 0 {
        Ratio {
            num: (100 * (s.last().price - s[0].price)) as i128,
            den: s[0].price as i128,
        }
    } else {
        Ratio { num: 0, den: 1 }
    }
}

/// What the summary statistics hold for the (chronologically ordered,
/// non-empty) trade sequence `s`.
pub open spec fn stats_match(st: Stats, s: Seq<TradeRecord>) -> bool
    recommends
        s.len() > 0,
{
    &&& st.open_price == s[0].price
    &&& st.current_price == s.last().price
    &&& st.high_price == max_price(s)
    &&& st.low_price == min_price(s)
    &&& st.total_volume == sum_volume(s)
    &&& st.trade_count == s.len()
    &&& st.change == s.last().price - s[0].price
    &&& st.avg_price == spec_avg_price(s)
    &&& st.change_pct == spec_change_pct(s)
}

/// One pass over the chronologically ordered trades computing the end-of-day
/// summary: open, current, high, low, exact average price, total volume,
/// trade count, and the exact absolute and percentage change.
pub fn calculate_stats(trades: &Vec<TradeRecord>) -> (st: Stats)
    requires
        trades@.len() > 0,
        analytics_in_range(trades@),
    ensures
        stats_match(st, trades@),
{
    let ghost s = trades@;
    let open_price = trades[0].price;
    let mut high: i64 = trades[0].price;
    let mut low: i64 = trades[0].price;
    let mut cum_vol: i64 = 0;
    let mut cum_notional: i128 = 0;
    proof {
        assert(s.take(0) =~= Seq::<TradeRecord>::empty());
        assert(s.take(1).drop_last() =~= s.take(0));
        assert(s.take(1)[0] == s[0]);
    }
    let mut i: usize = 0;
    while i < trades.len()
        invariant
            i <= s.len(),
            s == trades@,
            s.len() > 0,
            analytics_in_range(s),
            cum_vol == sum_volume(s.take(i as int)),
            cum_notional == sum_notional(s.take(i as int)),
            i > 0 ==> high == max_price(s.take(i as int)),
            i > 0 ==> low == min_price(s.take(i as int)),
            i == 0 ==> high == s[0].price && low == s[0].price,
        decreases s.len() - i,
    {
        let t = trades[i];
        proof {
            assert(s.take(i + 1).drop_last() =~= s.take(i as int));
            assert(s.take(i + 1).last() == s[i as int]);
            assert(s.take(i + 1)[0] == s[0]);
            assert(forall|k: int|
                0 <= k < s.take(i + 1).len() ==> trade_in_range(#[trigger] s.take(i + 1)[k]));
            lemma_sum_bounds(s.take(i + 1));
            lemma_sum_bounds(s.take(i as int));
            assert(s.take(i + 1).len() * VOLUME_LIMIT <= TRADE_COUNT_LIMIT * VOLUME_LIMIT)
                by (nonlinear_arith)
                requires
                    s.take(i + 1).len() <= TRADE_COUNT_LIMIT,
            ;
            assert(s.take(i + 1).len() * (PRICE_LIMIT * VOLUME_LIMIT) <= TRADE_COUNT_LIMIT * (
            PRICE_LIMIT * VOLUME_LIMIT)) by (nonlinear_arith)
                requires
                    s.take(i + 1).len() <= TRADE_COUNT_LIMIT,
            ;
            assert(-(PRICE_LIMIT * VOLUME_LIMIT) <= t.price * t.volume <= PRICE_LIMIT
                * VOLUME_LIMIT) by (nonlinear_arith)
                requires
                    -PRICE_LIMIT <= t.price <= PRICE_LIMIT,
                    0 <= t.volume <= VOLUME_LIMIT,
            ;
        }
        if t.price > high {
            high = t.price;
        }
        if t.price < low {
            low = t.price;
        }
        cum_vol = cum_vol + t.volume;
        let pv: i128 = (t.price as i128) * (t.volume as i128);
        cum_notional = cum_notional + pv;
        i = i + 1;
    }
    proof {
        assert(s.take(s.len() as int) =~= s);
    }
    let current_price = trades[trades.len() - 1].price;
    let change = current_price - open_price;
    let total_volume = cum_vol;
    let avg_price = if total_volume > 0 {
        Ratio { num: cum_notional, den: total_volume as i128 }
    } else {
        Ratio { num: 0, den: 1 }
    };
    let change_pct = if open_price > 0 {
        Ratio { num: (change as i128) * 100, den: open_price as i128 }
    } else {
        Ratio { num: 0, den: 1 }
    };
    Stats {
        current_price,
        open_price,
        high_price: high,
        low_price: low,
        avg_price,
        total_volume,
        trade_count: trades.len(),
        change,
        change_pct,
    }
}

proof fn lemma_sum_volume_mono(s: Seq<TradeRecord>, a: int, b: int)
    requires
        forall|i: int| 0 <= i < s.len() ==> 0 <= (#[trigger] s[i]).volume,
        0 <= a <= b <= s.len(),
    ensures
        sum_volume(s.take(a)) <= sum_volume(s.take(b)),
    decreases b - a,
{
    if a < b {
        lemma_sum_volume_mono(s, a, b - 1);
        assert(s.take(b).drop_last() =~= s.take(b - 1));
        assert(s.take(b).last() == s[b - 1]);
    }
}

/// The chart invariants: the cumulative volume series never decreases, and
/// each running VWAP entry is exactly the prefix notional over the prefix
/// volume, taking the defined-zero form precisely when that prefix volume
/// sum is zero.
pub proof fn lemma_chart_invariants(s: Seq<TradeRecord>)
    requires
        analytics_in_range(s),
    ensures
        forall|i: int, j: int|
            0 <= i <= j < s.len() ==> sum_volume(#[trigger] s.take(i + 1)) <= sum_volume(
                #[trigger] s.take(j + 1),
            ),
        forall|i: int|
            0 <= i < s.len() && sum_volume(#[trigger] s.take(i + 1)) == 0 ==> spec_vwap_at(s, i)
                == (Ratio { num: 0, den: 1 }),
        forall|i: int|
            0 <= i < s.len() && sum_volume(#[trigger] s.take(i + 1)) > 0 ==> {
                &&& spec_vwap_at(s, i).num == sum_notional(s.take(i + 1))
                &&& spec_vwap_at(s, i).den == sum_volume(s.take(i + 1))
                &&& spec_vwap_at(s, i).den > 0
            },
{
    assert forall|i: int, j: int| 0 <= i <= j < s.len() implies sum_volume(#[trigger] s.take(i + 1))
        <= sum_volume(#[trigger] s.take(j + 1)) by {
        lemma_sum_volume_mono(s, i + 1, j + 1);
    }
    assert forall|i: int| 0 <= i < s.len() && sum_volume(#[trigger] s.take(i + 1)) > 0 implies {
        &&& spec_vwap_at(s, i).num == sum_notional(s.take(i + 1))
        &&& spec_vwap_at(s, i).den == sum_volume(s.take(i + 1))
        &&& spec_vwap_at(s, i).den > 0
    } by {
        assert(forall|k: int|
            0 <= k < s.take(i + 1).len() ==> trade_in_range(#[trigger] s.take(i + 1)[k]));
        lemma_sum_bounds(s.take(i + 1));
        assert(s.take(i + 1).len() * VOLUME_LIMIT <= TRADE_COUNT_LIMIT * VOLUME_LIMIT)
            by (nonlinear_arith)
            requires
                s.take(i + 1).len() <= TRADE_COUNT_LIMIT,
        ;
        assert(s.take(i + 1).len() * (PRICE_LIMIT * VOLUME_LIMIT) <= TRADE_COUNT_LIMIT * (
        PRICE_LIMIT * VOLUME_LIMIT)) by (nonlinear_arith)
            requires
                s.take(i + 1).len() <= TRADE_COUNT_LIMIT,
        ;
    }
}

/// The stats invariants: the absolute change is exactly current minus open,
/// the percentage change takes the defined-zero form whenever the open price
/// is not positive, and the high never lies below the low.
pub proof fn lemma_stats_invariants(st: Stats, s: Seq<TradeRecord>)
    requires
        s.len() > 0,
        stats_match(st, s),
    ensures
        st.change == st.current_price - st.open_price,
        st.open_price <= 0 ==> st.change_pct == (Ratio { num: 0, den: 1 }),
        st.high_price >= st.low_price,
{
    lemma_min_le_max(s);
}

proof fn lemma_min_le_max(s: Seq<TradeRecord>)
    requires
        s.len() > 0,
    ensures
        min_price(s) <= max_price(s),
    decreases s.len(),
{
    if s.len() > 1 {
        lemma_min_le_max(s.drop_last());
    }
}

/// Runtime test for `analytics_in_range`, so an unverified caller can
/// establish the analytics preconditions before asking for a chart or stats.
pub fn analytics_in_range_check(trades: &Vec<TradeRecord>) -> (b: bool)
    ensures
        b == analytics_in_range(trades@),
{
    if trades.len() > TRADE_COUNT_LIMIT {
        return false;
    }
    let mut i: usize = 0;
    while i < trades.len()
        invariant
            i <= trades@.len(),
            trades@.len() <= TRADE_COUNT_LIMIT,
            forall|k: int| 0 <= k < i ==> trade_in_range(#[trigger] trades@[k]),
        decreases trades@.len() - i,
    {
        let t = trades[i];
        if t.volume < 0 || t.volume > VOLUME_LIMIT || t.price < -PRICE_LIMIT || t.price
            > PRICE_LIMIT {
            return false;
        }
        i = i + 1;
    }
    true
}

} // verus!
