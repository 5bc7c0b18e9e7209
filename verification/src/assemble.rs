use crate::analytics::{
    analytics_in_range, calculate_stats, chart_matches, process_chart, stats_match,
    trade_in_range,
};
use crate::classify::{determine_inner_outer, spec_classify, Side};
use crate::ladder::{depths_ascending, latest_before, lemma_asof_characterization, spec_asof};
use crate::records::{
    all_wf, Converted, DepthRecord, DepthSnapshot, PriceVolume, StockData, Trade, TradeRecord,
    DEPTH_LEVELS,
};
use crate::sorting::{sort_trades_by_time, sorted_by_time};
use crate::timefmt::{spec_timestamp_text, timestamp_to_datetime_str};
use vstd::prelude::*;

verus! {

/// The side assigned to a trade by the as-of join: the best bid and ask of
/// the latest snapshot strictly before the trade, or `Neutral` when no
/// snapshot precedes it.
pub open spec fn spec_classify_against(depths: Seq<DepthRecord>, t: TradeRecord) -> Side {
    match spec_asof(depths, t.datetime) {
        Some(i) => spec_classify(
            t.price,
            depths[i].spec_best_bid(),
            depths[i].spec_best_ask(),
        ),
        None => Side::Neutral,
    }
}

/// What one output trade holds for the decoded trade `t` joined against
/// `depths`.
pub open spec fn trade_out_matches(o: Trade, t: TradeRecord, depths: Seq<DepthRecord>) -> bool {
    &&& o.time@ == spec_timestamp_text(t.datetime)
    &&& o.price == t.price
    &&& o.volume == t.volume
    &&& o.flag == t.flag
    &&& o.inner_outer == spec_classify_against(depths, t)
}

/// Join each trade against the depth ladder and emit the labelled output
/// trades in the reverse of the input order, so an ascending input yields
/// the descending list the document carries.
pub fn process_trades(trades: &Vec<TradeRecord>, depths: &Vec<DepthRecord>) -> (r: Vec<Trade>)
    requires
        depths_ascending(depths@),
        all_wf(depths@),
    ensures
        r@.len() == trades@.len(),
        forall|k: int|
            0 <= k < r@.len() ==> trade_out_matches(
                #[trigger] r@[k],
                trades@[trades@.len() - 1 - k],
                depths@,
            ),
{
    let mut r: Vec<Trade> = Vec::new();
    let mut i: usize = trades.len();
    while i > 0
        invariant
            i <= trades@.len(),
            r@.len() == trades@.len() - i,
            depths_ascending(depths@),
            all_wf(depths@),
            forall|k: int|
                0 <= k < r@.len() ==> trade_out_matches(
                    #[trigger] r@[k],
                    trades@[trades@.len() - 1 - k],
                    depths@,
                ),
        decreases i,
    {
        i = i - 1;
        let t = trades[i];
        let found = latest_before(depths, t.datetime);
        proof {
            lemma_asof_characterization(depths@, t.datetime);
        }
        let (best_bid, best_ask) = match found {
            Some(j) => (depths[j].bid_prices[0], depths[j].ask_prices[0]),
            None => (None, None),
        };
        let side = determine_inner_outer(t.price, best_bid, best_ask);
        r.push(
            Trade {
                time: timestamp_to_datetime_str(t.datetime),
                price: t.price,
                volume: t.volume,
                inner_outer: side,
                flag: t.flag,
            },
        );
    }
    r
}

/// The present ladder levels among the first `n` slots, in ladder order: a
/// level is emitted only when both its price and its volume are present.
pub open spec fn spec_levels(p: Seq<Option<i64>>, v: Seq<Option<i64>>, n: int) -> Seq<PriceVolume>
    decreases n,
{
    if n <= 0 {
        Seq::empty()
    } else {
        let pre = spec_levels(p, v, n - 1);
        if p[n - 1] is Some && v[n - 1] is Some {
            pre.push(PriceVolume { price: p[n - 1]->0, volume: v[n - 1]->0 })
        } else {
            pre
        }
    }
}

/// What one output snapshot holds for the decoded depth row `d`.
pub open spec fn snapshot_matches(o: DepthSnapshot, d: DepthRecord) -> bool {
    &&& o.timestamp@ == spec_timestamp_text(d.datetime)
    &&& o.bids@ == spec_levels(d.bid_prices@, d.bid_volumes@, DEPTH_LEVELS as int)
    &&& o.asks@ == spec_levels(d.ask_prices@, d.ask_volumes@, DEPTH_LEVELS as int)
}

fn levels_of(p: &Vec<Option<i64>>, v: &Vec<Option<i64>>) -> (r: Vec<PriceVolume>)
    requires
        p@.len() == DEPTH_LEVELS,
        v@.len() == DEPTH_LEVELS,
    ensures
        r@ == spec_levels(p@, v@, DEPTH_LEVELS as int),
{
    let mut r: Vec<PriceVolume> = Vec::new();
    let mut j: usize = 0;
    while j < DEPTH_LEVELS
        invariant
            j <= DEPTH_LEVELS,
            p@.len() == DEPTH_LEVELS,
            v@.len() == DEPTH_LEVELS,
            r@ == spec_levels(p@, v@, j as int),
        decreases DEPTH_LEVELS - j,
    {
        if let (Some(price), Some(volume)) = (p[j], v[j]) {
            r.push(PriceVolume { price, volume });
        }
        j = j + 1;
    }
    r
}

/// Render one decoded depth row as an output snapshot, keeping only the
/// present levels on each side.
pub fn snapshot_of(d: &DepthRecord) -> (o: DepthSnapshot)
    requires
        d.wf(),
    ensures
        snapshot_matches(o, *d),
{
    DepthSnapshot {
        timestamp: timestamp_to_datetime_str(d.datetime),
        bids: levels_of(&d.bid_prices, &d.bid_volumes),
        asks: levels_of(&d.ask_prices, &d.ask_volumes),
    }
}

/// Render every depth row, in the ladder's own (ascending) order.
pub fn process_depth_history(depths: &Vec<DepthRecord>) -> (r: Vec<DepthSnapshot>)
    requires
        all_wf(depths@),
    ensures
        r@.len() == depths@.len(),
        forall|i: int|
            0 <= i < depths@.len() ==> snapshot_matches(#[trigger] r@[i], depths@[i]),
{
    let mut r: Vec<DepthSnapshot> = Vec::new();
    let mut i: usize = 0;
    while i < depths.len()
        invariant
            i <= depths@.len(),
            r@.len() == i,
            all_wf(depths@),
            forall|k: int|
                0 <= k < i ==> snapshot_matches(#[trigger] r@[k], depths@[k]),
        decreases depths@.len() - i,
    {
        r.push(snapshot_of(&depths[i]));
        i = i + 1;
    }
    r
}

/// The chronological witness tying a document's chart, stats and trade list
/// to the decoded input: `s` is the input trades sorted ascending by time,
/// the chart and stats are computed over `s`, and the trade list is `s`
/// reversed (descending) with each trade labelled by the as-of join.
pub open spec fn sorted_output_witness(
    s: Seq<TradeRecord>,
    doc: StockData,
    trades: Seq<TradeRecord>,
    depths: Seq<DepthRecord>,
) -> bool {
    &&& s.to_multiset() == trades.to_multiset()
    &&& s.len() == trades.len()
    &&& sorted_by_time(s)
    &&& doc.chart matches Some(c) && chart_matches(c, s)
    &&& doc.stats matches Some(st) && stats_match(st, s)
    &&& doc.trades@.len() == s.len()
    &&& forall|k: int|
        0 <= k < s.len() ==> trade_out_matches(#[trigger] doc.trades@[k], s[s.len() - 1 - k], depths)
}

/// What the assembled document holds for the decoded file.
pub open spec fn document_matches(
    doc: StockData,
    trades: Seq<TradeRecord>,
    depths: Seq<DepthRecord>,
    code: Seq<char>,
    date: Seq<char>,
) -> bool {
    &&& doc.stock_code@ == code
    &&& doc.date@ == date
    &&& doc.depth_history@.len() == depths.len()
    &&& forall|i: int|
        0 <= i < depths.len() ==> snapshot_matches(#[trigger] doc.depth_history@[i], depths[i])
    &&& (depths.len() == 0 ==> doc.depth is None)
    &&& (depths.len() > 0 ==> (doc.depth matches Some(d) && snapshot_matches(d, depths.last())))
    &&& (trades.len() == 0 ==> doc.chart is None && doc.stats is None && doc.trades@.len() == 0)
    &&& (trades.len() > 0 ==> exists|s: Seq<TradeRecord>|
        sorted_output_witness(s, doc, trades, depths))
}

/// Assemble one stock-day document, or signal empty input when the file
/// carried neither trade nor depth rows. Chart and stats are present exactly
/// when the file has trades; the current depth is the last snapshot and is
/// present exactly when the file has depth rows.
pub fn build_document(
    trades: &Vec<TradeRecord>,
    depths: &Vec<DepthRecord>,
    stock_code: String,
    date: String,
) -> (r: Converted)
    requires
        depths_ascending(depths@),
        all_wf(depths@),
        analytics_in_range(trades@),
    ensures
        (r is EmptyInput) <==> (trades@.len() == 0 && depths@.len() == 0),
        r matches Converted::Document(doc) ==> document_matches(
            doc,
            trades@,
            depths@,
            stock_code@,
            date@,
        ),
{
    if trades.len() == 0 && depths.len() == 0 {
        return Converted::EmptyInput;
    }
    let sorted = sort_trades_by_time(trades);
    proof {
        assert forall|i: int| 0 <= i < sorted@.len() implies trade_in_range(
            #[trigger] sorted@[i],
        ) by {
            broadcast use vstd::seq_lib::group_to_multiset_ensures;

            assert(sorted@.contains(sorted@[i]));
            assert(trades@.to_multiset().count(sorted@[i]) > 0);
            let j = choose|j: int| 0 <= j < trades@.len() && trades@[j] == sorted@[i];
            assert(trade_in_range(trades@[j]));
        }
    }
    let processed_trades = process_trades(&sorted, depths);
    let depth_history = process_depth_history(depths);
    let depth = if depths.len() > 0 {
        Some(snapshot_of(&depths[depths.len() - 1]))
    } else {
        None
    };
    let has_trades = trades.len() > 0;
    let chart = if has_trades {
        Some(process_chart(&sorted))
    } else {
        None
    };
    let stats = if has_trades {
        Some(calculate_stats(&sorted))
    } else {
        None
    };
    let doc = StockData {
        chart,
        depth,
        depth_history,
        trades: processed_trades,
        stats,
        stock_code,
        date,
    };
    proof {
        if trades@.len() > 0 {
            assert(sorted_output_witness(sorted@, doc, trades@, depths@));
        }
    }
    Converted::Document(doc)
}

proof fn lemma_adjacent_implies_ascending(s: Seq<DepthRecord>, i: int, j: int)
    requires
        forall|k: int| 0 < k < s.len() ==> #[trigger] s[k - 1].datetime <= s[k].datetime,
        0 <= i <= j < s.len(),
    ensures
        s[i].datetime <= s[j].datetime,
    decreases j - i,
{
    if i < j {
        lemma_adjacent_implies_ascending(s, i, j - 1);
        assert(s[j - 1].datetime <= s[j].datetime);
    }
}

/// Runtime test for the ladder's ascending-order assumption, so an
/// unverified caller can establish it before building a document.
pub fn depths_ascending_check(depths: &Vec<DepthRecord>) -> (b: bool)
    ensures
        b == depths_ascending(depths@),
{
    let mut i: usize = 1;
    while i < depths.len()
        invariant
            1 <= i,
            forall|k: int| 0 < k < i ==> #[trigger] depths@[k - 1].datetime <= depths@[k].datetime,
        decreases depths@.len() - i,
    {
        if depths[i - 1].datetime > depths[i].datetime {
            return false;
        }
        i = i + 1;
    }
    proof {
        assert forall|a: int, b: int|
            0 <= a <= b < depths@.len() implies #[trigger] depths@[a].datetime
            <= #[trigger] depths@[b].datetime by {
            lemma_adjacent_implies_ascending(depths@, a, b);
        }
    }
    true
}

/// Runtime test that every depth row carries exactly one optional entry per
/// ladder level on each side.
pub fn depths_wf_check(depths: &Vec<DepthRecord>) -> (b: bool)
    ensures
        b == all_wf(depths@),
{
    let mut i: usize = 0;
    while i < depths.len()
        invariant
            i <= depths@.len(),
            forall|k: int| 0 <= k < i ==> (#[trigger] depths@[k]).wf(),
        decreases depths@.len() - i,
    {
        let d = &depths[i];
        if !(d.bid_prices.len() == DEPTH_LEVELS && d.bid_volumes.len() == DEPTH_LEVELS
            && d.ask_prices.len() == DEPTH_LEVELS && d.ask_volumes.len() == DEPTH_LEVELS) {
            return false;
        }
        i = i + 1;
    }
    true
}

} // verus!
