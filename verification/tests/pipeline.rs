use stockday::assemble::build_document;
use stockday::classify::Side;
use stockday::records::{Converted, DepthRecord, TradeRecord};

// Prices are fixed-point integers; these tests use 1000 units per currency
// unit, so 10.5 is written 10500.

fn trade(t: i64, price: i64, volume: i64) -> TradeRecord {
    TradeRecord { datetime: t, price, volume, flag: 0 }
}

fn five(x: Option<i64>) -> Vec<Option<i64>> {
    vec![x, None, None, None, None]
}

fn depth(t: i64, bid: Option<i64>, ask: Option<i64>) -> DepthRecord {
    DepthRecord {
        datetime: t,
        bid_prices: five(bid),
        bid_volumes: five(bid.map(|_| 1)),
        ask_prices: five(ask),
        ask_volumes: five(ask.map(|_| 1)),
    }
}

#[test]
fn scenario_two_trades_one_depth() {
    let trades = vec![trade(100, 10_000, 5), trade(200, 11_000, 5)];
    let depths = vec![depth(150, Some(10_000), Some(10_500))];
    let out = build_document(&trades, &depths, "2330".to_string(), "19700101".to_string());
    let doc = match out {
        Converted::Document(doc) => doc,
        Converted::EmptyInput => panic!("expected a document"),
    };

    // Trade list is descending: t=200 first (outer, 11 >= 10.5), then t=100
    // (neutral, no prior depth).
    assert_eq!(doc.trades.len(), 2);
    assert_eq!(doc.trades[0].price, 11_000);
    assert_eq!(doc.trades[0].inner_outer, Side::Outer);
    assert_eq!(doc.trades[1].price, 10_000);
    assert_eq!(doc.trades[1].inner_outer, Side::Neutral);

    // Chart: volumes [5,5], cumulative [5,10], vwap [10, 10.5].
    let chart = doc.chart.expect("chart");
    assert_eq!(chart.prices, vec![10_000, 11_000]);
    assert_eq!(chart.volumes, vec![5, 5]);
    assert_eq!(chart.total_volumes, vec![5, 10]);
    assert_eq!(chart.vwap.len(), 2);
    assert_eq!(chart.vwap[0].num as f64 / chart.vwap[0].den as f64, 10_000.0);
    assert_eq!(chart.vwap[1].num as f64 / chart.vwap[1].den as f64, 10_500.0);

    // Stats: open=10, current=11, high=11, low=10, avg=10.5, total volume 10,
    // two trades, change 1, change_pct 10%.
    let stats = doc.stats.expect("stats");
    assert_eq!(stats.open_price, 10_000);
    assert_eq!(stats.current_price, 11_000);
    assert_eq!(stats.high_price, 11_000);
    assert_eq!(stats.low_price, 10_000);
    assert_eq!(stats.avg_price.num as f64 / stats.avg_price.den as f64, 10_500.0);
    assert_eq!(stats.total_volume, 10);
    assert_eq!(stats.trade_count, 2);
    assert_eq!(stats.change, 1_000);
    assert_eq!(stats.change_pct.num as f64 / stats.change_pct.den as f64, 10.0);

    // Current depth is the (single) last snapshot; history keeps all of them.
    let d = doc.depth.expect("depth");
    assert_eq!(d.bids.len(), 1);
    assert_eq!(d.bids[0].price, 10_000);
    assert_eq!(d.asks[0].price, 10_500);
    assert_eq!(doc.depth_history.len(), 1);
    assert_eq!(doc.stock_code, "2330");
}

#[test]
fn scenario_single_trade_no_depth() {
    let trades = vec![trade(100, 5_000, 3)];
    let depths: Vec<DepthRecord> = Vec::new();
    let out = build_document(&trades, &depths, "1101".to_string(), "19700101".to_string());
    let doc = match out {
        Converted::Document(doc) => doc,
        Converted::EmptyInput => panic!("expected a document"),
    };
    let stats = doc.stats.expect("stats");
    assert_eq!(stats.open_price, 5_000);
    assert_eq!(stats.current_price, 5_000);
    assert_eq!(stats.high_price, 5_000);
    assert_eq!(stats.low_price, 5_000);
    assert_eq!(stats.avg_price.num as f64 / stats.avg_price.den as f64, 5_000.0);
    assert_eq!(stats.total_volume, 3);
    assert_eq!(stats.trade_count, 1);
    assert_eq!(stats.change, 0);
    assert_eq!(stats.change_pct.num, 0);
    assert!(doc.depth.is_none());
    assert!(doc.depth_history.is_empty());
    assert_eq!(doc.trades.len(), 1);
    assert_eq!(doc.trades[0].inner_outer, Side::Neutral);
}

#[test]
fn empty_input_yields_signal() {
    let out = build_document(&Vec::new(), &Vec::new(), String::new(), String::new());
    assert!(matches!(out, Converted::EmptyInput));
}

#[test]
fn depth_only_file_has_no_chart_or_stats() {
    let depths = vec![depth(10, Some(1_000), None), depth(20, None, Some(2_000))];
    let out = build_document(&Vec::new(), &depths, "X".to_string(), "D".to_string());
    let doc = match out {
        Converted::Document(doc) => doc,
        Converted::EmptyInput => panic!("expected a document"),
    };
    assert!(doc.chart.is_none());
    assert!(doc.stats.is_none());
    assert!(doc.trades.is_empty());
    assert_eq!(doc.depth_history.len(), 2);
    // The current depth is the chronologically last snapshot.
    let d = doc.depth.expect("depth");
    assert!(d.bids.is_empty());
    assert_eq!(d.asks[0].price, 2_000);
}

#[test]
fn trades_emitted_descending_from_unsorted_input() {
    let trades = vec![trade(300, 3, 1), trade(100, 1, 1), trade(200, 2, 1)];
    let out = build_document(&trades, &Vec::new(), "S".to_string(), "D".to_string());
    let doc = match out {
        Converted::Document(doc) => doc,
        Converted::EmptyInput => panic!("expected a document"),
    };
    let prices: Vec<i64> = doc.trades.iter().map(|t| t.price).collect();
    assert_eq!(prices, vec![3, 2, 1]);
    // Chart runs ascending on the same trades.
    let chart = doc.chart.expect("chart");
    assert_eq!(chart.prices, vec![1, 2, 3]);
    assert_eq!(chart.total_volumes, vec![1, 2, 3]);
}

#[test]
fn crossed_book_classifies_outer() {
    // Both price >= ask and price <= bid hold; the ask check wins.
    let trades = vec![trade(200, 1_000, 1)];
    let depths = vec![depth(100, Some(2_000), Some(500))];
    let out = build_document(&trades, &depths, "S".to_string(), "D".to_string());
    let doc = match out {
        Converted::Document(doc) => doc,
        Converted::EmptyInput => panic!("expected a document"),
    };
    assert_eq!(doc.trades[0].inner_outer, Side::Outer);
}

#[test]
fn change_pct_is_zero_for_nonpositive_open() {
    let trades = vec![trade(1, 0, 2), trade(2, 7, 2)];
    let out = build_document(&trades, &Vec::new(), "S".to_string(), "D".to_string());
    let doc = match out {
        Converted::Document(doc) => doc,
        Converted::EmptyInput => panic!("expected a document"),
    };
    let stats = doc.stats.expect("stats");
    assert_eq!(stats.change, 7);
    assert_eq!(stats.change_pct.num, 0);
    assert_eq!(stats.change_pct.den, 1);
}

#[test]
fn vwap_is_zero_while_prefix_volume_is_zero() {
    let trades = vec![trade(1, 9_000, 0), trade(2, 4_000, 2)];
    let out = build_document(&trades, &Vec::new(), "S".to_string(), "D".to_string());
    let doc = match out {
        Converted::Document(doc) => doc,
        Converted::EmptyInput => panic!("expected a document"),
    };
    let chart = doc.chart.expect("chart");
    assert_eq!(chart.total_volumes, vec![0, 2]);
    assert_eq!(chart.vwap[0].num, 0);
    assert_eq!(chart.vwap[0].den, 1);
    assert_eq!(chart.vwap[1].num as f64 / chart.vwap[1].den as f64, 4_000.0);
    // Stats' average follows the same rule over the whole day.
    let stats = doc.stats.expect("stats");
    assert_eq!(stats.avg_price.num as f64 / stats.avg_price.den as f64, 4_000.0);
}

#[test]
fn timestamps_render_in_microsecond_utc() {
    let trades = vec![trade(1_662_921_288_000_000, 100, 1)];
    let out = build_document(&trades, &Vec::new(), "S".to_string(), "D".to_string());
    let doc = match out {
        Converted::Document(doc) => doc,
        Converted::EmptyInput => panic!("expected a document"),
    };
    assert_eq!(doc.trades[0].time, "2022-09-11 18:34:48.000000");
    let chart = doc.chart.expect("chart");
    assert_eq!(chart.timestamps[0], "2022-09-11 18:34:48.000000");
}
