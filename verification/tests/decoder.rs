use stockday::decode::{columns_wf_check, decode_columns, FloatCell, NumColumn, RawColumns, TimeColumn};
use stockday::records::ConvertError;

fn int_col(vals: Vec<Option<i64>>) -> Option<NumColumn> {
    Some(NumColumn::Ints(vals))
}

fn float_col(cells: Vec<(bool, i64)>) -> Option<NumColumn> {
    Some(NumColumn::Floats(
        cells.into_iter().map(|(missing, value)| FloatCell { missing, value }).collect(),
    ))
}

fn no_levels(n: usize) -> Vec<Option<NumColumn>> {
    vec![
        int_col(vec![None; n]),
        None,
        None,
        None,
        None,
    ]
}

/// A file of `kinds.len()` rows with every trade column float-typed.
fn columns(kinds: Vec<&str>, times: TimeColumn, prices: Vec<(bool, i64)>) -> RawColumns {
    let n = kinds.len();
    RawColumns {
        kinds: Some(kinds.into_iter().map(|s| s.to_string()).collect()),
        codes: Some(vec!["2330".to_string(); n]),
        times,
        price: float_col(prices),
        volume: int_col(vec![Some(7); n]),
        flag: int_col(vec![Some(0); n]),
        bid_prices: no_levels(n),
        bid_volumes: no_levels(n),
        ask_prices: no_levels(n),
        ask_volumes: no_levels(n),
    }
}

#[test]
fn nanosecond_times_truncate_toward_zero() {
    let c = columns(
        vec!["Trade", "Trade"],
        TimeColumn::Nanos(vec![1_500_999, -1_500]),
        vec![(false, 10), (false, 20)],
    );
    let d = decode_columns(&c).expect("decode");
    assert_eq!(d.trades.len(), 2);
    assert_eq!(d.trades[0].datetime, 1_500);
    assert_eq!(d.trades[1].datetime, -1);
}

#[test]
fn microsecond_times_pass_through() {
    let c = columns(vec!["Trade"], TimeColumn::Micros(vec![123_456]), vec![(false, 10)]);
    let d = decode_columns(&c).expect("decode");
    assert_eq!(d.trades[0].datetime, 123_456);
}

#[test]
fn millisecond_times_scale_up() {
    let c = columns(vec!["Trade"], TimeColumn::MillisInt(vec![1_500]), vec![(false, 10)]);
    let d = decode_columns(&c).expect("decode");
    assert_eq!(d.trades[0].datetime, 1_500_000);
}

#[test]
fn millisecond_overflow_is_a_decode_failure() {
    let c = columns(vec!["Trade"], TimeColumn::MillisInt(vec![i64::MAX / 10]), vec![(false, 10)]);
    assert_eq!(decode_columns(&c).unwrap_err(), ConvertError::TypeMismatch);
}

#[test]
fn unsupported_time_encoding_fails() {
    let c = columns(vec!["Trade"], TimeColumn::Unsupported, vec![(false, 10)]);
    assert_eq!(decode_columns(&c).unwrap_err(), ConvertError::UnsupportedTimeEncoding);
}

#[test]
fn missing_time_column_fails() {
    let c = columns(vec!["Trade"], TimeColumn::Missing, vec![(false, 10)]);
    assert_eq!(decode_columns(&c).unwrap_err(), ConvertError::MissingColumn);
}

#[test]
fn missing_required_column_fails() {
    let mut c = columns(vec!["Trade"], TimeColumn::Micros(vec![1]), vec![(false, 10)]);
    c.volume = None;
    assert_eq!(decode_columns(&c).unwrap_err(), ConvertError::MissingColumn);
}

#[test]
fn missing_kind_column_fails() {
    let mut c = columns(vec!["Trade"], TimeColumn::Micros(vec![1]), vec![(false, 10)]);
    c.kinds = None;
    assert_eq!(decode_columns(&c).unwrap_err(), ConvertError::MissingColumn);
}

#[test]
fn nan_in_required_field_fails() {
    let c = columns(vec!["Trade"], TimeColumn::Micros(vec![1]), vec![(true, 0)]);
    assert_eq!(decode_columns(&c).unwrap_err(), ConvertError::TypeMismatch);
}

#[test]
fn unusable_required_column_fails() {
    let mut c = columns(vec!["Trade"], TimeColumn::Micros(vec![1]), vec![(false, 10)]);
    c.flag = Some(NumColumn::Other);
    assert_eq!(decode_columns(&c).unwrap_err(), ConvertError::TypeMismatch);
}

#[test]
fn required_field_errors_do_not_touch_depth_rows() {
    // A depth-only file decodes even when every trade column is absent.
    let mut c = columns(vec!["Depth"], TimeColumn::Micros(vec![5]), vec![(false, 0)]);
    c.price = None;
    c.volume = None;
    c.flag = None;
    c.bid_prices = vec![
        int_col(vec![Some(900)]),
        None,
        None,
        None,
        None,
    ];
    c.bid_volumes = vec![
        float_col(vec![(false, 4)]),
        None,
        None,
        None,
        None,
    ];
    let d = decode_columns(&c).expect("decode");
    assert!(d.trades.is_empty());
    assert_eq!(d.depths.len(), 1);
    assert_eq!(d.depths[0].datetime, 5);
    assert_eq!(d.depths[0].bid_prices[0], Some(900));
    assert_eq!(d.depths[0].bid_volumes[0], Some(4));
    assert_eq!(d.depths[0].ask_prices[0], None);
}

#[test]
fn null_and_nan_ladder_cells_are_absent_levels() {
    let mut c = columns(vec!["Depth"], TimeColumn::Micros(vec![5]), vec![(false, 0)]);
    c.bid_prices = vec![
        int_col(vec![None]),
        float_col(vec![(true, 0)]),
        float_col(vec![(false, 333)]),
        Some(NumColumn::Other),
        None,
    ];
    let d = decode_columns(&c).expect("decode");
    let bp = &d.depths[0].bid_prices;
    assert_eq!(bp[0], None);
    assert_eq!(bp[1], None);
    assert_eq!(bp[2], Some(333));
    assert_eq!(bp[3], None);
    assert_eq!(bp[4], None);
}

#[test]
fn unrecognized_row_kinds_are_ignored() {
    let c = columns(
        vec!["Trade", "Settle", "Depth"],
        TimeColumn::Micros(vec![1, 2, 3]),
        vec![(false, 10), (false, 0), (false, 0)],
    );
    let d = decode_columns(&c).expect("decode");
    assert_eq!(d.trades.len(), 1);
    assert_eq!(d.depths.len(), 1);
    assert_eq!(d.depths[0].datetime, 3);
}

#[test]
fn stock_code_is_trimmed_and_date_extracted() {
    let mut c = columns(
        vec!["Trade"],
        TimeColumn::Micros(vec![1_662_921_288_000_000]),
        vec![(false, 10)],
    );
    c.codes = Some(vec!["  2330 \t".to_string()]);
    let d = decode_columns(&c).expect("decode");
    assert_eq!(d.stock_code, "2330");
    assert_eq!(d.date, "20220911");
}

#[test]
fn empty_file_decodes_to_empty_lists() {
    let c = RawColumns {
        kinds: Some(Vec::new()),
        codes: Some(Vec::new()),
        times: TimeColumn::Micros(Vec::new()),
        price: None,
        volume: None,
        flag: None,
        bid_prices: vec![None, None, None, None, None],
        bid_volumes: vec![None, None, None, None, None],
        ask_prices: vec![None, None, None, None, None],
        ask_volumes: vec![None, None, None, None, None],
    };
    let d = decode_columns(&c).expect("decode");
    assert!(d.trades.is_empty());
    assert!(d.depths.is_empty());
    assert_eq!(d.stock_code, "");
    assert_eq!(d.date, "");
}

#[test]
fn column_length_check_detects_ragged_input() {
    let good = columns(vec!["Trade"], TimeColumn::Micros(vec![1]), vec![(false, 10)]);
    assert!(columns_wf_check(&good));
    let mut ragged = columns(vec!["Trade"], TimeColumn::Micros(vec![1]), vec![(false, 10)]);
    ragged.volume = int_col(vec![Some(7), Some(8)]);
    assert!(!columns_wf_check(&ragged));
    let mut short_ladder = columns(vec!["Trade"], TimeColumn::Micros(vec![1]), vec![(false, 10)]);
    short_ladder.ask_prices.pop();
    assert!(!columns_wf_check(&short_ladder));
}

#[test]
fn float_required_fields_use_truncated_values() {
    let c = columns(vec!["Trade"], TimeColumn::Micros(vec![1]), vec![(false, 10_500)]);
    let d = decode_columns(&c).expect("decode");
    assert_eq!(d.trades[0].price, 10_500);
    assert_eq!(d.trades[0].volume, 7);
    assert_eq!(d.trades[0].flag, 0);
}
