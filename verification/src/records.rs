use vstd::prelude::*;

verus! {

/// One decoded trade row: event time as a microsecond UTC epoch, the price in
/// fixed-point integer units, the traded volume, and an opaque flag code that
/// is passed through unchanged.
#[derive(Clone, Copy, Debug)]
pub struct TradeRecord {
    pub datetime: i64,
    pub price: i64,
    pub volume: i64,
    pub flag: i64,
}

/// One decoded order-book snapshot row: event time plus five bid levels and
/// five ask levels. Each level's price and volume are independently optional;
/// a missing value means that rung carried no quote, not zero. Level 0 is the
/// best bid or ask.
#[derive(Debug)]
pub struct DepthRecord {
    pub datetime: i64,
    pub bid_prices: Vec<Option<i64>>,
    pub bid_volumes: Vec<Option<i64>>,
    pub ask_prices: Vec<Option<i64>>,
    pub ask_volumes: Vec<Option<i64>>,
}

pub const DEPTH_LEVELS: usize = 5;

impl DepthRecord {
    /// Each side holds exactly one optional entry per ladder level.
    pub open spec fn wf(self) -> bool {
        &&& self.bid_prices@.len() == DEPTH_LEVELS
        &&& self.bid_volumes@.len() == DEPTH_LEVELS
        &&& self.ask_prices@.len() == DEPTH_LEVELS
        &&& self.ask_volumes@.len() == DEPTH_LEVELS
    }

    /// Best bid price, if level 0 carries one.
    pub open spec fn spec_best_bid(self) -> Option<i64>
        recommends
            self.wf(),
    {
        self.bid_prices@[0]
    }

    /// Best ask price, if level 0 carries one.
    pub open spec fn spec_best_ask(self) -> Option<i64>
        recommends
            self.wf(),
    {
        self.ask_prices@[0]
    }
}

pub open spec fn all_wf(depths: Seq<DepthRecord>) -> bool {
    forall|i: int| 0 <= i < depths.len() ==> (#[trigger] depths[i]).wf()
}

/// One present ladder level: a price in fixed-point integer units and the
/// volume resting at that price.
#[derive(Clone, Copy, Debug, PartialEq, Eq, Structural)]
pub struct PriceVolume {
    pub price: i64,
    pub volume: i64,
}

/// An exact rational value, used where the pipeline divides two integer
/// quantities (running VWAP, average price, percentage change). The value is
/// `num / den`; producers emit `num == 0 && den == 1` for the defined-as-zero
/// cases, so `den` is never zero.
#[derive(Clone, Copy, Debug, PartialEq, Eq, Structural)]
pub struct Ratio {
    pub num: i128,
    pub den: i128,
}

/// One output trade: rendered timestamp, price, volume, aggressor-side label
/// and the pass-through flag.
#[derive(Debug)]
pub struct Trade {
    pub time: String,
    pub price: i64,
    pub volume: i64,
    pub inner_outer: crate::classify::Side,
    pub flag: i64,
}

/// One output depth snapshot: rendered timestamp plus the present bid and ask
/// levels in ladder order, missing rungs omitted.
#[derive(Debug)]
pub struct DepthSnapshot {
    pub timestamp: String,
    pub bids: Vec<PriceVolume>,
    pub asks: Vec<PriceVolume>,
}

/// The chart series: parallel arrays with one entry per trade in ascending
/// time order. `total_volumes` is the running volume sum and `vwap` the
/// running volume-weighted average price over the whole history so far.
#[derive(Debug)]
pub struct Chart {
    pub timestamps: Vec<String>,
    pub prices: Vec<i64>,
    pub volumes: Vec<i64>,
    pub total_volumes: Vec<i64>,
    pub vwap: Vec<Ratio>,
}

/// End-of-day summary statistics, computed once per file.
#[derive(Clone, Copy, Debug)]
pub struct Stats {
    pub current_price: i64,
    pub open_price: i64,
    pub high_price: i64,
    pub low_price: i64,
    pub avg_price: Ratio,
    pub total_volume: i64,
    pub trade_count: usize,
    pub change: i64,
    pub change_pct: Ratio,
}

/// The assembled stock-day document: optional chart and stats (absent when
/// the file carries no trades), the most recent depth snapshot (absent when
/// it carries no depth rows), the full depth history in ascending order, the
/// trade list in descending order, and the captured identifiers.
#[derive(Debug)]
pub struct StockData {
    pub chart: Option<Chart>,
    pub depth: Option<DepthSnapshot>,
    pub depth_history: Vec<DepthSnapshot>,
    pub trades: Vec<Trade>,
    pub stats: Option<Stats>,
    pub stock_code: String,
    pub date: String,
}

/// Outcome of one file's conversion: a file with neither trade nor depth rows
/// is reported as empty input rather than as a document or a failure.
#[derive(Debug)]
pub enum Converted {
    EmptyInput,
    Document(StockData),
}

/// Why one file's decoding failed. Every variant is fatal to that file alone.
#[derive(Clone, Copy, Debug, PartialEq, Eq, Structural)]
pub enum ConvertError {
    /// A column the decoder needs is not in the file.
    MissingColumn,
    /// A column is present but cannot be read in the expected numeric or
    /// string shape, or a required numeric cell is null, not-a-number, or out
    /// of the representable range.
    TypeMismatch,
    /// The time column's declared type is none of the four accepted encodings.
    UnsupportedTimeEncoding,
}

} // verus!
