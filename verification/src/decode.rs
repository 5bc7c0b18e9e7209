use crate::records::{all_wf, ConvertError, DepthRecord, TradeRecord, DEPTH_LEVELS};
use crate::timefmt::{extract_date_from_timestamp, spec_date8_text, trim_identifier, trimmed_of};
use vstd::prelude::*;

verus! {

/// One cell of a float-typed column, reduced to plain values: `missing`
/// marks a null or not-a-number cell; otherwise `value` carries the cell
/// truncated to integer units.
#[derive(Clone, Copy, Debug)]
pub struct FloatCell {
    pub missing: bool,
    pub value: i64,
}

/// A numeric input column as handed to the decoder: integer-typed with
/// per-cell nulls, float-typed with per-cell null/NaN marks, or a column
/// that is present but of some other, unusable type.
#[derive(Debug)]
pub enum NumColumn {
    Ints(Vec<Option<i64>>),
    Floats(Vec<FloatCell>),
    Other,
}

/// The time column in one of the four accepted encodings, or `Missing`
/// (no such column) or `Unsupported` (a declared type outside the set).
/// `MillisFloat` cells arrive already scaled to microseconds and truncated,
/// since that step is floating-point work done at the boundary.
#[derive(Debug)]
pub enum TimeColumn {
    /// Nanosecond epoch integers.
    Nanos(Vec<i64>),
    /// Microsecond epoch integers.
    Micros(Vec<i64>),
    /// Millisecond epoch integers.
    MillisInt(Vec<i64>),
    /// Millisecond epoch floats, already converted to microsecond integers.
    MillisFloat(Vec<i64>),
    Missing,
    Unsupported,
}

/// One stock-day file reduced to plain columns. A `None` column is one the
/// file does not carry; the ladder vectors hold one optional column per
/// level slot.
#[derive(Debug)]
pub struct RawColumns {
    pub kinds: Option<Vec<String>>,
    pub codes: Option<Vec<String>>,
    pub times: TimeColumn,
    pub price: Option<NumColumn>,
    pub volume: Option<NumColumn>,
    pub flag: Option<NumColumn>,
    pub bid_prices: Vec<Option<NumColumn>>,
    pub bid_volumes: Vec<Option<NumColumn>>,
    pub ask_prices: Vec<Option<NumColumn>>,
    pub ask_volumes: Vec<Option<NumColumn>>,
}

/// The canonical rows decoded from one file, with the identifiers captured
/// from its first row.
#[derive(Debug)]
pub struct DecodedFile {
    pub trades: Vec<TradeRecord>,
    pub depths: Vec<DepthRecord>,
    pub stock_code: String,
    pub date: String,
}

impl NumColumn {
    pub open spec fn spec_len_ok(self, n: int) -> bool {
        match self {
            NumColumn::Ints(v) => v@.len() == n,
            NumColumn::Floats(v) => v@.len() == n,
            NumColumn::Other => true,
        }
    }
}

impl TimeColumn {
    pub open spec fn spec_len_ok(self, n: int) -> bool {
        match self {
            TimeColumn::Nanos(v) => v@.len() == n,
            TimeColumn::Micros(v) => v@.len() == n,
            TimeColumn::MillisInt(v) => v@.len() == n,
            TimeColumn::MillisFloat(v) => v@.len() == n,
            TimeColumn::Missing => true,
            TimeColumn::Unsupported => true,
        }
    }
}

pub open spec fn opt_col_len_ok(col: Option<NumColumn>, n: int) -> bool {
    match col {
        None => true,
        Some(x) => x.spec_len_ok(n),
    }
}

/// Row `i` is a readable index of every cell-carrying variant.
pub open spec fn opt_col_idx_ok(col: Option<NumColumn>, i: int) -> bool {
    match col {
        None => true,
        Some(NumColumn::Ints(v)) => 0 <= i < v@.len(),
        Some(NumColumn::Floats(v)) => 0 <= i < v@.len(),
        Some(NumColumn::Other) => true,
    }
}

pub open spec fn time_idx_ok(tc: TimeColumn, i: int) -> bool {
    match tc {
        TimeColumn::Nanos(v) => 0 <= i < v@.len(),
        TimeColumn::Micros(v) => 0 <= i < v@.len(),
        TimeColumn::MillisInt(v) => 0 <= i < v@.len(),
        TimeColumn::MillisFloat(v) => 0 <= i < v@.len(),
        TimeColumn::Missing => true,
        TimeColumn::Unsupported => true,
    }
}

impl RawColumns {
    /// Row count, read off the row-kind column.
    pub open spec fn n_rows(self) -> int {
        if self.kinds is Some {
            self.kinds->0@.len() as int
        } else {
            0
        }
    }

    /// Every present column carries one cell per row, and each ladder side
    /// carries one optional column per level slot.
    pub open spec fn wf(self) -> bool {
        let n = self.n_rows();
        &&& (self.codes matches Some(cs) ==> cs@.len() == n)
        &&& self.times.spec_len_ok(n)
        &&& opt_col_len_ok(self.price, n)
        &&& opt_col_len_ok(self.volume, n)
        &&& opt_col_len_ok(self.flag, n)
        &&& self.bid_prices@.len() == DEPTH_LEVELS
        &&& self.bid_volumes@.len() == DEPTH_LEVELS
        &&& self.ask_prices@.len() == DEPTH_LEVELS
        &&& self.ask_volumes@.len() == DEPTH_LEVELS
        &&& forall|j: int|
            0 <= j < DEPTH_LEVELS ==> opt_col_len_ok(#[trigger] self.bid_prices@[j], n)
        &&& forall|j: int|
            0 <= j < DEPTH_LEVELS ==> opt_col_len_ok(#[trigger] self.bid_volumes@[j], n)
        &&& forall|j: int|
            0 <= j < DEPTH_LEVELS ==> opt_col_len_ok(#[trigger] self.ask_prices@[j], n)
        &&& forall|j: int|
            0 <= j < DEPTH_LEVELS ==> opt_col_len_ok(#[trigger] self.ask_volumes@[j], n)
    }
}

pub open spec fn spec_kind_at(c: RawColumns, i: int) -> Seq<char> {
    c.kinds->0@[i]@
}

pub open spec fn spec_code_at(c: RawColumns, i: int) -> Seq<char> {
    c.codes->0@[i]@
}

pub open spec fn spec_is_trade(c: RawColumns, i: int) -> bool {
    spec_kind_at(c, i) == "Trade"@
}

pub open spec fn spec_is_depth(c: RawColumns, i: int) -> bool {
    spec_kind_at(c, i) == "Depth"@
}

/// Truncating division by 1000, the nanosecond-to-microsecond rule.
pub open spec fn spec_trunc_div_1000(v: i64) -> int {
    if v >= 0 {
        v as int / 1000
    } else {
        -((-(v as int)) / 1000)
    }
}

/// Why the time cell of row `i` fails to normalize, if it does: only a
/// millisecond integer whose microsecond form leaves the 64-bit range, and
/// the file-level missing/unsupported cases.
pub open spec fn spec_time_err(tc: TimeColumn, i: int) -> Option<ConvertError> {
    match tc {
        TimeColumn::Nanos(v) => None,
        TimeColumn::Micros(v) => None,
        TimeColumn::MillisInt(v) => if v@[i] * 1000 > i64::MAX || v@[i] * 1000 < i64::MIN {
            Some(ConvertError::TypeMismatch)
        } else {
            None
        },
        TimeColumn::MillisFloat(v) => None,
        TimeColumn::Missing => Some(ConvertError::MissingColumn),
        TimeColumn::Unsupported => Some(ConvertError::UnsupportedTimeEncoding),
    }
}

/// The microsecond epoch value of row `i`'s time cell, when it normalizes.
pub open spec fn spec_time_val(tc: TimeColumn, i: int) -> i64 {
    match tc {
        TimeColumn::Nanos(v) => spec_trunc_div_1000(v@[i]) as i64,
        TimeColumn::Micros(v) => v@[i],
        TimeColumn::MillisInt(v) => (v@[i] * 1000) as i64,
        TimeColumn::MillisFloat(v) => v@[i],
        TimeColumn::Missing => 0,
        TimeColumn::Unsupported => 0,
    }
}

/// Why a required numeric cell fails to resolve, if it does: a missing
/// column, a column of an unusable type, or a null or not-a-number cell in
/// a field that trade rows must always populate.
pub open spec fn spec_required_err(col: Option<NumColumn>, i: int) -> Option<ConvertError> {
    match col {
        None => Some(ConvertError::MissingColumn),
        Some(NumColumn::Ints(v)) => if v@[i] is None {
            Some(ConvertError::TypeMismatch)
        } else {
            None
        },
        Some(NumColumn::Floats(v)) => if v@[i].missing {
            Some(ConvertError::TypeMismatch)
        } else {
            None
        },
        Some(NumColumn::Other) => Some(ConvertError::TypeMismatch),
    }
}

/// The value of a required numeric cell, when it resolves.
pub open spec fn spec_required_val(col: Option<NumColumn>, i: int) -> i64 {
    match col {
        None => 0,
        Some(NumColumn::Ints(v)) => match v@[i] {
            Some(x) => x,
            None => 0,
        },
        Some(NumColumn::Floats(v)) => v@[i].value,
        Some(NumColumn::Other) => 0,
    }
}

/// An optional ladder cell: absent when the column is missing or unusable,
/// or the cell is null or not-a-number; otherwise the present value.
pub open spec fn spec_optional_val(col: Option<NumColumn>, i: int) -> Option<i64> {
    match col {
        None => None,
        Some(NumColumn::Ints(v)) => v@[i],
        Some(NumColumn::Floats(v)) => if v@[i].missing {
            None
        } else {
            Some(v@[i].value)
        },
        Some(NumColumn::Other) => None,
    }
}

/// First time-normalization error over rows `0..n`, mirroring that the
/// decoder converts the whole time column before it walks the rows.
pub open spec fn spec_times_err(c: RawColumns, n: int) -> Option<ConvertError>
    decreases n,
{
    if n <= 0 {
        None
    } else {
        match spec_times_err(c, n - 1) {
            Some(e) => Some(e),
            None => spec_time_err(c.times, n - 1),
        }
    }
}

/// First failing required field of one trade row, in the fixed order price,
/// volume, flag.
pub open spec fn spec_trade_cells_err(c: RawColumns, i: int) -> Option<ConvertError> {
    match spec_required_err(c.price, i) {
        Some(e) => Some(e),
        None => match spec_required_err(c.volume, i) {
            Some(e) => Some(e),
            None => spec_required_err(c.flag, i),
        },
    }
}

/// First row-level error over rows `0..n`; only trade rows can fail here.
pub open spec fn spec_rows_err(c: RawColumns, n: int) -> Option<ConvertError>
    decreases n,
{
    if n <= 0 {
        None
    } else {
        match spec_rows_err(c, n - 1) {
            Some(e) => Some(e),
            None => if spec_is_trade(c, n - 1) {
                spec_trade_cells_err(c, n - 1)
            } else {
                None
            },
        }
    }
}

/// The decoding verdict for a whole file: the file-level column checks, then
/// the time column, then the rows, each in decoder order.
pub open spec fn spec_file_err(c: RawColumns) -> Option<ConvertError> {
    if c.kinds is None || c.codes is None {
        Some(ConvertError::MissingColumn)
    } else if c.times is Missing {
        Some(ConvertError::MissingColumn)
    } else if c.times is Unsupported {
        Some(ConvertError::UnsupportedTimeEncoding)
    } else {
        match spec_times_err(c, c.n_rows()) {
            Some(e) => Some(e),
            None => spec_rows_err(c, c.n_rows()),
        }
    }
}

/// The trade record row `i` decodes to, when nothing fails.
pub open spec fn spec_trade_at(c: RawColumns, i: int) -> TradeRecord {
    TradeRecord {
        datetime: spec_time_val(c.times, i),
        price: spec_required_val(c.price, i),
        volume: spec_required_val(c.volume, i),
        flag: spec_required_val(c.flag, i),
    }
}

/// The trade records of rows `0..n`, in row order; rows of other kinds are
/// passed over.
pub open spec fn spec_trades(c: RawColumns, n: int) -> Seq<TradeRecord>
    decreases n,
{
    if n <= 0 {
        Seq::empty()
    } else {
        let pre = spec_trades(c, n - 1);
        if spec_is_trade(c, n - 1) {
            pre.push(spec_trade_at(c, n - 1))
        } else {
            pre
        }
    }
}

/// How many of rows `0..n` are depth rows; also the output position of the
/// depth row at index `n`, if row `n` is one.
pub open spec fn spec_depth_count(c: RawColumns, n: int) -> int
    decreases n,
{
    if n <= 0 {
        0
    } else {
        spec_depth_count(c, n - 1) + if spec_is_depth(c, n - 1) {
            1int
        } else {
            0int
        }
    }
}

/// What the decoded depth record for input row `i` holds: the normalized
/// time and, per ladder slot, each side's optional price and volume cells.
pub open spec fn depth_row_matches(d: DepthRecord, c: RawColumns, i: int) -> bool {
    &&& d.wf()
    &&& d.datetime == spec_time_val(c.times, i)
    &&& forall|j: int|
        0 <= j < DEPTH_LEVELS ==> #[trigger] d.bid_prices@[j] == spec_optional_val(
            c.bid_prices@[j],
            i,
        )
    &&& forall|j: int|
        0 <= j < DEPTH_LEVELS ==> #[trigger] d.bid_volumes@[j] == spec_optional_val(
            c.bid_volumes@[j],
            i,
        )
    &&& forall|j: int|
        0 <= j < DEPTH_LEVELS ==> #[trigger] d.ask_prices@[j] == spec_optional_val(
            c.ask_prices@[j],
            i,
        )
    &&& forall|j: int|
        0 <= j < DEPTH_LEVELS ==> #[trigger] d.ask_volumes@[j] == spec_optional_val(
            c.ask_volumes@[j],
            i,
        )
}

/// What a successful decode returns for the columns `c`.
pub open spec fn decoded_matches(d: DecodedFile, c: RawColumns) -> bool {
    let n = c.n_rows();
    &&& d.trades@ == spec_trades(c, n)
    &&& d.depths@.len() == spec_depth_count(c, n)
    &&& all_wf(d.depths@)
    &&& forall|i: int|
        0 <= i < n && #[trigger] spec_is_depth(c, i) ==> depth_row_matches(
            d.depths@[spec_depth_count(c, i)],
            c,
            i,
        )
    &&& (n > 0 ==> d.stock_code@ == trimmed_of(spec_code_at(c, 0)) && d.date@ == spec_date8_text(
        spec_time_val(c.times, 0),
    ))
    &&& (n == 0 ==> d.stock_code@ == Seq::<char>::empty() && d.date@ == Seq::<char>::empty())
}

proof fn lemma_times_err_sticks(c: RawColumns, k: int, m: int)
    requires
        0 <= k <= m,
        spec_times_err(c, k) is Some,
    ensures
        spec_times_err(c, m) == spec_times_err(c, k),
    decreases m - k,
{
    if m > k {
        lemma_times_err_sticks(c, k, m - 1);
    }
}

proof fn lemma_rows_err_sticks(c: RawColumns, k: int, m: int)
    requires
        0 <= k <= m,
        spec_rows_err(c, k) is Some,
    ensures
        spec_rows_err(c, m) == spec_rows_err(c, k),
    decreases m - k,
{
    if m > k {
        lemma_rows_err_sticks(c, k, m - 1);
    }
}

proof fn lemma_depth_count_mono(c: RawColumns, a: int, b: int)
    requires
        0 <= a <= b,
    ensures
        spec_depth_count(c, a) <= spec_depth_count(c, b),
    decreases b - a,
{
    if a < b {
        lemma_depth_count_mono(c, a, b - 1);
    }
}

fn time_at(tc: &TimeColumn, i: usize) -> (r: Result<i64, ConvertError>)
    requires
        time_idx_ok(*tc, i as int),
    ensures
        match r {
            Ok(x) => spec_time_err(*tc, i as int) is None && x == spec_time_val(*tc, i as int),
            Err(e) => spec_time_err(*tc, i as int) == Some(e),
        },
{
    match tc {
        TimeColumn::Nanos(v) => {
            let x = v[i];
            proof {
                if x >= 0 {
                    assert(0 <= x as int / 1000 <= x as int);
                } else {
                    assert(0 <= (x as int * -1) / 1000 <= x as int * -1);
                }
            }
            Ok(x.checked_div(1000).unwrap())
        },
        TimeColumn::Micros(v) => Ok(v[i]),
        TimeColumn::MillisInt(v) => match v[i].checked_mul(1000) {
            Some(x) => Ok(x),
            None => Err(ConvertError::TypeMismatch),
        },
        TimeColumn::MillisFloat(v) => Ok(v[i]),
        TimeColumn::Missing => Err(ConvertError::MissingColumn),
        TimeColumn::Unsupported => Err(ConvertError::UnsupportedTimeEncoding),
    }
}

fn required_cell(col: &Option<NumColumn>, i: usize) -> (r: Result<i64, ConvertError>)
    requires
        opt_col_idx_ok(*col, i as int),
    ensures
        match r {
            Ok(x) => spec_required_err(*col, i as int) is None && x == spec_required_val(
                *col,
                i as int,
            ),
            Err(e) => spec_required_err(*col, i as int) == Some(e),
        },
{
    match col {
        None => Err(ConvertError::MissingColumn),
        Some(NumColumn::Ints(v)) => match v[i] {
            Some(x) => Ok(x),
            None => Err(ConvertError::TypeMismatch),
        },
        Some(NumColumn::Floats(v)) => {
            let cell = v[i];
            if cell.missing {
                Err(ConvertError::TypeMismatch)
            } else {
                Ok(cell.value)
            }
        },
        Some(NumColumn::Other) => Err(ConvertError::TypeMismatch),
    }
}

fn optional_cell(cols: &Vec<Option<NumColumn>>, j: usize, i: usize) -> (r: Option<i64>)
    requires
        j < cols@.len(),
        opt_col_idx_ok(cols@[j as int], i as int),
    ensures
        r == spec_optional_val(cols@[j as int], i as int),
{
    match &cols[j] {
        None => None,
        Some(NumColumn::Ints(v)) => v[i],
        Some(NumColumn::Floats(v)) => {
            let cell = v[i];
            if cell.missing {
                None
            } else {
                Some(cell.value)
            }
        },
        Some(NumColumn::Other) => None,
    }
}

fn num_column_len_check(col: &Option<NumColumn>, n: usize) -> (b: bool)
    ensures
        b == opt_col_len_ok(*col, n as int),
{
    match col {
        None => true,
        Some(NumColumn::Ints(v)) => v.len() == n,
        Some(NumColumn::Floats(v)) => v.len() == n,
        Some(NumColumn::Other) => true,
    }
}

fn level_columns_len_check(cols: &Vec<Option<NumColumn>>, n: usize) -> (b: bool)
    ensures
        b == (cols@.len() == DEPTH_LEVELS && forall|j: int|
            0 <= j < DEPTH_LEVELS ==> opt_col_len_ok(#[trigger] cols@[j], n as int)),
{
    if cols.len() != DEPTH_LEVELS {
        return false;
    }
    let mut j: usize = 0;
    while j < DEPTH_LEVELS
        invariant
            j <= DEPTH_LEVELS,
            cols@.len() == DEPTH_LEVELS,
            forall|k: int| 0 <= k < j ==> opt_col_len_ok(#[trigger] cols@[k], n as int),
        decreases DEPTH_LEVELS - j,
    {
        if !num_column_len_check(&cols[j], n) {
            return false;
        }
        j = j + 1;
    }
    true
}

/// Runtime test for `RawColumns::wf`, so an unverified caller can establish
/// the decoder's precondition on columns it assembled itself.
pub fn columns_wf_check(c: &RawColumns) -> (b: bool)
    ensures
        b == c.wf(),
{
    let n: usize = match &c.kinds {
        Some(k) => k.len(),
        None => 0,
    };
    proof {
        assert(c.n_rows() == n);
    }
    let codes_ok = match &c.codes {
        Some(cs) => cs.len() == n,
        None => true,
    };
    let times_ok = match &c.times {
        TimeColumn::Nanos(v) => v.len() == n,
        TimeColumn::Micros(v) => v.len() == n,
        TimeColumn::MillisInt(v) => v.len() == n,
        TimeColumn::MillisFloat(v) => v.len() == n,
        TimeColumn::Missing => true,
        TimeColumn::Unsupported => true,
    };
    codes_ok && times_ok && num_column_len_check(&c.price, n) && num_column_len_check(
        &c.volume,
        n,
    ) && num_column_len_check(&c.flag, n) && level_columns_len_check(&c.bid_prices, n)
        && level_columns_len_check(&c.bid_volumes, n) && level_columns_len_check(&c.ask_prices, n)
        && level_columns_len_check(&c.ask_volumes, n)
}

/// Normalize one file's columns into canonical row records: dispatch each
/// row on the kind column (unrecognized kinds are passed over), normalize
/// every time cell to a microsecond epoch integer, resolve the required
/// trade fields and the optional ladder cells, and capture the stock code
/// (trimmed) and the `YYYYMMDD` date from the first row. Errors are exactly
/// those of `spec_file_err`, each fatal to this file alone.
pub fn decode_columns(c: &RawColumns) -> (r: Result<DecodedFile, ConvertError>)
    requires
        c.wf(),
    ensures
        match r {
            Ok(d) => spec_file_err(*c) is None && decoded_matches(d, *c),
            Err(e) => spec_file_err(*c) == Some(e),
        },
{
    let kinds = match &c.kinds {
        Some(k) => k,
        None => {
            return Err(ConvertError::MissingColumn);
        },
    };
    let codes = match &c.codes {
        Some(k) => k,
        None => {
            return Err(ConvertError::MissingColumn);
        },
    };
    match &c.times {
        TimeColumn::Missing => {
            return Err(ConvertError::MissingColumn);
        },
        TimeColumn::Unsupported => {
            return Err(ConvertError::UnsupportedTimeEncoding);
        },
        _ => {},
    }
    let n = kinds.len();

    // The whole time column is normalized before any row is examined.
    let mut times_us: Vec<i64> = Vec::new();
    let mut i: usize = 0;
    while i < n
        invariant
            i <= n,
            c.wf(),
            c.kinds matches Some(k) && k@.len() == n,
            c.codes is Some,
            !(c.times is Missing),
            !(c.times is Unsupported),
            times_us@.len() == i,
            spec_times_err(*c, i as int) is None,
            forall|k: int| 0 <= k < i ==> #[trigger] times_us@[k] == spec_time_val(c.times, k),
        decreases n - i,
    {
        match time_at(&c.times, i) {
            Ok(x) => {
                times_us.push(x);
            },
            Err(e) => {
                proof {
                    assert(spec_times_err(*c, i + 1) == Some(e));
                    lemma_times_err_sticks(*c, i + 1, c.n_rows());
                }
                return Err(e);
            },
        }
        i = i + 1;
    }

    let stock_code: String;
    let date: String;
    if n > 0 {
        stock_code = trim_identifier(&codes[0]);
        date = extract_date_from_timestamp(times_us[0]);
    } else {
        stock_code = String::new();
        date = String::new();
    }

    let mut trades: Vec<TradeRecord> = Vec::new();
    let mut depths: Vec<DepthRecord> = Vec::new();
    let trade_kind: String = "Trade".to_owned();
    let depth_kind: String = "Depth".to_owned();
    let mut i: usize = 0;
    while i < n
        invariant
            i <= n,
            c.wf(),
            c.kinds matches Some(k) && k@.len() == n && k == kinds,
            c.codes is Some,
            !(c.times is Missing),
            !(c.times is Unsupported),
            times_us@.len() == n,
            spec_times_err(*c, c.n_rows()) is None,
            forall|k: int| 0 <= k < n ==> #[trigger] times_us@[k] == spec_time_val(c.times, k),
            trade_kind@ == "Trade"@,
            depth_kind@ == "Depth"@,
            spec_rows_err(*c, i as int) is None,
            trades@ == spec_trades(*c, i as int),
            depths@.len() == spec_depth_count(*c, i as int),
            all_wf(depths@),
            forall|k: int|
                0 <= k < i && #[trigger] spec_is_depth(*c, k) ==> depth_row_matches(
                    depths@[spec_depth_count(*c, k)],
                    *c,
                    k,
                ),
        decreases n - i,
    {
        let is_trade = kinds[i] == trade_kind;
        let is_depth = !is_trade && kinds[i] == depth_kind;
        proof {
            assert("Trade"@ != "Depth"@) by {
                reveal_strlit("Trade");
                reveal_strlit("Depth");
                assert(("Trade"@)[0] == 'T');
                assert(("Depth"@)[0] == 'D');
            }
            assert(c.n_rows() == n);
            assert(opt_col_idx_ok(c.price, i as int));
            assert(opt_col_idx_ok(c.volume, i as int));
            assert(opt_col_idx_ok(c.flag, i as int));
        }
        if is_trade {
            let price = match required_cell(&c.price, i) {
                Ok(x) => x,
                Err(e) => {
                    proof {
                        assert(spec_rows_err(*c, i + 1) == Some(e));
                        lemma_rows_err_sticks(*c, i + 1, c.n_rows());
                    }
                    return Err(e);
                },
            };
            let volume = match required_cell(&c.volume, i) {
                Ok(x) => x,
                Err(e) => {
                    proof {
                        assert(spec_rows_err(*c, i + 1) == Some(e));
                        lemma_rows_err_sticks(*c, i + 1, c.n_rows());
                    }
                    return Err(e);
                },
            };
            let flag = match required_cell(&c.flag, i) {
                Ok(x) => x,
                Err(e) => {
                    proof {
                        assert(spec_rows_err(*c, i + 1) == Some(e));
                        lemma_rows_err_sticks(*c, i + 1, c.n_rows());
                    }
                    return Err(e);
                },
            };
            trades.push(
                TradeRecord { datetime: times_us[i], price, volume, flag },
            );
        } else if is_depth {
            let mut bid_prices: Vec<Option<i64>> = Vec::new();
            let mut bid_volumes: Vec<Option<i64>> = Vec::new();
            let mut ask_prices: Vec<Option<i64>> = Vec::new();
            let mut ask_volumes: Vec<Option<i64>> = Vec::new();
            let mut j: usize = 0;
            while j < DEPTH_LEVELS
                invariant
                    j <= DEPTH_LEVELS,
                    i < n,
                    c.wf(),
                    c.kinds matches Some(k) && k@.len() == n,
                    bid_prices@.len() == j,
                    bid_volumes@.len() == j,
                    ask_prices@.len() == j,
                    ask_volumes@.len() == j,
                    forall|jj: int|
                        0 <= jj < j ==> #[trigger] bid_prices@[jj] == spec_optional_val(
                            c.bid_prices@[jj],
                            i as int,
                        ),
                    forall|jj: int|
                        0 <= jj < j ==> #[trigger] bid_volumes@[jj] == spec_optional_val(
                            c.bid_volumes@[jj],
                            i as int,
                        ),
                    forall|jj: int|
                        0 <= jj < j ==> #[trigger] ask_prices@[jj] == spec_optional_val(
                            c.ask_prices@[jj],
                            i as int,
                        ),
                    forall|jj: int|
                        0 <= jj < j ==> #[trigger] ask_volumes@[jj] == spec_optional_val(
                            c.ask_volumes@[jj],
                            i as int,
                        ),
                decreases DEPTH_LEVELS - j,
            {
                proof {
                    assert(c.n_rows() == n);
                    assert(opt_col_len_ok(c.bid_prices@[j as int], c.n_rows()));
                    assert(opt_col_len_ok(c.bid_volumes@[j as int], c.n_rows()));
                    assert(opt_col_len_ok(c.ask_prices@[j as int], c.n_rows()));
                    assert(opt_col_len_ok(c.ask_volumes@[j as int], c.n_rows()));
                }
                bid_prices.push(optional_cell(&c.bid_prices, j, i));
                bid_volumes.push(optional_cell(&c.bid_volumes, j, i));
                ask_prices.push(optional_cell(&c.ask_prices, j, i));
                ask_volumes.push(optional_cell(&c.ask_volumes, j, i));
                j = j + 1;
            }
            let d = DepthRecord {
                datetime: times_us[i],
                bid_prices,
                bid_volumes,
                ask_prices,
                ask_volumes,
            };
            proof {
                assert(depth_row_matches(d, *c, i as int));
                assert forall|k: int| 0 <= k < i && #[trigger] spec_is_depth(*c, k) implies
                    spec_depth_count(*c, k) < depths@.len() by {
                    lemma_depth_count_mono(*c, k + 1, i as int);
                }
            }
            let ghost prev_depths = depths@;
            depths.push(d);
            proof {
                assert(spec_is_depth(*c, i as int));
                assert(depths@.len() == spec_depth_count(*c, i + 1));
                assert forall|k: int|
                    0 <= k < i + 1 && #[trigger] spec_is_depth(*c, k) implies depth_row_matches(
                    depths@[spec_depth_count(*c, k)],
                    *c,
                    k,
                ) by {
                    if k < i {
                        lemma_depth_count_mono(*c, 0, k);
                        lemma_depth_count_mono(*c, k + 1, i as int);
                        assert(spec_depth_count(*c, k + 1) == spec_depth_count(*c, k) + 1);
                        assert(0 <= spec_depth_count(*c, k) < prev_depths.len());
                        assert(depths@[spec_depth_count(*c, k)] == prev_depths[spec_depth_count(
                            *c,
                            k,
                        )]);
                    } else {
                        assert(depths@[spec_depth_count(*c, k)] == d);
                    }
                }
            }
        }
        i = i + 1;
    }
    proof {
        assert(c.n_rows() == n);
    }
    Ok(DecodedFile { trades, depths, stock_code, date })
}

} // verus!
