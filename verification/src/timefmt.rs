use vstd::prelude::*;

verus! {

/// The text chrono renders for a microsecond UTC epoch value in the form
/// `YYYY-MM-DD HH:MM:SS.ffffff`, or `None` when the value lies outside the
/// range chrono can represent. A function of the value alone.
pub uninterp spec fn datetime_text_of(t: i64) -> Option<Seq<char>>;

/// The text chrono renders for a microsecond UTC epoch value in the form
/// `YYYYMMDD`, or `None` when the value lies outside the range chrono can
/// represent. A function of the value alone.
pub uninterp spec fn date8_text_of(t: i64) -> Option<Seq<char>>;

/// The characters that remain after stripping leading and trailing
/// whitespace. A function of the characters alone.
pub uninterp spec fn trimmed_of(s: Seq<char>) -> Seq<char>;

/// Relies on chrono's `DateTime::<Utc>::from_timestamp_micros`, which is
/// `Some` exactly for values within chrono's representable range, and on
/// `DateTime::format` with `%Y-%m-%d %H:%M:%S%.6f`, whose output depends on
/// the timestamp alone (UTC, microsecond precision).
#[verifier::external_body]
fn fmt_datetime_micros(t: i64) -> (r: Option<String>)
    ensures
        r.deep_view() == datetime_text_of(t),
{
    chrono::DateTime::from_timestamp_micros(t)
        .map(|d| d.format("%Y-%m-%d %H:%M:%S%.6f").to_string())
}

/// Relies on chrono's `DateTime::<Utc>::from_timestamp_micros` and on
/// `DateTime::format` with `%Y%m%d`: the calendar date, in UTC, of the
/// timestamp, a function of the value alone.
#[verifier::external_body]
fn fmt_date8_micros(t: i64) -> (r: Option<String>)
    ensures
        r.deep_view() == date8_text_of(t),
{
    chrono::DateTime::from_timestamp_micros(t).map(|d| d.format("%Y%m%d").to_string())
}

/// Relies on `str::trim`: removes leading and trailing whitespace and returns
/// a subslice of the input, so the result never grows.
#[verifier::external_body]
fn trim_text(s: &str) -> (r: String)
    ensures
        r@ == trimmed_of(s@),
        r@.len() <= s@.len(),
{
    s.trim().to_owned()
}

/// The rendered `YYYY-MM-DD HH:MM:SS.ffffff` timestamp, with the epoch
/// placeholder for values chrono cannot represent.
pub open spec fn spec_timestamp_text(t: i64) -> Seq<char> {
    match datetime_text_of(t) {
        Some(s) => s,
        None => "1970-01-01 00:00:00.000000"@,
    }
}

/// The rendered `YYYYMMDD` calendar date, with the epoch placeholder for
/// values chrono cannot represent.
pub open spec fn spec_date8_text(t: i64) -> Seq<char> {
    match date8_text_of(t) {
        Some(s) => s,
        None => "19700101"@,
    }
}

/// Render a microsecond UTC epoch value as a human-readable timestamp
/// string; out-of-range values fall back to the epoch placeholder rather
/// than failing the file.
pub fn timestamp_to_datetime_str(t: i64) -> (r: String)
    ensures
        r@ == spec_timestamp_text(t),
{
    match fmt_datetime_micros(t) {
        Some(s) => s,
        None => "1970-01-01 00:00:00.000000".to_owned(),
    }
}

/// Render the `YYYYMMDD` calendar date of a microsecond UTC epoch value;
/// out-of-range values fall back to the epoch placeholder.
pub fn extract_date_from_timestamp(t: i64) -> (r: String)
    ensures
        r@ == spec_date8_text(t),
{
    match fmt_date8_micros(t) {
        Some(s) => s,
        None => "19700101".to_owned(),
    }
}

/// Strip leading and trailing whitespace from a captured identifier.
pub fn trim_identifier(s: &String) -> (r: String)
    ensures
        r@ == trimmed_of(s@),
{
    trim_text(s.as_str())
}

} // verus!
