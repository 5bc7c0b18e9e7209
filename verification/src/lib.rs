//! Converts one stock-day of tick market data, handed over as plain
//! columns, into a single self-contained document: the decoded trade and
//! depth rows, each trade labelled by an as-of join against the preceding
//! order-book snapshot, a chart series with cumulative volume and running
//! VWAP, and end-of-day summary statistics. Prices are fixed-point
//! integers and divided quantities exact rationals, so every rule of the
//! pipeline is stated and proved over plain values.

pub mod analytics;
pub mod assemble;
pub mod classify;
pub mod decode;
pub mod ladder;
pub mod records;
pub mod sorting;
pub mod timefmt;
