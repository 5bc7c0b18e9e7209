use vstd::prelude::*;

verus! {

/// Label for the aggressor side of a trade, derived by comparing the trade
/// price against the best bid and best ask of the preceding depth snapshot.
#[derive(Clone, Copy, Debug, PartialEq, Eq, Structural)]
pub enum Side {
    /// Trade at or through the ask: an aggressive buy.
    Outer,
    /// Trade at or through the bid: an aggressive sell.
    Inner,
    /// Neither check fired, or no depth snapshot preceded the trade.
    Neutral,
}

/// The classification rule. The ask check runs first, so a crossed book
/// resolves to `Outer`; when a side of the book is absent its check is
/// skipped, and with no preceding snapshot both are.
pub open spec fn spec_classify(price: i64, best_bid: Option<i64>, best_ask: Option<i64>) -> Side {
    if best_ask is Some && price >= best_ask->0 {
        Side::Outer
    } else if best_bid is Some && price <= best_bid->0 {
        Side::Inner
    } else {
        Side::Neutral
    }
}

/// Classify one trade against the best bid/ask of the snapshot that preceded
/// it; either side of the book may be absent. Pure and stateless.
pub fn determine_inner_outer(price: i64, best_bid: Option<i64>, best_ask: Option<i64>) -> (r: Side)
    ensures
        r == spec_classify(price, best_bid, best_ask),
{
    if let Some(ask) = best_ask {
        if price >= ask {
            return Side::Outer;
        }
    }
    if let Some(bid) = best_bid {
        if price <= bid {
            return Side::Inner;
        }
    }
    Side::Neutral
}

impl Side {
    /// The label the output document carries for this side.
    pub fn label(&self) -> (r: String)
        ensures
            *self == Side::Outer ==> r@ == "outer"@,
            *self == Side::Inner ==> r@ == "inner"@,
            *self == Side::Neutral ==> r@ == "neutral"@,
    {
        match self {
            Side::Outer => "outer".to_owned(),
            Side::Inner => "inner".to_owned(),
            Side::Neutral => "neutral".to_owned(),
        }
    }
}

/// On a crossed book, where the trade price is at or through the ask and at
/// or through the bid at once, the ask check wins and the trade is `Outer`.
pub proof fn lemma_crossed_book_is_outer(price: i64, best_bid: i64, best_ask: i64)
    requires
        price >= best_ask,
        price <= best_bid,
    ensures
        spec_classify(price, Some(best_bid), Some(best_ask)) == Side::Outer,
{
}

/// With no preceding depth snapshot there is no bid and no ask to compare
/// against, and every trade is `Neutral`, whatever its price.
pub proof fn lemma_no_depth_is_neutral(price: i64)
    ensures
        spec_classify(price, None::<i64>, None::<i64>) == Side::Neutral,
{
}

} // verus!
