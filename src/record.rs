//! Canonical records that the normalizers produce.

use vstd::prelude::*;
use crate::numeric::Decimal;

verus! {

/// The side of a book level, a quote or a trade.
#[derive(Clone, Copy, Debug, PartialEq, Eq, Structural)]
pub enum Side {
    Buy,
    Sell,
}

/// The kind of feed a series belongs to.
#[derive(Clone, Copy, Debug, PartialEq, Eq, Structural)]
pub enum FeedKind {
    Quote,
    Trade,
    Book,
}

/// What a quote or trade series holds.
#[derive(Clone, Copy, Debug, PartialEq, Eq, Structural)]
pub enum Field {
    Price,
    Vol,
}

/// How a batch of book deltas applies to the stored book.
#[derive(Clone, Copy, Debug, PartialEq, Eq, Structural)]
pub enum BookAction {
    /// A full replacement of the book.
    Snapshot,
    /// New or changed levels.
    Upsert,
    /// Removed levels.
    Delete,
}

/// The identity under which one pipeline stores its series.
#[derive(Clone, Debug)]
pub struct FeedConfig {
    pub exchange: String,
    pub symbol: String,
    /// The kind segment of the pipeline's quote keys. Their `SUB` label is
    /// `QUOTE` whatever this is, so a store that files an exchange's quotes
    /// under `TRADE` keys keeps its layout.
    pub quote_key_kind: FeedKind,
}

/// Best bid and ask of an instrument at one instant.
#[derive(Clone, Debug)]
pub struct Quote {
    pub timestamp_ms: i64,
    pub bid_price: Decimal,
    pub bid_size: Decimal,
    pub ask_price: Decimal,
    pub ask_size: Decimal,
}

/// One executed trade.
#[derive(Clone, Debug)]
pub struct Trade {
    pub side: Side,
    pub price: Decimal,
    pub size: Decimal,
    pub timestamp_ms: i64,
}

/// A change to one price level of a book.
#[derive(Clone, Debug)]
pub struct BookDelta {
    pub side: Side,
    pub price_level: Decimal,
    pub size: Option<Decimal>,
    pub timestamp_ms: i64,
}

pub open spec fn side_name(side: Side) -> Seq<char> {
    match side {
        Side::Buy => "BUY"@,
        Side::Sell => "SELL"@,
    }
}

pub open spec fn kind_name(kind: FeedKind) -> Seq<char> {
    match kind {
        FeedKind::Quote => "QUOTE"@,
        FeedKind::Trade => "TRADE"@,
        FeedKind::Book => "BOOK"@,
    }
}

pub open spec fn field_name(field: Field) -> Seq<char> {
    match field {
        Field::Price => "PRICE"@,
        Field::Vol => "VOL"@,
    }
}

impl Side {
    /// The side's name in series keys and labels.
    pub fn name(&self) -> (r: String)
        ensures
            r@ == side_name(*self),
    {
        match self {
            Side::Buy => "BUY".to_string(),
            Side::Sell => "SELL".to_string(),
        }
    }
}

impl FeedKind {
    /// The kind's name in series keys and labels.
    pub fn name(&self) -> (r: String)
        ensures
            r@ == kind_name(*self),
    {
        match self {
            FeedKind::Quote => "QUOTE".to_string(),
            FeedKind::Trade => "TRADE".to_string(),
            FeedKind::Book => "BOOK".to_string(),
        }
    }
}

impl Field {
    /// The field's name in series keys and labels.
    pub fn name(&self) -> (r: String)
        ensures
            r@ == field_name(*self),
    {
        match self {
            Field::Price => "PRICE".to_string(),
            Field::Vol => "VOL".to_string(),
        }
    }
}

} // verus!
