//! Normalizers: decoded exchange records, with their numeric and time fields
//! still as wire text, become canonical records.
//!
//! A record with a malformed field is dropped on its own; the other records
//! of its batch are kept.

use vstd::prelude::*;
use vstd::string::*;
use crate::numeric::{canonical_numeric, is_numeric_text, parse_numeric};
use crate::record::{BookAction, BookDelta, Quote, Side, Trade};
use crate::timestamp::{rfc3339_millis, timestamp_ms, wire_timestamp};

verus! {

/// A level of a book message as decoded from the wire.
#[derive(Clone, Debug)]
pub struct WireBookLevel {
    pub side: String,
    pub price: String,
    pub size: Option<String>,
    pub timestamp: String,
}

/// A trade as decoded from the wire.
#[derive(Clone, Debug)]
pub struct WireTrade {
    pub side: String,
    pub price: String,
    pub size: String,
    pub timestamp: String,
}

/// A best bid and ask as decoded from the wire.
#[derive(Clone, Debug)]
pub struct WireQuote {
    pub bid_price: String,
    pub bid_size: String,
    pub ask_price: String,
    pub ask_size: String,
}

/// `c` is the letter `upper` in either case.
pub open spec fn letter_is(c: char, upper: char, lower: char) -> bool {
    c == upper || c == lower
}

/// The side a wire text names, in any letter case.
pub open spec fn side_of(s: Seq<char>) -> Option<Side> {
    if s.len() == 3 && letter_is(s[0], 'B', 'b') && letter_is(s[1], 'U', 'u') && letter_is(
        s[2],
        'Y',
        'y',
    ) {
        Some(Side::Buy)
    } else if s.len() == 4 && letter_is(s[0], 'S', 's') && letter_is(s[1], 'E', 'e') && letter_is(
        s[2],
        'L',
        'l',
    ) && letter_is(s[3], 'L', 'l') {
        Some(Side::Sell)
    } else {
        None
    }
}

/// The book action a wire `action` field names.
pub open spec fn book_action_of(s: Seq<char>) -> Option<BookAction> {
    if s == "partial"@ {
        Some(BookAction::Snapshot)
    } else if s == "insert"@ || s == "update"@ {
        Some(BookAction::Upsert)
    } else if s == "delete"@ {
        Some(BookAction::Delete)
    } else {
        None
    }
}

/// Compares two texts.
pub fn text_eq(a: &str, b: &str) -> (r: bool)
    ensures
        r == (a@ == b@),
{
    let n = a.unicode_len();
    if n != b.unicode_len() {
        return false;
    }
    let mut i: usize = 0;
    while i < n
        invariant
            i <= n,
            n == a@.len(),
            n == b@.len(),
            forall|j: int| 0 <= j < i ==> a@[j] == b@[j],
        decreases n - i,
    {
        if a.get_char(i) != b.get_char(i) {
            return false;
        }
        i += 1;
    }
    assert(a@ =~= b@);
    true
}

fn is_letter(c: char, upper: char, lower: char) -> (r: bool)
    ensures
        r == letter_is(c, upper, lower),
{
    c == upper || c == lower
}

/// Reads a wire side, in any letter case.
pub fn parse_side(s: &str) -> (r: Option<Side>)
    ensures
        r == side_of(s@),
{
    let n = s.unicode_len();
    if n == 3 && is_letter(s.get_char(0), 'B', 'b') && is_letter(s.get_char(1), 'U', 'u')
        && is_letter(s.get_char(2), 'Y', 'y') {
        Some(Side::Buy)
    } else if n == 4 && is_letter(s.get_char(0), 'S', 's') && is_letter(s.get_char(1), 'E', 'e')
        && is_letter(s.get_char(2), 'L', 'l') && is_letter(s.get_char(3), 'L', 'l') {
        Some(Side::Sell)
    } else {
        None
    }
}

/// Reads a wire book action: `partial` is a snapshot, `insert` and `update`
/// are upserts, `delete` is a delete, anything else is none of them.
pub fn parse_book_action(s: &str) -> (r: Option<BookAction>)
    ensures
        r == book_action_of(s@),
{
    if text_eq(s, "partial") {
        Some(BookAction::Snapshot)
    } else if text_eq(s, "insert") || text_eq(s, "update") {
        Some(BookAction::Upsert)
    } else if text_eq(s, "delete") {
        Some(BookAction::Delete)
    } else {
        None
    }
}

/// A wire level has a side, a numeric price, and a numeric size where it has one.
pub open spec fn level_accepted(w: WireBookLevel) -> bool {
    &&& side_of(w.side@) is Some
    &&& is_numeric_text(w.price@)
    &&& (w.size matches Some(z) ==> is_numeric_text(z@))
}

/// `d` is what the wire level `w` normalizes to.
pub open spec fn level_normalized(w: WireBookLevel, d: BookDelta) -> bool {
    &&& side_of(w.side@) == Some(d.side)
    &&& d.price_level@ == canonical_numeric(w.price@)
    &&& (d.size is Some <==> w.size is Some)
    &&& (d.size matches Some(z) ==> z@ == canonical_numeric(w.size.unwrap()@))
    &&& d.timestamp_ms == wire_timestamp(w.timestamp@)
}

/// Normalizes one wire book level; `None` where a field is malformed. A
/// timestamp that does not parse gives zero, which the reconciler never writes.
pub fn normalize_level(w: &WireBookLevel) -> (r: Option<BookDelta>)
    ensures
        r is Some <==> level_accepted(*w),
        r matches Some(d) ==> level_normalized(*w, d),
{
    let side = match parse_side(w.side.as_str()) {
        Some(s) => s,
        None => return None,
    };
    let price_level = match parse_numeric(w.price.as_str()) {
        Ok(p) => p,
        Err(_) => return None,
    };
    let size = match &w.size {
        Some(z) => match parse_numeric(z.as_str()) {
            Ok(v) => Some(v),
            Err(_) => return None,
        },
        None => None,
    };
    Some(BookDelta { side, price_level, size, timestamp_ms: timestamp_ms(w.timestamp.as_str()) })
}

/// `ds` holds, in order, what the accepted levels of `ws` normalize to.
pub open spec fn levels_normalized(ws: Seq<WireBookLevel>, ds: Seq<BookDelta>) -> bool
    decreases ws.len(),
{
    if ws.len() == 0 {
        ds.len() == 0
    } else if level_accepted(ws.last()) {
        ds.len() > 0 && level_normalized(ws.last(), ds.last()) && levels_normalized(
            ws.drop_last(),
            ds.drop_last(),
        )
    } else {
        levels_normalized(ws.drop_last(), ds)
    }
}

/// Normalizes the levels of a book message, dropping the malformed ones.
pub fn normalize_levels(ws: &Vec<WireBookLevel>) -> (ds: Vec<BookDelta>)
    ensures
        levels_normalized(ws@, ds@),
{
    let mut ds: Vec<BookDelta> = Vec::new();
    let mut i: usize = 0;
    while i < ws.len()
        invariant
            i <= ws.len(),
            levels_normalized(ws@.subrange(0, i as int), ds@),
        decreases ws.len() - i,
    {
        let ghost prev = ds@;
        assert(ws@.subrange(0, i + 1).drop_last() =~= ws@.subrange(0, i as int));
        assert(ws@.subrange(0, i + 1).last() == ws@[i as int]);
        if let Some(d) = normalize_level(&ws[i]) {
            ds.push(d);
            assert(ds@.drop_last() =~= prev);
        }
        i += 1;
    }
    assert(ws@.subrange(0, ws.len() as int) =~= ws@);
    ds
}

/// A wire trade has a side, a numeric price and size, and a timestamp that
/// parses to a positive instant.
pub open spec fn trade_accepted(w: WireTrade) -> bool {
    &&& side_of(w.side@) is Some
    &&& is_numeric_text(w.price@)
    &&& is_numeric_text(w.size@)
    &&& wire_timestamp(w.timestamp@) > 0
}

/// Normalizes a wire trade; `None` where a field is malformed, the timestamp
/// included, so that a trade without a usable time is never written.
pub fn normalize_trade(w: &WireTrade) -> (r: Option<Trade>)
    ensures
        r is Some <==> trade_accepted(*w),
        rfc3339_millis(w.timestamp@) is None ==> r is None,
        r matches Some(t) ==> {
            &&& side_of(w.side@) == Some(t.side)
            &&& t.price@ == canonical_numeric(w.price@)
            &&& t.size@ == canonical_numeric(w.size@)
            &&& t.timestamp_ms == wire_timestamp(w.timestamp@)
        },
{
    let side = match parse_side(w.side.as_str()) {
        Some(s) => s,
        None => return None,
    };
    let price = match parse_numeric(w.price.as_str()) {
        Ok(p) => p,
        Err(_) => return None,
    };
    let size = match parse_numeric(w.size.as_str()) {
        Ok(z) => z,
        Err(_) => return None,
    };
    let ts = timestamp_ms(w.timestamp.as_str());
    if ts <= 0 {
        return None;
    }
    Some(Trade { side, price, size, timestamp_ms: ts })
}

/// A wire quote has four numeric fields.
pub open spec fn quote_accepted(w: WireQuote) -> bool {
    &&& is_numeric_text(w.bid_price@)
    &&& is_numeric_text(w.bid_size@)
    &&& is_numeric_text(w.ask_price@)
    &&& is_numeric_text(w.ask_size@)
}

/// Normalizes a wire quote, stamped with the time it was received.
pub fn normalize_quote(w: &WireQuote, received_ms: i64) -> (r: Option<Quote>)
    ensures
        r is Some <==> quote_accepted(*w),
        r matches Some(q) ==> {
            &&& q.timestamp_ms == received_ms
            &&& q.bid_price@ == canonical_numeric(w.bid_price@)
            &&& q.bid_size@ == canonical_numeric(w.bid_size@)
            &&& q.ask_price@ == canonical_numeric(w.ask_price@)
            &&& q.ask_size@ == canonical_numeric(w.ask_size@)
        },
{
    let bid_price = match parse_numeric(w.bid_price.as_str()) {
        Ok(v) => v,
        Err(_) => return None,
    };
    let bid_size = match parse_numeric(w.bid_size.as_str()) {
        Ok(v) => v,
        Err(_) => return None,
    };
    let ask_price = match parse_numeric(w.ask_price.as_str()) {
        Ok(v) => v,
        Err(_) => return None,
    };
    let ask_size = match parse_numeric(w.ask_size.as_str()) {
        Ok(v) => v,
        Err(_) => return None,
    };
    Some(Quote { timestamp_ms: received_ms, bid_price, bid_size, ask_price, ask_size })
}

} // verus!
