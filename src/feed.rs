//! Store operations for one decoded frame of each feed kind.
//!
//! Book and table frames carry an `action`. A book frame's action decides how
//! its levels are reconciled; a frame with an unknown action writes nothing.
//! Trade and quote tables are written on `partial`, `insert` and `update`, and
//! a `delete` of them writes nothing.

use vstd::prelude::*;
use crate::numeric::canonical_numeric;
use crate::record::{BookAction, BookDelta, FeedConfig, FeedKind, Field, Side};
use crate::reconcile::{book_effects, reconcile};
use crate::series::{Effect, StoreOp, effects};
use crate::timestamp::{rfc3339_millis, wire_timestamp};
use crate::normalize::{
    WireBookLevel, WireQuote, WireTrade, book_action_of, levels_normalized, normalize_levels,
    normalize_quote, normalize_trade, parse_book_action, quote_accepted, side_of, trade_accepted,
};
use crate::writer::{field_effect, quote_ops, trade_ops};

verus! {

/// The store operations for a book frame: `None` where its action is unknown.
pub open spec fn book_frame_effects(
    exchange: Seq<char>,
    symbol: Seq<char>,
    action: Seq<char>,
    levels: Seq<WireBookLevel>,
    ds: Seq<BookDelta>,
) -> Seq<Effect> {
    match book_action_of(action) {
        Some(a) => book_effects(exchange, symbol, a, ds),
        None => seq![],
    }
}

/// Reconciles a decoded book frame: its levels are normalized, the malformed
/// ones dropped, and the rest applied under the frame's action.
pub fn book_frame_ops(cfg: &FeedConfig, action: &str, levels: &Vec<WireBookLevel>) -> (ops: Vec<
    StoreOp,
>)
    ensures
        book_action_of(action@) is None ==> ops@.len() == 0,
        exists|ds: Seq<BookDelta>|
            levels_normalized(levels@, ds) && effects(ops@) == book_frame_effects(
                cfg.exchange@,
                cfg.symbol@,
                action@,
                levels@,
                ds,
            ),
{
    let ds = normalize_levels(levels);
    match parse_book_action(action) {
        Some(a) => reconcile(cfg, a, &ds),
        None => {
            let ops: Vec<StoreOp> = Vec::new();
            assert(effects(ops@) =~= seq![]);
            ops
        },
    }
}

/// A table frame's records are written under this action.
pub open spec fn writes_records(action: Seq<char>) -> bool {
    book_action_of(action) matches Some(a) && a != BookAction::Delete
}

pub open spec fn wire_trade_effects(exchange: Seq<char>, symbol: Seq<char>, w: WireTrade) -> Seq<
    Effect,
> {
    if trade_accepted(w) {
        let side = side_of(w.side@).unwrap();
        let ts = wire_timestamp(w.timestamp@);
        seq![
            field_effect(exchange, symbol, FeedKind::Trade, FeedKind::Trade, side, Field::Price, ts, canonical_numeric(w.price@)),
            field_effect(exchange, symbol, FeedKind::Trade, FeedKind::Trade, side, Field::Vol, ts, canonical_numeric(w.size@)),
        ]
    } else {
        seq![]
    }
}

/// A trade whose timestamp does not parse adds no store operation to its
/// frame.
pub proof fn law_unparsed_trade_time_never_written(
    exchange: Seq<char>,
    symbol: Seq<char>,
    w: WireTrade,
)
    requires
        rfc3339_millis(w.timestamp@) is None,
    ensures
        wire_trade_effects(exchange, symbol, w) == Seq::<Effect>::empty(),
{
}

pub open spec fn wire_trades_effects(
    exchange: Seq<char>,
    symbol: Seq<char>,
    ws: Seq<WireTrade>,
) -> Seq<Effect>
    decreases ws.len(),
{
    if ws.len() == 0 {
        seq![]
    } else {
        wire_trades_effects(exchange, symbol, ws.drop_last()) + wire_trade_effects(
            exchange,
            symbol,
            ws.last(),
        )
    }
}

/// The store operations for a decoded trade frame.
pub fn trade_frame_ops(cfg: &FeedConfig, action: &str, trades: &Vec<WireTrade>) -> (ops: Vec<
    StoreOp,
>)
    ensures
        effects(ops@) == if writes_records(action@) {
            wire_trades_effects(cfg.exchange@, cfg.symbol@, trades@)
        } else {
            seq![]
        },
{
    let mut ops: Vec<StoreOp> = Vec::new();
    let writes = match parse_book_action(action) {
        Some(BookAction::Delete) => false,
        Some(_) => true,
        None => false,
    };
    if !writes {
        assert(effects(ops@) =~= seq![]);
        return ops;
    }
    let mut i: usize = 0;
    while i < trades.len()
        invariant
            i <= trades.len(),
            effects(ops@) == wire_trades_effects(
                cfg.exchange@,
                cfg.symbol@,
                trades@.subrange(0, i as int),
            ),
        decreases trades.len() - i,
    {
        assert(trades@.subrange(0, i + 1).drop_last() =~= trades@.subrange(0, i as int));
        assert(trades@.subrange(0, i + 1).last() == trades@[i as int]);
        let ghost prev = ops@;
        if let Some(t) = normalize_trade(&trades[i]) {
            let mut more = trade_ops(cfg, &t);
            let ghost added = more@;
            ops.append(&mut more);
            assert(effects(ops@) =~= effects(prev) + effects(added));
        } else {
            assert(effects(ops@) =~= effects(prev) + seq![]);
        }
        i += 1;
    }
    assert(trades@.subrange(0, trades.len() as int) =~= trades@);
    ops
}

pub open spec fn wire_quote_effects(
    exchange: Seq<char>,
    symbol: Seq<char>,
    key_kind: FeedKind,
    w: WireQuote,
    received_ms: i64,
) -> Seq<Effect> {
    if quote_accepted(w) && received_ms > 0 {
        seq![
            field_effect(exchange, symbol, key_kind, FeedKind::Quote, Side::Buy, Field::Price, received_ms, canonical_numeric(w.bid_price@)),
            field_effect(exchange, symbol, key_kind, FeedKind::Quote, Side::Buy, Field::Vol, received_ms, canonical_numeric(w.bid_size@)),
            field_effect(exchange, symbol, key_kind, FeedKind::Quote, Side::Sell, Field::Price, received_ms, canonical_numeric(w.ask_price@)),
            field_effect(exchange, symbol, key_kind, FeedKind::Quote, Side::Sell, Field::Vol, received_ms, canonical_numeric(w.ask_size@)),
        ]
    } else {
        seq![]
    }
}

/// The store operations for one decoded quote, received at `received_ms`.
pub fn quote_message_ops(cfg: &FeedConfig, w: &WireQuote, received_ms: i64) -> (ops: Vec<StoreOp>)
    ensures
        effects(ops@) == wire_quote_effects(cfg.exchange@, cfg.symbol@, cfg.quote_key_kind, *w, received_ms),
{
    match normalize_quote(w, received_ms) {
        Some(q) => quote_ops(cfg, &q),
        None => {
            let ops: Vec<StoreOp> = Vec::new();
            assert(effects(ops@) =~= seq![]);
            ops
        },
    }
}

pub open spec fn wire_quotes_effects(
    exchange: Seq<char>,
    symbol: Seq<char>,
    key_kind: FeedKind,
    ws: Seq<WireQuote>,
    received_ms: i64,
) -> Seq<Effect>
    decreases ws.len(),
{
    if ws.len() == 0 {
        seq![]
    } else {
        wire_quotes_effects(exchange, symbol, key_kind, ws.drop_last(), received_ms)
            + wire_quote_effects(
            exchange,
            symbol,
            key_kind,
            ws.last(),
            received_ms,
        )
    }
}

/// The store operations for a decoded quote table frame, received at
/// `received_ms`.
pub fn quote_frame_ops(
    cfg: &FeedConfig,
    action: &str,
    quotes: &Vec<WireQuote>,
    received_ms: i64,
) -> (ops: Vec<StoreOp>)
    ensures
        effects(ops@) == if writes_records(action@) {
            wire_quotes_effects(cfg.exchange@, cfg.symbol@, cfg.quote_key_kind, quotes@, received_ms)
        } else {
            seq![]
        },
{
    let mut ops: Vec<StoreOp> = Vec::new();
    let writes = match parse_book_action(action) {
        Some(BookAction::Delete) => false,
        Some(_) => true,
        None => false,
    };
    if !writes {
        assert(effects(ops@) =~= seq![]);
        return ops;
    }
    let mut i: usize = 0;
    while i < quotes.len()
        invariant
            i <= quotes.len(),
            effects(ops@) == wire_quotes_effects(
                cfg.exchange@,
                cfg.symbol@,
                cfg.quote_key_kind,
                quotes@.subrange(0, i as int),
                received_ms,
            ),
        decreases quotes.len() - i,
    {
        assert(quotes@.subrange(0, i + 1).drop_last() =~= quotes@.subrange(0, i as int));
        assert(quotes@.subrange(0, i + 1).last() == quotes@[i as int]);
        let ghost prev = ops@;
        let mut more = quote_message_ops(cfg, &quotes[i], received_ms);
        let ghost added = more@;
        ops.append(&mut more);
        assert(effects(ops@) =~= effects(prev) + effects(added));
        i += 1;
    }
    assert(quotes@.subrange(0, quotes.len() as int) =~= quotes@);
    ops
}

} // verus!
