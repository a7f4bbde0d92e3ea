//! Store operations for quotes and trades.
//!
//! A quote becomes four points: the bid's price and size on the `BUY` side and
//! the ask's on the `SELL` side. A trade becomes its price and size on its own
//! side. A record whose timestamp is not positive is never written.

use vstd::prelude::*;
use crate::numeric::Decimal;
use crate::record::{FeedConfig, FeedKind, Field, Quote, Side, Trade, field_name};
use crate::series::{Effect, StoreOp, Point, effects, op_effect, series_key, series_key_text,
    series_labels, series_labels_vec};

verus! {

/// A point of series `{EXCHANGE}:{SYMBOL}:{KEY_KIND}:{SIDE}:{FIELD}`, whose
/// `SUB` label names `kind`.
pub open spec fn field_effect(
    exchange: Seq<char>,
    symbol: Seq<char>,
    key_kind: FeedKind,
    kind: FeedKind,
    side: Side,
    field: Field,
    ts: i64,
    value: Seq<char>,
) -> Effect {
    Effect::Put {
        key: series_key(exchange, symbol, key_kind, side, field_name(field)),
        ts,
        value,
        labels: series_labels(exchange, side, kind, field),
    }
}

pub open spec fn quote_effects(
    exchange: Seq<char>,
    symbol: Seq<char>,
    key_kind: FeedKind,
    q: Quote,
) -> Seq<Effect> {
    if q.timestamp_ms <= 0 {
        seq![]
    } else {
        seq![
            field_effect(exchange, symbol, key_kind, FeedKind::Quote, Side::Buy, Field::Price, q.timestamp_ms, q.bid_price@),
            field_effect(exchange, symbol, key_kind, FeedKind::Quote, Side::Buy, Field::Vol, q.timestamp_ms, q.bid_size@),
            field_effect(exchange, symbol, key_kind, FeedKind::Quote, Side::Sell, Field::Price, q.timestamp_ms, q.ask_price@),
            field_effect(exchange, symbol, key_kind, FeedKind::Quote, Side::Sell, Field::Vol, q.timestamp_ms, q.ask_size@),
        ]
    }
}

pub open spec fn trade_effects(exchange: Seq<char>, symbol: Seq<char>, t: Trade) -> Seq<Effect> {
    if t.timestamp_ms <= 0 {
        seq![]
    } else {
        seq![
            field_effect(exchange, symbol, FeedKind::Trade, FeedKind::Trade, t.side, Field::Price, t.timestamp_ms, t.price@),
            field_effect(exchange, symbol, FeedKind::Trade, FeedKind::Trade, t.side, Field::Vol, t.timestamp_ms, t.size@),
        ]
    }
}

fn field_op(
    cfg: &FeedConfig,
    key_kind: FeedKind,
    kind: FeedKind,
    side: Side,
    field: Field,
    ts: i64,
    value: &Decimal,
) -> (r: StoreOp)
    ensures
        op_effect(r) == field_effect(
            cfg.exchange@,
            cfg.symbol@,
            key_kind,
            kind,
            side,
            field,
            ts,
            value@,
        ),
{
    let tail = field.name();
    StoreOp::Append(
        Point {
            key: series_key_text(cfg, key_kind, side, tail.as_str()),
            timestamp_ms: ts,
            value: value.duplicate(),
            labels: series_labels_vec(cfg, side, kind, field),
        },
    )
}

/// The store operations that write a quote, keyed under the pipeline's quote
/// key kind.
pub fn quote_ops(cfg: &FeedConfig, q: &Quote) -> (ops: Vec<StoreOp>)
    ensures
        effects(ops@) == quote_effects(cfg.exchange@, cfg.symbol@, cfg.quote_key_kind, *q),
{
    let mut ops: Vec<StoreOp> = Vec::new();
    if q.timestamp_ms > 0 {
        let ts = q.timestamp_ms;
        ops.push(field_op(cfg, cfg.quote_key_kind, FeedKind::Quote, Side::Buy, Field::Price, ts, &q.bid_price));
        ops.push(field_op(cfg, cfg.quote_key_kind, FeedKind::Quote, Side::Buy, Field::Vol, ts, &q.bid_size));
        ops.push(field_op(cfg, cfg.quote_key_kind, FeedKind::Quote, Side::Sell, Field::Price, ts, &q.ask_price));
        ops.push(field_op(cfg, cfg.quote_key_kind, FeedKind::Quote, Side::Sell, Field::Vol, ts, &q.ask_size));
    }
    assert(effects(ops@) =~= quote_effects(cfg.exchange@, cfg.symbol@, cfg.quote_key_kind, *q));
    ops
}

/// The store operations that write a trade.
pub fn trade_ops(cfg: &FeedConfig, t: &Trade) -> (ops: Vec<StoreOp>)
    ensures
        effects(ops@) == trade_effects(cfg.exchange@, cfg.symbol@, *t),
{
    let mut ops: Vec<StoreOp> = Vec::new();
    if t.timestamp_ms > 0 {
        let ts = t.timestamp_ms;
        ops.push(field_op(cfg, FeedKind::Trade, FeedKind::Trade, t.side, Field::Price, ts, &t.price));
        ops.push(field_op(cfg, FeedKind::Trade, FeedKind::Trade, t.side, Field::Vol, ts, &t.size));
    }
    assert(effects(ops@) =~= trade_effects(cfg.exchange@, cfg.symbol@, *t));
    ops
}

} // verus!
