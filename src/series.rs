//! The series writer's scheme: series keys, labels, the operations issued to
//! the time-series store, and a model of what the store then holds.
//!
//! Keys are `{EXCHANGE}:{SYMBOL}:{KIND}:{SIDE}:{TAIL}`, where the tail is the
//! field (`PRICE`, `VOL`) of a quote or trade series and the price level of a
//! book series. Every series carries the labels `EXCHANGE`, `SIDE`, `SUB` and
//! `GROUP`. The model of the store keeps each series as the history of the
//! `(timestamp, value)` points written to it, in order. A point whose
//! timestamp is not below every earlier one becomes the series' latest value,
//! so that of two points with one timestamp the last written wins. The store
//! itself keeps one point per timestamp, the last written; a read of a
//! series' latest value gives the same answer on both.

use vstd::prelude::*;
use vstd::string::*;
use crate::numeric::Decimal;
use crate::record::{FeedConfig, FeedKind, Field, Side, side_name, kind_name, field_name};

verus! {

/// How long the store keeps a point, in milliseconds.
pub const RETENTION_MS: u64 = 86400000;

/// What the store does with a point at a timestamp that its series already
/// holds.
#[derive(Clone, Copy, Debug, PartialEq, Eq, Structural)]
pub enum DuplicatePolicy {
    /// Refuse the new point.
    Block,
    /// Keep the point written first.
    First,
    /// Keep the point written last.
    Last,
}

/// The options a series is created with.
#[derive(Clone, Copy, Debug, PartialEq, Eq, Structural)]
pub struct SeriesOptions {
    pub retention_ms: u64,
    pub duplicate_policy: DuplicatePolicy,
}

/// Every series is created keeping points for a day, and the last point
/// written at a timestamp wins.
pub fn series_options() -> (r: SeriesOptions)
    ensures
        r.retention_ms == 86400000,
        r.retention_ms == RETENTION_MS,
        r.duplicate_policy == DuplicatePolicy::Last,
{
    SeriesOptions { retention_ms: RETENTION_MS, duplicate_policy: DuplicatePolicy::Last }
}

/// A `name=value` label of a series.
#[derive(Clone, Debug)]
pub struct Label {
    pub name: String,
    pub value: String,
}

/// One point to append to a series, created with its labels if absent.
#[derive(Clone, Debug)]
pub struct Point {
    pub key: String,
    pub timestamp_ms: i64,
    pub value: Decimal,
    pub labels: Vec<Label>,
}

/// An operation issued to the store.
#[derive(Clone, Debug)]
pub enum StoreOp {
    /// Remove every series whose key starts with this text.
    ClearPrefix(String),
    /// Append a point.
    Append(Point),
}

pub type LabelsView = Seq<(Seq<char>, Seq<char>)>;

/// What an operation does, over plain values.
pub enum Effect {
    Clear(Seq<char>),
    Put { key: Seq<char>, ts: i64, value: Seq<char>, labels: LabelsView },
}

pub open spec fn labels_view(labels: Seq<Label>) -> LabelsView {
    labels.map_values(|l: Label| (l.name@, l.value@))
}

pub open spec fn op_effect(op: StoreOp) -> Effect {
    match op {
        StoreOp::ClearPrefix(p) => Effect::Clear(p@),
        StoreOp::Append(pt) => Effect::Put {
            key: pt.key@,
            ts: pt.timestamp_ms,
            value: pt.value@,
            labels: labels_view(pt.labels@),
        },
    }
}

pub open spec fn effects(ops: Seq<StoreOp>) -> Seq<Effect> {
    ops.map_values(|op: StoreOp| op_effect(op))
}

/// `{EXCHANGE}:{SYMBOL}:{KIND}`
pub open spec fn feed_prefix(exchange: Seq<char>, symbol: Seq<char>, kind: FeedKind) -> Seq<char> {
    exchange + ":"@ + symbol + ":"@ + kind_name(kind)
}

/// `{EXCHANGE}:{SYMBOL}:{KIND}:{SIDE}:{TAIL}`
pub open spec fn series_key(
    exchange: Seq<char>,
    symbol: Seq<char>,
    kind: FeedKind,
    side: Side,
    tail: Seq<char>,
) -> Seq<char> {
    feed_prefix(exchange, symbol, kind) + ":"@ + side_name(side) + ":"@ + tail
}

/// The text that starts every book series of one instrument, and nothing else.
pub open spec fn book_prefix(exchange: Seq<char>, symbol: Seq<char>) -> Seq<char> {
    feed_prefix(exchange, symbol, FeedKind::Book) + ":"@
}

pub open spec fn series_labels(
    exchange: Seq<char>,
    side: Side,
    kind: FeedKind,
    group: Field,
) -> LabelsView {
    seq![
        ("EXCHANGE"@, exchange),
        ("SIDE"@, side_name(side)),
        ("SUB"@, kind_name(kind)),
        ("GROUP"@, field_name(group)),
    ]
}

fn text(s: &str) -> (r: String)
    ensures
        r@ == s@,
{
    s.to_string()
}

fn feed_prefix_text(cfg: &FeedConfig, kind: FeedKind) -> (r: String)
    ensures
        r@ == feed_prefix(cfg.exchange@, cfg.symbol@, kind),
{
    let mut r = cfg.exchange.clone();
    r.append(":");
    r.append(cfg.symbol.as_str());
    r.append(":");
    r.append(kind.name().as_str());
    r
}

/// Builds the key of a series.
pub fn series_key_text(cfg: &FeedConfig, kind: FeedKind, side: Side, tail: &str) -> (r: String)
    ensures
        r@ == series_key(cfg.exchange@, cfg.symbol@, kind, side, tail@),
{
    let mut r = feed_prefix_text(cfg, kind);
    r.append(":");
    r.append(side.name().as_str());
    r.append(":");
    r.append(tail);
    r
}

/// Builds the prefix shared by the book series of the pipeline's instrument.
pub fn book_prefix_text(cfg: &FeedConfig) -> (r: String)
    ensures
        r@ == book_prefix(cfg.exchange@, cfg.symbol@),
{
    let mut r = feed_prefix_text(cfg, FeedKind::Book);
    r.append(":");
    r
}

/// Builds the labels of a series.
pub fn series_labels_vec(cfg: &FeedConfig, side: Side, kind: FeedKind, group: Field) -> (r: Vec<
    Label,
>)
    ensures
        labels_view(r@) == series_labels(cfg.exchange@, side, kind, group),
{
    let mut r: Vec<Label> = Vec::new();
    r.push(Label { name: text("EXCHANGE"), value: cfg.exchange.clone() });
    r.push(Label { name: text("SIDE"), value: side.name() });
    r.push(Label { name: text("SUB"), value: kind.name() });
    r.push(Label { name: text("GROUP"), value: group.name() });
    assert(labels_view(r@) =~= series_labels(cfg.exchange@, side, kind, group));
    r
}

/// Characters that a store key pattern gives a meaning of their own.
pub open spec fn is_pattern_special(c: char) -> bool {
    c == '*' || c == '?' || c == '[' || c == ']' || c == '\\'
}

/// `s` with each special pattern character preceded by a backslash.
pub open spec fn pattern_escaped(s: Seq<char>) -> Seq<char>
    decreases s.len(),
{
    if s.len() == 0 {
        seq![]
    } else {
        pattern_escaped(s.drop_last()) + if is_pattern_special(s.last()) {
            seq!['\\', s.last()]
        } else {
            seq![s.last()]
        }
    }
}

/// The key pattern that matches exactly the keys starting with `prefix`, for
/// carrying out a `ClearPrefix`.
pub fn clear_pattern(prefix: &str) -> (r: String)
    ensures
        r@ == pattern_escaped(prefix@) + seq!['*'],
{
    let n = prefix.unicode_len();
    let mut r = String::new();
    let mut i: usize = 0;
    proof {
        reveal_strlit("\\");
        reveal_strlit("*");
        assert(prefix@.subrange(0, 0) =~= Seq::<char>::empty());
    }
    while i < n
        invariant
            i <= n,
            n == prefix@.len(),
            r@ == pattern_escaped(prefix@.subrange(0, i as int)),
            "\\"@ == seq!['\\'],
        decreases n - i,
    {
        let c = prefix.get_char(i);
        let ghost before = r@;
        if c == '*' || c == '?' || c == '[' || c == ']' || c == '\\' {
            r.append("\\");
        }
        let one = prefix.substring_char(i, i + 1);
        r.append(one);
        proof {
            let t = prefix@.subrange(0, i + 1);
            assert(t.drop_last() =~= prefix@.subrange(0, i as int));
            assert(t.last() == c);
            assert(one@ =~= seq![c]);
            if is_pattern_special(c) {
                assert(r@ =~= before + seq!['\\', c]);
            } else {
                assert(r@ =~= before + seq![c]);
            }
        }
        i += 1;
    }
    r.append("*");
    assert(prefix@.subrange(0, n as int) =~= prefix@);
    r
}

/// The history of writes to each series, in the order written.
pub type StoreModel = Map<Seq<char>, Seq<(i64, Seq<char>)>>;

pub open spec fn series_of(store: StoreModel, key: Seq<char>) -> Seq<(i64, Seq<char>)> {
    if store.contains_key(key) {
        store[key]
    } else {
        seq![]
    }
}

pub open spec fn apply_effect(store: StoreModel, e: Effect) -> StoreModel {
    match e {
        Effect::Clear(p) => store.restrict(store.dom().filter(|k: Seq<char>| !p.is_prefix_of(k))),
        Effect::Put { key, ts, value, labels } => store.insert(
            key,
            series_of(store, key).push((ts, value)),
        ),
    }
}

pub open spec fn apply_effects(store: StoreModel, es: Seq<Effect>) -> StoreModel
    decreases es.len(),
{
    if es.len() == 0 {
        store
    } else {
        apply_effect(apply_effects(store, es.drop_last()), es.last())
    }
}

/// The point that a read of the series' latest value returns.
pub open spec fn latest(points: Seq<(i64, Seq<char>)>) -> Option<(i64, Seq<char>)>
    decreases points.len(),
{
    if points.len() == 0 {
        None
    } else {
        let p = points.last();
        match latest(points.drop_last()) {
            None => Some(p),
            Some(q) => if p.0 >= q.0 {
                Some(p)
            } else {
                Some(q)
            },
        }
    }
}

/// The latest value of a series, or `None` where it is absent or empty.
pub open spec fn read_latest(store: StoreModel, key: Seq<char>) -> Option<Seq<char>> {
    match latest(series_of(store, key)) {
        Some(p) => Some(p.1),
        None => None,
    }
}

pub proof fn lemma_apply_effects_push(store: StoreModel, es: Seq<Effect>, e: Effect)
    ensures
        apply_effects(store, es.push(e)) == apply_effect(apply_effects(store, es), e),
{
    assert(es.push(e).drop_last() =~= es);
}

pub proof fn lemma_apply_effects_concat(store: StoreModel, a: Seq<Effect>, b: Seq<Effect>)
    ensures
        apply_effects(store, a + b) == apply_effects(apply_effects(store, a), b),
    decreases b.len(),
{
    if b.len() == 0 {
        assert(a + b =~= a);
    } else {
        assert((a + b).drop_last() =~= a + b.drop_last());
        lemma_apply_effects_concat(store, a, b.drop_last());
    }
}

/// The latest point of a series is one of its points.
pub proof fn lemma_latest_is_member(points: Seq<(i64, Seq<char>)>)
    ensures
        latest(points) matches Some(q) ==> points.contains(q),
    decreases points.len(),
{
    if points.len() > 0 {
        lemma_latest_is_member(points.drop_last());
        if let Some(q) = latest(points.drop_last()) {
            let i = choose|i: int| 0 <= i < points.drop_last().len() && points.drop_last()[i] == q;
            assert(points[i] == q);
        }
        assert(points[points.len() - 1] == points.last());
    }
}

/// A point appended with a timestamp no lower than any earlier one is the
/// series' latest.
pub proof fn lemma_latest_of_newest(points: Seq<(i64, Seq<char>)>, p: (i64, Seq<char>))
    requires
        forall|i: int| 0 <= i < points.len() ==> (#[trigger] points[i]).0 <= p.0,
    ensures
        latest(points.push(p)) == Some(p),
{
    lemma_latest_is_member(points);
    assert(points.push(p).drop_last() =~= points);
}

} // verus!
