//! The book reconciler: turns a batch of book deltas into store operations.
//!
//! A snapshot first clears every series of the instrument's book and then
//! writes its levels as upserts do. An upsert writes the level's size, and
//! writes nothing where the size is missing. A delete writes zero: a series
//! is never removed by it. A delta whose timestamp is not positive is never
//! written.

use vstd::prelude::*;
use crate::numeric::Decimal;
use crate::record::{BookAction, BookDelta, FeedConfig, FeedKind, Field};
use crate::series::{
    Effect, StoreModel, StoreOp, Point, apply_effect, apply_effects, book_prefix, book_prefix_text,
    effects, lemma_apply_effects_concat, lemma_apply_effects_push, lemma_latest_of_newest,
    op_effect, read_latest, series_key, series_key_text, series_labels, series_labels_vec,
    series_of,
};

verus! {

pub open spec fn level_is_written(action: BookAction, d: BookDelta) -> bool {
    d.timestamp_ms > 0 && (action == BookAction::Delete || d.size is Some)
}

pub open spec fn level_value(action: BookAction, d: BookDelta) -> Seq<char> {
    if action == BookAction::Delete {
        seq!['0']
    } else {
        match d.size {
            Some(s) => s@,
            None => seq![],
        }
    }
}

pub open spec fn level_key(exchange: Seq<char>, symbol: Seq<char>, d: BookDelta) -> Seq<char> {
    series_key(exchange, symbol, FeedKind::Book, d.side, d.price_level@)
}

pub open spec fn level_effect(
    exchange: Seq<char>,
    symbol: Seq<char>,
    action: BookAction,
    d: BookDelta,
) -> Effect {
    Effect::Put {
        key: level_key(exchange, symbol, d),
        ts: d.timestamp_ms,
        value: level_value(action, d),
        labels: series_labels(exchange, d.side, FeedKind::Book, Field::Vol),
    }
}

pub open spec fn level_effects(
    exchange: Seq<char>,
    symbol: Seq<char>,
    action: BookAction,
    ds: Seq<BookDelta>,
) -> Seq<Effect>
    decreases ds.len(),
{
    if ds.len() == 0 {
        seq![]
    } else {
        let rest = level_effects(exchange, symbol, action, ds.drop_last());
        if level_is_written(action, ds.last()) {
            rest.push(level_effect(exchange, symbol, action, ds.last()))
        } else {
            rest
        }
    }
}

/// The store operations that reconciling a batch issues, in order.
pub open spec fn book_effects(
    exchange: Seq<char>,
    symbol: Seq<char>,
    action: BookAction,
    ds: Seq<BookDelta>,
) -> Seq<Effect> {
    if action == BookAction::Snapshot {
        seq![Effect::Clear(book_prefix(exchange, symbol))] + level_effects(
            exchange,
            symbol,
            action,
            ds,
        )
    } else {
        level_effects(exchange, symbol, action, ds)
    }
}

/// Reconciles a batch of deltas of the pipeline's book with the store.
pub fn reconcile(cfg: &FeedConfig, action: BookAction, deltas: &Vec<BookDelta>) -> (ops: Vec<
    StoreOp,
>)
    ensures
        effects(ops@) == book_effects(cfg.exchange@, cfg.symbol@, action, deltas@),
{
    let ghost ex = cfg.exchange@;
    let ghost sym = cfg.symbol@;
    let mut ops: Vec<StoreOp> = Vec::new();
    if action == BookAction::Snapshot {
        ops.push(StoreOp::ClearPrefix(book_prefix_text(cfg)));
    }
    let ghost base = effects(ops@);
    assert(base =~= if action == BookAction::Snapshot {
        seq![Effect::Clear(book_prefix(ex, sym))]
    } else {
        seq![]
    });
    let mut i: usize = 0;
    while i < deltas.len()
        invariant
            i <= deltas.len(),
            ex == cfg.exchange@,
            sym == cfg.symbol@,
            base == (if action == BookAction::Snapshot {
                seq![Effect::Clear(book_prefix(ex, sym))]
            } else {
                seq![]
            }),
            effects(ops@) == base + level_effects(ex, sym, action, deltas@.subrange(0, i as int)),
        decreases deltas.len() - i,
    {
        let d = &deltas[i];
        let value: Option<Decimal> = if d.timestamp_ms <= 0 {
            None
        } else if action == BookAction::Delete {
            Some(Decimal::zero())
        } else {
            match &d.size {
                Some(s) => Some(s.duplicate()),
                None => None,
            }
        };
        let ghost prev = ops@;
        if let Some(v) = value {
            let point = Point {
                key: series_key_text(cfg, FeedKind::Book, d.side, d.price_level.as_str()),
                timestamp_ms: d.timestamp_ms,
                value: v,
                labels: series_labels_vec(cfg, d.side, FeedKind::Book, Field::Vol),
            };
            ops.push(StoreOp::Append(point));
            assert(effects(ops@) =~= effects(prev).push(op_effect(ops@.last())));
        }
        proof {
            assert(deltas@.subrange(0, i + 1).drop_last() =~= deltas@.subrange(0, i as int));
            assert(deltas@.subrange(0, i + 1).last() == deltas@[i as int]);
        }
        i += 1;
    }
    assert(deltas@.subrange(0, deltas.len() as int) =~= deltas@);
    ops
}

/// The points that the level effects of a batch append to one series.
pub open spec fn level_points(
    exchange: Seq<char>,
    symbol: Seq<char>,
    action: BookAction,
    ds: Seq<BookDelta>,
    key: Seq<char>,
) -> Seq<(i64, Seq<char>)>
    decreases ds.len(),
{
    if ds.len() == 0 {
        seq![]
    } else {
        let rest = level_points(exchange, symbol, action, ds.drop_last(), key);
        let d = ds.last();
        if level_is_written(action, d) && level_key(exchange, symbol, d) == key {
            rest.push((d.timestamp_ms, level_value(action, d)))
        } else {
            rest
        }
    }
}

proof fn lemma_level_series(
    store: StoreModel,
    exchange: Seq<char>,
    symbol: Seq<char>,
    action: BookAction,
    ds: Seq<BookDelta>,
    key: Seq<char>,
)
    ensures
        series_of(apply_effects(store, level_effects(exchange, symbol, action, ds)), key)
            == series_of(store, key) + level_points(exchange, symbol, action, ds, key),
        store.contains_key(key) ==> apply_effects(
            store,
            level_effects(exchange, symbol, action, ds),
        ).contains_key(key),
        level_points(exchange, symbol, action, ds, key).len() > 0 ==> apply_effects(
            store,
            level_effects(exchange, symbol, action, ds),
        ).contains_key(key),
    decreases ds.len(),
{
    if ds.len() == 0 {
        assert(series_of(store, key) + seq![] =~= series_of(store, key));
    } else {
        let rest = level_effects(exchange, symbol, action, ds.drop_last());
        lemma_level_series(store, exchange, symbol, action, ds.drop_last(), key);
        let d = ds.last();
        if level_is_written(action, d) {
            lemma_apply_effects_push(store, rest, level_effect(exchange, symbol, action, d));
            let pts = level_points(exchange, symbol, action, ds.drop_last(), key);
            let p = (d.timestamp_ms, level_value(action, d));
            assert((series_of(store, key) + pts).push(p) =~= series_of(store, key) + pts.push(p));
        }
    }
}

/// Each point of `level_points` comes from a written delta of the batch
/// addressed to that series.
proof fn lemma_level_points_origin(
    exchange: Seq<char>,
    symbol: Seq<char>,
    action: BookAction,
    ds: Seq<BookDelta>,
    key: Seq<char>,
    j: int,
)
    requires
        0 <= j < level_points(exchange, symbol, action, ds, key).len(),
    ensures
        exists|i: int|
            0 <= i < ds.len() && level_is_written(action, #[trigger] ds[i]) && level_key(
                exchange,
                symbol,
                ds[i],
            ) == key && level_points(exchange, symbol, action, ds, key)[j] == (
                ds[i].timestamp_ms,
                level_value(action, ds[i]),
            ),
    decreases ds.len(),
{
    let rest = level_points(exchange, symbol, action, ds.drop_last(), key);
    if j < rest.len() {
        lemma_level_points_origin(exchange, symbol, action, ds.drop_last(), key, j);
        let i = choose|i: int|
            0 <= i < ds.drop_last().len() && level_is_written(action, #[trigger] ds.drop_last()[i])
                && level_key(exchange, symbol, ds.drop_last()[i]) == key && rest[j] == (
                ds.drop_last()[i].timestamp_ms,
                level_value(action, ds.drop_last()[i]),
            );
        assert(ds[i] == ds.drop_last()[i]);
    } else {
        assert(ds[ds.len() - 1] == ds.last());
    }
}

/// A series that exactly one written delta of the batch addresses receives
/// exactly that delta's point.
proof fn lemma_level_points_single(
    exchange: Seq<char>,
    symbol: Seq<char>,
    action: BookAction,
    ds: Seq<BookDelta>,
    i: int,
)
    requires
        0 <= i < ds.len(),
        level_is_written(action, ds[i]),
        forall|j: int|
            0 <= j < ds.len() && j != i && level_is_written(action, #[trigger] ds[j]) ==> level_key(
                exchange,
                symbol,
                ds[j],
            ) != level_key(exchange, symbol, ds[i]),
    ensures
        level_points(exchange, symbol, action, ds, level_key(exchange, symbol, ds[i])) == seq![
            (ds[i].timestamp_ms, level_value(action, ds[i])),
        ],
    decreases ds.len(),
{
    let key = level_key(exchange, symbol, ds[i]);
    let front = ds.drop_last();
    if i == ds.len() - 1 {
        let rest = level_points(exchange, symbol, action, front, key);
        if rest.len() > 0 {
            lemma_level_points_origin(exchange, symbol, action, front, key, 0);
            let k = choose|k: int|
                0 <= k < front.len() && level_is_written(action, #[trigger] front[k]) && level_key(
                    exchange,
                    symbol,
                    front[k],
                ) == key && rest[0] == (front[k].timestamp_ms, level_value(action, front[k]));
            assert(ds[k] == front[k]);
        }
        assert(rest.push((ds[i].timestamp_ms, level_value(action, ds[i]))) =~= seq![
            (ds[i].timestamp_ms, level_value(action, ds[i])),
        ]);
    } else {
        assert(front[i] == ds[i]);
        assert forall|j: int|
            0 <= j < front.len() && j != i && level_is_written(
                action,
                #[trigger] front[j],
            ) implies level_key(exchange, symbol, front[j]) != key by {
            assert(front[j] == ds[j]);
        }
        lemma_level_points_single(exchange, symbol, action, front, i);
        assert(ds.last() == ds[ds.len() - 1]);
    }
}

/// Last write wins: after a batch of upserts on one level whose timestamps
/// strictly increase, the newest being positive and no older than any point
/// already in the series, the level reads the newest delta's size.
pub proof fn law_upserts_last_write_wins(
    store: StoreModel,
    exchange: Seq<char>,
    symbol: Seq<char>,
    deltas: Seq<BookDelta>,
)
    requires
        deltas.len() > 0,
        forall|i: int|
            0 <= i < deltas.len() ==> (#[trigger] deltas[i]).side == deltas[0].side
                && deltas[i].price_level@ == deltas[0].price_level@ && deltas[i].size is Some,
        forall|i: int, j: int|
            0 <= i < j < deltas.len() ==> (#[trigger] deltas[i]).timestamp_ms
                < (#[trigger] deltas[j]).timestamp_ms,
        deltas.last().timestamp_ms > 0,
        forall|i: int|
            0 <= i < series_of(store, level_key(exchange, symbol, deltas[0])).len() ==> (
            #[trigger] series_of(store, level_key(exchange, symbol, deltas[0]))[i]).0
                <= deltas.last().timestamp_ms,
    ensures
        read_latest(
            apply_effects(store, book_effects(exchange, symbol, BookAction::Upsert, deltas)),
            level_key(exchange, symbol, deltas[0]),
        ) == Some(deltas.last().size.unwrap()@),
{
    let action = BookAction::Upsert;
    let key = level_key(exchange, symbol, deltas[0]);
    let n = deltas.len();
    let front = deltas.drop_last();
    let last = deltas.last();
    assert(last == deltas[n - 1]);
    lemma_level_series(store, exchange, symbol, action, deltas, key);
    let old_pts = series_of(store, key);
    let pts = level_points(exchange, symbol, action, front, key);
    let p = (last.timestamp_ms, level_value(action, last));
    assert(level_points(exchange, symbol, action, deltas, key) == pts.push(p));
    let before = old_pts + pts;
    assert forall|k: int| 0 <= k < before.len() implies (#[trigger] before[k]).0 <= p.0 by {
        if k >= old_pts.len() {
            lemma_level_points_origin(exchange, symbol, action, front, key, k - old_pts.len());
            let i = choose|i: int|
                0 <= i < front.len() && level_is_written(action, #[trigger] front[i]) && level_key(
                    exchange,
                    symbol,
                    front[i],
                ) == key && pts[k - old_pts.len()] == (
                    front[i].timestamp_ms,
                    level_value(action, front[i]),
                );
            assert(front[i] == deltas[i]);
        }
    }
    lemma_latest_of_newest(before, p);
    assert(old_pts + pts.push(p) =~= before.push(p));
}

/// Upserts and deletes spread over several frames issue the same operations
/// as one batch holding them all, so what holds of a batch holds of a
/// sequence of frames.
pub proof fn law_batches_compose(
    exchange: Seq<char>,
    symbol: Seq<char>,
    action: BookAction,
    a: Seq<BookDelta>,
    b: Seq<BookDelta>,
)
    requires
        action != BookAction::Snapshot,
    ensures
        book_effects(exchange, symbol, action, a + b) == book_effects(exchange, symbol, action, a)
            + book_effects(exchange, symbol, action, b),
    decreases b.len(),
{
    if b.len() == 0 {
        assert(a + b =~= a);
        assert(level_effects(exchange, symbol, action, a) + seq![] =~= level_effects(
            exchange,
            symbol,
            action,
            a,
        ));
    } else {
        assert((a + b).drop_last() =~= a + b.drop_last());
        assert((a + b).last() == b.last());
        law_batches_compose(exchange, symbol, action, a, b.drop_last());
        let ea = level_effects(exchange, symbol, action, a);
        let eb = level_effects(exchange, symbol, action, b.drop_last());
        let e = level_effect(exchange, symbol, action, b.last());
        assert((ea + eb).push(e) =~= ea + eb.push(e));
    }
}

/// Upserts and deletes only append: every series present before a batch is
/// still present after it, and its history of writes before the batch is a
/// prefix of its history after. In particular a delete never removes a
/// series.
pub proof fn law_updates_only_append(
    store: StoreModel,
    exchange: Seq<char>,
    symbol: Seq<char>,
    action: BookAction,
    deltas: Seq<BookDelta>,
)
    requires
        action != BookAction::Snapshot,
    ensures
        forall|k: Seq<char>|
            store.contains_key(k) ==> #[trigger] apply_effects(
                store,
                book_effects(exchange, symbol, action, deltas),
            ).contains_key(k),
        forall|k: Seq<char>|
            series_of(store, k).is_prefix_of(
                #[trigger] series_of(
                    apply_effects(store, book_effects(exchange, symbol, action, deltas)),
                    k,
                ),
            ),
{
    let after = apply_effects(store, book_effects(exchange, symbol, action, deltas));
    assert forall|k: Seq<char>| store.contains_key(k) implies #[trigger] after.contains_key(k) by {
        lemma_level_series(store, exchange, symbol, action, deltas, k);
    }
    assert forall|k: Seq<char>|
        series_of(store, k).is_prefix_of(#[trigger] series_of(after, k)) by {
        lemma_level_series(store, exchange, symbol, action, deltas, k);
        let old_pts = series_of(store, k);
        let pts = level_points(exchange, symbol, action, deltas, k);
        assert((old_pts + pts).subrange(0, old_pts.len() as int) =~= old_pts);
    }
}

/// A snapshot replaces the book. Afterwards a book series of the instrument
/// that no written level of the snapshot addresses reads nothing, and a level
/// that exactly one written level of the snapshot addresses reads that
/// level's size.
pub proof fn law_snapshot_replaces_book(
    store: StoreModel,
    exchange: Seq<char>,
    symbol: Seq<char>,
    deltas: Seq<BookDelta>,
)
    ensures
        forall|key: Seq<char>|
            #![trigger read_latest(apply_effects(store, book_effects(exchange, symbol, BookAction::Snapshot, deltas)), key)]
            book_prefix(exchange, symbol).is_prefix_of(key) && !(exists|i: int|
                0 <= i < deltas.len() && level_is_written(BookAction::Snapshot, #[trigger] deltas[i])
                    && level_key(exchange, symbol, deltas[i]) == key) ==> read_latest(
                apply_effects(store, book_effects(exchange, symbol, BookAction::Snapshot, deltas)),
                key,
            ) is None,
        forall|i: int|
            0 <= i < deltas.len() && level_is_written(BookAction::Snapshot, #[trigger] deltas[i])
                && (forall|j: int|
                0 <= j < deltas.len() && j != i && level_is_written(
                    BookAction::Snapshot,
                    #[trigger] deltas[j],
                ) ==> level_key(exchange, symbol, deltas[j]) != level_key(
                    exchange,
                    symbol,
                    deltas[i],
                )) ==> read_latest(
                apply_effects(store, book_effects(exchange, symbol, BookAction::Snapshot, deltas)),
                level_key(exchange, symbol, deltas[i]),
            ) == Some(deltas[i].size.unwrap()@),
{
    let action = BookAction::Snapshot;
    let prefix = book_prefix(exchange, symbol);
    let clear = seq![Effect::Clear(prefix)];
    let levels = level_effects(exchange, symbol, action, deltas);
    lemma_apply_effects_concat(store, clear, levels);
    assert(clear.drop_last() =~= Seq::<Effect>::empty());
    let cleared = apply_effects(store, clear);
    assert(apply_effects(store, clear.drop_last()) == store);
    assert(clear.last() == Effect::Clear(prefix));
    assert(cleared == apply_effect(store, Effect::Clear(prefix)));
    let after = apply_effects(store, book_effects(exchange, symbol, action, deltas));
    assert forall|key: Seq<char>|
        #![trigger read_latest(after, key)]
        prefix.is_prefix_of(key) && !(exists|i: int|
            0 <= i < deltas.len() && level_is_written(action, #[trigger] deltas[i]) && level_key(
                exchange,
                symbol,
                deltas[i],
            ) == key) implies read_latest(after, key) is None by {
        lemma_level_series(cleared, exchange, symbol, action, deltas, key);
        assert(!cleared.contains_key(key));
        let pts = level_points(exchange, symbol, action, deltas, key);
        if pts.len() > 0 {
            lemma_level_points_origin(exchange, symbol, action, deltas, key, 0);
        }
        assert(series_of(after, key) =~= seq![]);
    }
    assert forall|i: int|
        0 <= i < deltas.len() && level_is_written(action, #[trigger] deltas[i]) && (forall|j: int|
            0 <= j < deltas.len() && j != i && level_is_written(action, #[trigger] deltas[j])
                ==> level_key(exchange, symbol, deltas[j]) != level_key(
                exchange,
                symbol,
                deltas[i],
            )) implies read_latest(after, level_key(exchange, symbol, deltas[i])) == Some(
        deltas[i].size.unwrap()@,
    ) by {
        let key = level_key(exchange, symbol, deltas[i]);
        lemma_level_series(cleared, exchange, symbol, action, deltas, key);
        lemma_level_points_single(exchange, symbol, action, deltas, i);
        assert(prefix.is_prefix_of(key)) by {
            assert(key.subrange(0, prefix.len() as int) =~= prefix);
        }
        assert(!cleared.contains_key(key));
        let p = (deltas[i].timestamp_ms, level_value(action, deltas[i]));
        assert(series_of(after, key) =~= seq![p]);
        lemma_latest_of_newest(seq![], p);
        assert(seq![].push(p) =~= seq![p]);
    }
}

/// A delete never removes a series: every series present before it is still
/// present. A delete of a level, with a positive timestamp no lower than the
/// points already in the level's series, leaves that level reading zero.
pub proof fn law_delete_zeroes_level(
    store: StoreModel,
    exchange: Seq<char>,
    symbol: Seq<char>,
    d: BookDelta,
)
    requires
        d.timestamp_ms > 0,
        forall|i: int|
            0 <= i < series_of(store, level_key(exchange, symbol, d)).len() ==> (
            #[trigger] series_of(store, level_key(exchange, symbol, d))[i]).0 <= d.timestamp_ms,
    ensures
        forall|k: Seq<char>|
            store.contains_key(k) ==> #[trigger] apply_effects(
                store,
                book_effects(exchange, symbol, BookAction::Delete, seq![d]),
            ).contains_key(k),
        read_latest(
            apply_effects(store, book_effects(exchange, symbol, BookAction::Delete, seq![d])),
            level_key(exchange, symbol, d),
        ) == Some(seq!['0']),
{
    let action = BookAction::Delete;
    let ds = seq![d];
    let key = level_key(exchange, symbol, d);
    let after = apply_effects(store, book_effects(exchange, symbol, action, ds));
    assert(ds.drop_last() =~= Seq::<BookDelta>::empty());
    assert(ds.last() == d);
    assert forall|k: Seq<char>| store.contains_key(k) implies #[trigger] after.contains_key(k) by {
        lemma_level_series(store, exchange, symbol, action, ds, k);
    }
    lemma_level_series(store, exchange, symbol, action, ds, key);
    let p = (d.timestamp_ms, level_value(action, d));
    assert(level_points(exchange, symbol, action, ds.drop_last(), key) == Seq::<
        (i64, Seq<char>),
    >::empty());
    assert(level_points(exchange, symbol, action, ds, key) =~= seq![p]);
    lemma_latest_of_newest(series_of(store, key), p);
    assert(series_of(store, key) + seq![p] =~= series_of(store, key).push(p));
}

} // verus!
