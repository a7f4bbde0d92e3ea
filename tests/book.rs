use std::collections::HashMap;

use market_ingest::feed::book_frame_ops;
use market_ingest::normalize::{normalize_level, normalize_levels, WireBookLevel};
use market_ingest::numeric::parse_numeric;
use market_ingest::reconcile::reconcile;
use market_ingest::record::{BookAction, BookDelta, FeedConfig, FeedKind, Side};
use market_ingest::series::{clear_pattern, StoreOp};

type Store = HashMap<String, Vec<(i64, String)>>;

fn cfg(symbol: &str) -> FeedConfig {
    FeedConfig {
        exchange: "BITMEX".to_string(),
        symbol: symbol.to_string(),
        quote_key_kind: FeedKind::Quote,
    }
}

fn delta(side: Side, price: &str, size: Option<&str>, ts: i64) -> BookDelta {
    BookDelta {
        side,
        price_level: parse_numeric(price).unwrap(),
        size: size.map(|s| parse_numeric(s).unwrap()),
        timestamp_ms: ts,
    }
}

fn level(side: &str, price: &str, size: Option<&str>, ts: &str) -> WireBookLevel {
    WireBookLevel {
        side: side.to_string(),
        price: price.to_string(),
        size: size.map(|s| s.to_string()),
        timestamp: ts.to_string(),
    }
}

fn apply(store: &mut Store, ops: &[StoreOp]) {
    for op in ops {
        match op {
            StoreOp::ClearPrefix(p) => store.retain(|k, _| !k.starts_with(p.as_str())),
            StoreOp::Append(pt) => store
                .entry(pt.key.clone())
                .or_default()
                .push((pt.timestamp_ms, pt.value.as_str().to_string())),
        }
    }
}

fn read_latest(store: &Store, key: &str) -> Option<String> {
    let mut best: Option<(i64, String)> = None;
    for (ts, v) in store.get(key)?.iter() {
        if best.as_ref().map_or(true, |(b, _)| *ts >= *b) {
            best = Some((*ts, v.clone()));
        }
    }
    best.map(|(_, v)| v)
}

#[test]
fn partial_frame_clears_book_and_writes_level() {
    let levels = vec![level("Buy", "100", Some("5"), "2024-01-01T00:00:00.000Z")];
    let ops = book_frame_ops(&cfg("X"), "partial", &levels);
    assert_eq!(ops.len(), 2);
    match &ops[0] {
        StoreOp::ClearPrefix(p) => assert_eq!(p, "BITMEX:X:BOOK:"),
        _ => panic!("expected a prefix clear first"),
    }
    match &ops[1] {
        StoreOp::Append(pt) => {
            assert_eq!(pt.key, "BITMEX:X:BOOK:BUY:100");
            assert_eq!(pt.timestamp_ms, 1704067200000);
            assert_eq!(pt.value.as_str(), "5");
        }
        _ => panic!("expected a point"),
    }
}

#[test]
fn snapshot_replaces_previous_levels() {
    let c = cfg("S");
    let mut store = Store::new();
    let old = vec![
        delta(Side::Buy, "99", Some("2"), 10),
        delta(Side::Sell, "102", Some("4"), 10),
        delta(Side::Buy, "100", Some("1"), 10),
    ];
    apply(&mut store, &reconcile(&c, BookAction::Upsert, &old));
    apply(&mut store, &reconcile(&cfg("OTHER"), BookAction::Upsert, &old));
    let snap = vec![delta(Side::Buy, "100", Some("5"), 20), delta(Side::Sell, "101", Some("3"), 20)];
    apply(&mut store, &reconcile(&c, BookAction::Snapshot, &snap));
    assert_eq!(read_latest(&store, "BITMEX:S:BOOK:BUY:100").as_deref(), Some("5"));
    assert_eq!(read_latest(&store, "BITMEX:S:BOOK:SELL:101").as_deref(), Some("3"));
    assert_eq!(read_latest(&store, "BITMEX:S:BOOK:BUY:99"), None);
    assert_eq!(read_latest(&store, "BITMEX:S:BOOK:SELL:102"), None);
    assert_eq!(read_latest(&store, "BITMEX:OTHER:BOOK:BUY:99").as_deref(), Some("2"));
}

#[test]
fn delete_writes_zero_and_keeps_series() {
    let c = cfg("S");
    let mut store = Store::new();
    apply(&mut store, &reconcile(&c, BookAction::Upsert, &vec![delta(Side::Sell, "101.5", Some("3"), 5)]));
    let ops = reconcile(&c, BookAction::Delete, &vec![delta(Side::Sell, "101.5", None, 6)]);
    assert_eq!(ops.len(), 1);
    apply(&mut store, &ops);
    assert_eq!(store["BITMEX:S:BOOK:SELL:101.5"].len(), 2);
    assert_eq!(read_latest(&store, "BITMEX:S:BOOK:SELL:101.5").as_deref(), Some("0"));
}

#[test]
fn upserts_last_write_wins() {
    let c = cfg("S");
    let mut store = Store::new();
    let ds = vec![
        delta(Side::Buy, "100", Some("1"), 1),
        delta(Side::Buy, "100", Some("2"), 2),
        delta(Side::Buy, "100", Some("7"), 3),
    ];
    apply(&mut store, &reconcile(&c, BookAction::Upsert, &ds));
    assert_eq!(read_latest(&store, "BITMEX:S:BOOK:BUY:100").as_deref(), Some("7"));
}

#[test]
fn upsert_without_size_writes_nothing() {
    let ops = reconcile(&cfg("S"), BookAction::Upsert, &vec![delta(Side::Buy, "100", None, 5)]);
    assert!(ops.is_empty());
}

#[test]
fn non_positive_timestamps_are_never_written() {
    let ds = vec![delta(Side::Buy, "100", Some("1"), 0), delta(Side::Buy, "100", Some("1"), -3)];
    assert!(reconcile(&cfg("S"), BookAction::Upsert, &ds).is_empty());
    assert!(reconcile(&cfg("S"), BookAction::Delete, &ds).is_empty());
    let snap = reconcile(&cfg("S"), BookAction::Snapshot, &ds);
    assert_eq!(snap.len(), 1);
}

#[test]
fn book_points_carry_labels() {
    let ops = reconcile(&cfg("S"), BookAction::Upsert, &vec![delta(Side::Sell, "1.50", Some("2"), 9)]);
    match &ops[0] {
        StoreOp::Append(pt) => {
            assert_eq!(pt.key, "BITMEX:S:BOOK:SELL:1.5");
            let labels: Vec<(&str, &str)> =
                pt.labels.iter().map(|l| (l.name.as_str(), l.value.as_str())).collect();
            assert_eq!(
                labels,
                vec![("EXCHANGE", "BITMEX"), ("SIDE", "SELL"), ("SUB", "BOOK"), ("GROUP", "VOL")]
            );
        }
        _ => panic!("expected a point"),
    }
}

#[test]
fn unknown_book_action_writes_nothing() {
    let levels = vec![level("Buy", "100", Some("5"), "2024-01-01T00:00:00.000Z")];
    assert!(book_frame_ops(&cfg("X"), "resync", &levels).is_empty());
}

#[test]
fn delete_frame_zeroes_level() {
    let levels = vec![level("Sell", "101", None, "2024-01-01T00:00:00.000Z")];
    let ops = book_frame_ops(&cfg("X"), "delete", &levels);
    assert_eq!(ops.len(), 1);
    match &ops[0] {
        StoreOp::Append(pt) => {
            assert_eq!(pt.key, "BITMEX:X:BOOK:SELL:101");
            assert_eq!(pt.value.as_str(), "0");
        }
        _ => panic!("expected a point"),
    }
}

#[test]
fn malformed_levels_are_dropped_alone() {
    let levels = vec![
        level("Buy", "abc", Some("5"), "2024-01-01T00:00:00.000Z"),
        level("Hold", "100", Some("5"), "2024-01-01T00:00:00.000Z"),
        level("Sell", "101", Some("x"), "2024-01-01T00:00:00.000Z"),
        level("sell", "102.0", Some("3"), "2024-01-01T00:00:00.000Z"),
    ];
    let ds = normalize_levels(&levels);
    assert_eq!(ds.len(), 1);
    assert_eq!(ds[0].side, Side::Sell);
    assert_eq!(ds[0].price_level.as_str(), "102");
    assert_eq!(ds[0].size.as_ref().unwrap().as_str(), "3");
    assert_eq!(ds[0].timestamp_ms, 1704067200000);
}

#[test]
fn level_with_bad_timestamp_is_kept_but_never_written() {
    let w = level("Buy", "100", Some("5"), "not a time");
    let d = normalize_level(&w).unwrap();
    assert_eq!(d.timestamp_ms, 0);
    assert!(book_frame_ops(&cfg("X"), "update", &vec![w]).is_empty());
}

#[test]
fn clear_pattern_escapes_pattern_characters() {
    assert_eq!(clear_pattern("BITMEX:XBTUSD:BOOK:"), "BITMEX:XBTUSD:BOOK:*");
    assert_eq!(clear_pattern("A*B?[C]\\:"), "A\\*B\\?\\[C\\]\\\\:*");
    assert_eq!(clear_pattern(""), "*");
}

#[test]
fn equal_timestamp_rewrite_wins() {
    let c = cfg("S");
    let mut store = Store::new();
    apply(&mut store, &reconcile(&c, BookAction::Upsert, &vec![delta(Side::Buy, "100", Some("1"), 7)]));
    apply(&mut store, &reconcile(&c, BookAction::Upsert, &vec![delta(Side::Buy, "100", Some("9"), 7)]));
    assert_eq!(read_latest(&store, "BITMEX:S:BOOK:BUY:100").as_deref(), Some("9"));
}

#[test]
fn delete_batch_keeps_every_series() {
    let c = cfg("S");
    let mut store = Store::new();
    let ups = vec![delta(Side::Buy, "100", Some("1"), 5), delta(Side::Sell, "101", Some("2"), 5)];
    apply(&mut store, &reconcile(&c, BookAction::Upsert, &ups));
    let dels = vec![delta(Side::Buy, "100", None, 6), delta(Side::Sell, "101", None, 4)];
    let ops = reconcile(&c, BookAction::Delete, &dels);
    assert!(ops.iter().all(|op| matches!(op, StoreOp::Append(_))));
    apply(&mut store, &ops);
    assert_eq!(store["BITMEX:S:BOOK:BUY:100"], vec![(5, "1".to_string()), (6, "0".to_string())]);
    assert_eq!(store["BITMEX:S:BOOK:SELL:101"], vec![(5, "2".to_string()), (4, "0".to_string())]);
    assert_eq!(read_latest(&store, "BITMEX:S:BOOK:BUY:100").as_deref(), Some("0"));
    assert_eq!(read_latest(&store, "BITMEX:S:BOOK:SELL:101").as_deref(), Some("2"));
}
