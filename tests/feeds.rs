use market_ingest::feed::{quote_frame_ops, quote_message_ops, trade_frame_ops};
use market_ingest::normalize::{normalize_trade, parse_book_action, parse_side, WireQuote, WireTrade};
use market_ingest::record::{BookAction, FeedConfig, Side};
use market_ingest::series::{
    book_prefix_text, series_key_text, series_options, DuplicatePolicy, StoreOp, RETENTION_MS,
};
use market_ingest::record::FeedKind;

fn cfg() -> FeedConfig {
    FeedConfig {
        exchange: "BINANCE".to_string(),
        symbol: "XBTUSD".to_string(),
        quote_key_kind: FeedKind::Quote,
    }
}

fn points(ops: &[StoreOp]) -> Vec<(String, i64, String)> {
    ops.iter()
        .map(|op| match op {
            StoreOp::Append(p) => (p.key.clone(), p.timestamp_ms, p.value.as_str().to_string()),
            StoreOp::ClearPrefix(_) => panic!("no clear expected"),
        })
        .collect()
}

fn trade(side: &str, price: &str, size: &str, ts: &str) -> WireTrade {
    WireTrade { side: side.into(), price: price.into(), size: size.into(), timestamp: ts.into() }
}

fn quote() -> WireQuote {
    WireQuote {
        bid_price: "43244.39000000".into(),
        bid_size: "0.02441000".into(),
        ask_price: "43244.40000000".into(),
        ask_size: "1.5".into(),
    }
}

#[test]
fn sides_in_any_case() {
    assert_eq!(parse_side("Buy"), Some(Side::Buy));
    assert_eq!(parse_side("BUY"), Some(Side::Buy));
    assert_eq!(parse_side("sell"), Some(Side::Sell));
    assert_eq!(parse_side("Sell"), Some(Side::Sell));
    assert_eq!(parse_side("hold"), None);
    assert_eq!(parse_side(""), None);
}

#[test]
fn book_actions() {
    assert_eq!(parse_book_action("partial"), Some(BookAction::Snapshot));
    assert_eq!(parse_book_action("insert"), Some(BookAction::Upsert));
    assert_eq!(parse_book_action("update"), Some(BookAction::Upsert));
    assert_eq!(parse_book_action("delete"), Some(BookAction::Delete));
    assert_eq!(parse_book_action("Partial"), None);
    assert_eq!(parse_book_action(""), None);
}

#[test]
fn key_scheme() {
    assert_eq!(series_key_text(&cfg(), FeedKind::Quote, Side::Buy, "PRICE"), "BINANCE:XBTUSD:QUOTE:BUY:PRICE");
    assert_eq!(book_prefix_text(&cfg()), "BINANCE:XBTUSD:BOOK:");
    assert_eq!(RETENTION_MS, 86_400_000);
}

#[test]
fn quote_becomes_four_points() {
    let ops = quote_message_ops(&cfg(), &quote(), 1708270510698);
    assert_eq!(
        points(&ops),
        vec![
            ("BINANCE:XBTUSD:QUOTE:BUY:PRICE".to_string(), 1708270510698, "43244.39".to_string()),
            ("BINANCE:XBTUSD:QUOTE:BUY:VOL".to_string(), 1708270510698, "0.02441".to_string()),
            ("BINANCE:XBTUSD:QUOTE:SELL:PRICE".to_string(), 1708270510698, "43244.4".to_string()),
            ("BINANCE:XBTUSD:QUOTE:SELL:VOL".to_string(), 1708270510698, "1.5".to_string()),
        ]
    );
    match &ops[3] {
        StoreOp::Append(p) => {
            let labels: Vec<(&str, &str)> =
                p.labels.iter().map(|l| (l.name.as_str(), l.value.as_str())).collect();
            assert_eq!(labels, vec![("EXCHANGE", "BINANCE"), ("SIDE", "SELL"), ("SUB", "QUOTE"), ("GROUP", "VOL")]);
        }
        _ => panic!("expected a point"),
    }
}

#[test]
fn malformed_quote_writes_nothing() {
    let mut q = quote();
    q.ask_size = "n/a".into();
    assert!(quote_message_ops(&cfg(), &q, 1708270510698).is_empty());
    assert!(quote_message_ops(&cfg(), &quote(), 0).is_empty());
}

#[test]
fn quote_table_frames() {
    let qs = vec![quote(), quote()];
    assert_eq!(quote_frame_ops(&cfg(), "insert", &qs, 5).len(), 8);
    assert!(quote_frame_ops(&cfg(), "delete", &qs, 5).is_empty());
    assert!(quote_frame_ops(&cfg(), "other", &qs, 5).is_empty());
}

#[test]
fn trade_becomes_price_and_volume() {
    let ts = vec![trade("Sell", "42000.50", "3000", "2024-01-03T00:09:50.444Z")];
    let ops = trade_frame_ops(&cfg(), "insert", &ts);
    assert_eq!(
        points(&ops),
        vec![
            ("BINANCE:XBTUSD:TRADE:SELL:PRICE".to_string(), 1704240590444, "42000.5".to_string()),
            ("BINANCE:XBTUSD:TRADE:SELL:VOL".to_string(), 1704240590444, "3000".to_string()),
        ]
    );
}

#[test]
fn trade_with_unparseable_time_is_never_written() {
    let w = trade("Buy", "100", "1", "03/01/2024 00:09");
    assert!(normalize_trade(&w).is_none());
    assert!(trade_frame_ops(&cfg(), "insert", &vec![w]).is_empty());
}

#[test]
fn trade_frames_by_action() {
    let ts = vec![
        trade("Buy", "100", "1", "2024-01-03T00:09:50.444Z"),
        trade("Buy", "bad", "1", "2024-01-03T00:09:50.444Z"),
        trade("Sell", "101", "2", "2024-01-03T00:09:51.000Z"),
    ];
    assert_eq!(trade_frame_ops(&cfg(), "partial", &ts).len(), 4);
    assert_eq!(trade_frame_ops(&cfg(), "update", &ts).len(), 4);
    assert!(trade_frame_ops(&cfg(), "delete", &ts).is_empty());
    assert!(trade_frame_ops(&cfg(), "unknown", &ts).is_empty());
}

#[test]
fn quotes_keyed_under_configured_kind() {
    let coinbase = FeedConfig {
        exchange: "COINBASE".to_string(),
        symbol: "XBTUSD".to_string(),
        quote_key_kind: FeedKind::Trade,
    };
    let w = WireQuote {
        bid_price: "1285.04".into(),
        bid_size: "0.46688654".into(),
        ask_price: "1285.27".into(),
        ask_size: "1.56637040".into(),
    };
    let ops = quote_message_ops(&coinbase, &w, 1666222102061);
    assert_eq!(
        points(&ops),
        vec![
            ("COINBASE:XBTUSD:TRADE:BUY:PRICE".to_string(), 1666222102061, "1285.04".to_string()),
            ("COINBASE:XBTUSD:TRADE:BUY:VOL".to_string(), 1666222102061, "0.46688654".to_string()),
            ("COINBASE:XBTUSD:TRADE:SELL:PRICE".to_string(), 1666222102061, "1285.27".to_string()),
            ("COINBASE:XBTUSD:TRADE:SELL:VOL".to_string(), 1666222102061, "1.5663704".to_string()),
        ]
    );
    for op in &ops {
        match op {
            StoreOp::Append(p) => {
                let sub = p.labels.iter().find(|l| l.name == "SUB").unwrap();
                assert_eq!(sub.value, "QUOTE");
            }
            StoreOp::ClearPrefix(_) => panic!("no clear expected"),
        }
    }
}

#[test]
fn series_are_kept_a_day_last_write_wins() {
    let o = series_options();
    assert_eq!(o.retention_ms, 86_400_000);
    assert_eq!(o.retention_ms, RETENTION_MS);
    assert_eq!(o.duplicate_policy, DuplicatePolicy::Last);
}
