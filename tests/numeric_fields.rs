use market_ingest::numeric::{parse_numeric, Decimal, NumericError};
use market_ingest::timestamp::timestamp_ms;

fn canonical(s: &str) -> String {
    parse_numeric(s).unwrap().as_str().to_string()
}

#[test]
fn numeric_drops_trailing_fraction_zeros() {
    assert_eq!(canonical("43244.39000000"), "43244.39");
    assert_eq!(canonical("0.02441000"), "0.02441");
    assert_eq!(canonical("1285.04"), "1285.04");
}

#[test]
fn numeric_whole_numbers_lose_the_dot() {
    assert_eq!(canonical("100.0"), "100");
    assert_eq!(canonical("100.000"), "100");
    assert_eq!(canonical("5"), "5");
    assert_eq!(canonical("0"), "0");
}

#[test]
fn numeric_empty_field() {
    assert_eq!(parse_numeric("").unwrap_err(), NumericError::Empty);
}

#[test]
fn numeric_malformed_fields() {
    for s in ["abc", "1.", ".5", "1.2.3", "-1", "1e5", " 1", "1,5"] {
        assert_eq!(parse_numeric(s).unwrap_err(), NumericError::Malformed, "{}", s);
    }
}

#[test]
fn numeric_zero_and_duplicate() {
    assert_eq!(Decimal::zero().as_str(), "0");
    let d = parse_numeric("7.50").unwrap();
    assert_eq!(d.duplicate().as_str(), "7.5");
}

#[test]
fn timestamp_parses_rfc3339_millis() {
    assert_eq!(timestamp_ms("2024-01-01T00:00:00.000Z"), 1704067200000);
    assert_eq!(timestamp_ms("2024-01-03T00:09:50.444Z"), 1704240590444);
    assert_eq!(timestamp_ms("2024-01-01T01:00:00.000+01:00"), 1704067200000);
}

#[test]
fn timestamp_unparseable_is_zero() {
    assert_eq!(timestamp_ms(""), 0);
    assert_eq!(timestamp_ms("yesterday"), 0);
    assert_eq!(timestamp_ms("2024-01-01 00:00:00"), 0);
}
