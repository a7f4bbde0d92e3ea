//! Wire timestamps in the RFC 3339 form that exchanges send
//! (`2024-01-03T00:09:50.444Z`), as milliseconds since the Unix epoch.

use vstd::prelude::*;

verus! {

/// The instant that chrono reads from an RFC 3339 text, in milliseconds since
/// the Unix epoch, or `None` where chrono refuses the text.
pub uninterp spec fn rfc3339_millis(s: Seq<char>) -> Option<i64>;

/// Relies on chrono's `DateTime::parse_from_rfc3339`, and on
/// `DateTime::timestamp_millis` for the instant it returns: the result depends
/// on the text alone, and a text shorter than a full date and time
/// (`YYYY-MM-DDTHH:MM:SS`, 19 characters) is refused.
#[verifier::external_body]
fn parse_rfc3339_millis(s: &str) -> (r: Option<i64>)
    ensures
        r == rfc3339_millis(s@),
        s@.len() < 19 ==> r is None,
{
    match chrono::DateTime::parse_from_rfc3339(s) {
        Ok(t) => Some(t.timestamp_millis()),
        Err(_) => None,
    }
}

/// The timestamp of a wire field: zero, the sentinel for unusable, where the
/// text does not parse.
pub open spec fn wire_timestamp(s: Seq<char>) -> i64 {
    match rfc3339_millis(s) {
        Some(t) => t,
        None => 0,
    }
}

/// Reads a wire timestamp; zero where the text does not parse.
pub fn timestamp_ms(s: &str) -> (r: i64)
    ensures
        r == wire_timestamp(s@),
        s@.len() == 0 ==> r == 0,
{
    match parse_rfc3339_millis(s) {
        Some(t) => t,
        None => 0,
    }
}

} // verus!
