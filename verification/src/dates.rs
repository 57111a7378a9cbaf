//! Reading an RFC 3339 timestamp text as an instant.

use vstd::prelude::*;

verus! {

/// The instant, in microseconds since the Unix epoch, that an RFC 3339
/// date-and-time text denotes; `None` where the text is not a valid RFC 3339
/// date-and-time.
pub uninterp spec fn rfc3339_instant(s: Seq<char>) -> Option<i64>;

/// Relies on chrono's `DateTime::parse_from_rfc3339`, which parses exactly
/// the valid RFC 3339 date-and-time texts, and on `DateTime::timestamp_micros`
/// to read the parsed instant out as a plain value; both depend on the input
/// text alone.
#[verifier::external_body]
pub(crate) fn parse_rfc3339_micros(s: &str) -> (r: Option<i64>)
    ensures
        r == rfc3339_instant(s@),
{
    match chrono::DateTime::parse_from_rfc3339(s) {
        Ok(dt) => Some(dt.timestamp_micros()),
        Err(_) => None,
    }
}

} // verus!
