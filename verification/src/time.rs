//! Timestamp parsing.
//!
//! Transaction timestamps arrive as RFC 3339 text and are carried as
//! epoch seconds; the conversion is delegated to chrono.

use vstd::prelude::*;

verus! {

/// What chrono's RFC 3339 parse yields, as epoch seconds.
pub uninterp spec fn rfc3339_secs(s: Seq<char>) -> Option<i64>;

/// Relies on chrono's `DateTime::parse_from_rfc3339` (with `timestamp`
/// converting the parsed instant to epoch seconds): the result depends
/// on the characters alone.
#[verifier::external_body]
pub(crate) fn parse_rfc3339_secs(s: &str) -> (r: Option<i64>)
    ensures
        r == rfc3339_secs(s@),
{
    match chrono::DateTime::parse_from_rfc3339(s) {
        Ok(d) => Some(d.timestamp()),
        Err(_) => None,
    }
}

} // verus!
