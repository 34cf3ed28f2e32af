//! Timestamp model: a UTC instant as whole seconds since the Unix epoch,
//! persisted as an RFC 3339 string.
//!
//! The layer keeps timestamps inside the four-digit-year range, where the
//! RFC 3339 rendering and its parse invert each other exactly.

use vstd::prelude::*;

use crate::item::{sget_s, AttrMap, AttrValV};

verus! {

/// One second past 9999-12-31T23:59:59Z, the end of the four-digit-year range.
pub const MAX_TIMESTAMP_SECS: i64 = 253402300800;

/// A timestamp this layer can store: non-negative and within four-digit years.
pub open spec fn valid_timestamp(secs: int) -> bool {
    0 <= secs < MAX_TIMESTAMP_SECS as int
}

/// The RFC 3339 rendering of a valid timestamp.
pub uninterp spec fn rfc3339_of(secs: int) -> Seq<char>;

/// The timestamp an RFC 3339 string denotes, if it parses.
pub uninterp spec fn rfc3339_parse(s: Seq<char>) -> Option<int>;

/// Relies on chrono's `DateTime::<Utc>::from_timestamp` and `to_rfc3339`: a
/// timestamp within the four-digit-year range renders as an RFC 3339 string,
/// and `DateTime::parse_from_rfc3339` recovers exactly that timestamp from it.
#[verifier::external_body]
pub(crate) fn format_rfc3339(secs: i64) -> (r: String)
    requires
        valid_timestamp(secs as int),
    ensures
        r@ == rfc3339_of(secs as int),
        rfc3339_parse(r@) == Some(secs as int),
{
    chrono::DateTime::<chrono::Utc>::from_timestamp(secs, 0).unwrap().to_rfc3339()
}

/// Relies on chrono's `DateTime::parse_from_rfc3339` and `timestamp`: the
/// result is a function of the string alone.
#[verifier::external_body]
pub(crate) fn parse_rfc3339(s: &str) -> (r: Option<i64>)
    ensures
        match r {
            Some(t) => rfc3339_parse(s@) == Some(t as int),
            None => rfc3339_parse(s@) is None,
        },
{
    match chrono::DateTime::parse_from_rfc3339(s) {
        Ok(dt) => Some(dt.timestamp()),
        Err(_) => None,
    }
}

/// The timestamp a record's attribute `k` denotes. A missing, malformed or
/// out-of-range value degrades to `now` rather than losing the whole record.
pub open spec fn timestamp_attr(m: Seq<(Seq<char>, AttrValV)>, k: Seq<char>, now: int) -> int {
    match sget_s(m, k) {
        Some(s) => match rfc3339_parse(s) {
            Some(t) => if valid_timestamp(t) {
                t
            } else {
                now
            },
            None => now,
        },
        None => now,
    }
}

/// Reads the timestamp attribute named `key`, falling back to `now` when it
/// is missing, malformed or out of range.
pub fn read_timestamp_attr(item: &AttrMap, key: &str, now: i64) -> (r: i64)
    requires
        valid_timestamp(now as int),
    ensures
        r as int == timestamp_attr(item@, key@, now as int),
        valid_timestamp(r as int),
{
    match item.get_s(key) {
        Some(s) => match parse_rfc3339(s.as_str()) {
            Some(t) => if 0 <= t && t < MAX_TIMESTAMP_SECS {
                t
            } else {
                now
            },
            None => now,
        },
        None => now,
    }
}

} // verus!
