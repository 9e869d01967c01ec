//! Timestamp validation and local-time formatting, through chrono.
//!
//! A record's timestamp arrives as text with a fixed UTC offset.  Whether
//! it parses is a pure function of the characters; what the local
//! rendering looks like depends on the machine's time zone, so nothing is
//! promised of that text.

use vstd::prelude::*;

verus! {

/// Whether a timestamp text parses as a point in time with a fixed UTC
/// offset.
pub uninterp spec fn ts_parses(s: Seq<char>) -> bool;

/// Relies on chrono's `FromStr` for `DateTime<FixedOffset>` (RFC 3339,
/// extended to ISO 8601 years): whether a timestamp parses depends on
/// the characters alone.
#[verifier::external_body]
pub fn timestamp_valid(s: &str) -> (r: bool)
    ensures
        r == ts_parses(s@),
{
    s.parse::<chrono::DateTime<chrono::FixedOffset>>().is_ok()
}

/// Relies on chrono's `FromStr` for `DateTime<FixedOffset>` and on
/// `DateTime::with_timezone` plus `format`: converts a parsed timestamp
/// to the machine's local wall-clock time and formats it with
/// microsecond precision and the zone name.  The resulting text depends
/// on the machine's time zone, so nothing is stated of it; success
/// depends on the characters alone.
#[verifier::external_body]
pub fn format_local_timestamp(s: &str) -> (r: Option<String>)
    ensures
        r is Some <==> ts_parses(s@),
{
    match s.parse::<chrono::DateTime<chrono::FixedOffset>>() {
        Ok(dt) => Some(dt.with_timezone(&chrono::Local).format("%Y-%m-%d %H:%M:%S.%6f%Z").to_string()),
        Err(_) => None,
    }
}

} // verus!
