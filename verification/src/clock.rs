//! Identifiers and time stamps from the outside world.

use vstd::prelude::*;

verus! {

/// A fresh random identifier.
///
/// Calls `uuid::Uuid::new_v4` and returns the identifier as its 128-bit
/// value (`Uuid::as_u128`). The value is random, so nothing is stated of it.
#[verifier::external_body]
pub(crate) fn new_uuid() -> (id: u128) {
    uuid::Uuid::new_v4().as_u128()
}

/// The current time in milliseconds since the Unix epoch.
///
/// Calls `chrono::Utc::now` and reads `timestamp_millis`. The value depends
/// on the clock, so nothing is stated of it.
#[verifier::external_body]
pub(crate) fn now_millis() -> (t: i64) {
    chrono::Utc::now().timestamp_millis()
}

/// The current time in whole seconds since the Unix epoch.
///
/// Calls `chrono::Utc::now` and reads `timestamp`. The value depends on the
/// clock, so nothing is stated of it.
#[verifier::external_body]
pub(crate) fn now_seconds() -> (t: i64) {
    chrono::Utc::now().timestamp()
}

/// The text of a 128-bit ID in the hyphenated UUID form.
pub uninterp spec fn uuid_text(id: u128) -> Seq<char>;

/// Formats an ID the way `uuid::Uuid`'s `Display` does (hyphenated
/// lowercase hexadecimal). The contract claims only that the text depends
/// on the ID alone.
#[verifier::external_body]
pub(crate) fn uuid_string(id: u128) -> (s: String)
    ensures
        s@ == uuid_text(id),
{
    uuid::Uuid::from_u128(id).to_string()
}

/// The 128-bit value of the UUID written in `s`, where `uuid::Uuid::parse_str`
/// accepts it.
pub uninterp spec fn uuid_parsed(s: Seq<char>) -> Option<u128>;

/// Parses a UUID with `uuid::Uuid::parse_str` and returns its 128-bit value
/// (`Uuid::as_u128`), or `None` where the text is refused. The contract
/// claims only that the answer depends on the text alone.
#[verifier::external_body]
pub(crate) fn parse_uuid(s: &str) -> (r: Option<u128>)
    ensures
        r == uuid_parsed(s@),
{
    match uuid::Uuid::parse_str(s) {
        Ok(u) => Some(u.as_u128()),
        Err(_) => None,
    }
}

/// Whether `chrono::DateTime::from_timestamp` accepts a time of `secs`
/// whole seconds since the epoch.
pub uninterp spec fn seconds_in_range(secs: i64) -> bool;

/// The time of `secs` whole seconds since the epoch in milliseconds, where
/// `chrono::DateTime::from_timestamp(secs, 0)` accepts it, read with
/// `timestamp_millis`. The contract claims that whether a time comes back
/// depends on `secs` alone, and that it is `secs` thousand milliseconds
/// (chrono documents that `from_timestamp` round-trips with `timestamp`,
/// and the nanosecond part given is zero).
#[verifier::external_body]
pub(crate) fn seconds_to_millis(secs: i64) -> (r: Option<i64>)
    ensures
        r is Some <==> seconds_in_range(secs),
        r matches Some(ms) ==> ms == secs * 1000,
{
    match chrono::DateTime::from_timestamp(secs, 0) {
        Some(d) => Some(d.timestamp_millis()),
        None => None,
    }
}

/// Whether a time in milliseconds since the epoch is one that
/// `chrono::DateTime::from_timestamp_millis` accepts.
pub uninterp spec fn timestamp_in_range(ms: i64) -> bool;

/// Whether `chrono::DateTime::from_timestamp_millis` gives a time for
/// `ms`. The contract claims only that the answer depends on `ms` alone.
#[verifier::external_body]
pub(crate) fn millis_in_range(ms: i64) -> (b: bool)
    ensures
        b == timestamp_in_range(ms),
{
    chrono::DateTime::from_timestamp_millis(ms).is_some()
}

} // verus!
