//! Time as the vault sees it: the wall clock, read through `chrono`, and the
//! reading of stored timestamps.
//!
//! The contracts in this file are taken on trust, but for that of
//! [`row_timestamp`]. Each trusted function makes one reading of the clock,
//! or one parse, and hands the result on as a plain value.

use vstd::prelude::*;

verus! {

/// The pattern in which row timestamps are written: date and time to the
/// millisecond, with a literal `Z`.
pub open spec fn row_timestamp_pattern() -> Seq<char> {
    "%Y-%m-%dT%H:%M:%S%.3fZ"@
}

/// The instant that `chrono` reads from an RFC 3339 date-time, as milliseconds
/// since the Unix epoch; `None` for text that it does not accept.
pub uninterp spec fn rfc3339_millis(text: Seq<char>) -> Option<i64>;

/// Calls `chrono::Utc::now` and renders the reading with `DateTime::format`.
///
/// Nothing is claimed of the text: it depends on when the call is made. The
/// pattern is fixed to the one pattern the vault writes, which `chrono`
/// accepts, since rendering an ill-formed pattern panics. `Utc::now` itself
/// panics on a system clock set before 1970.
#[verifier::external_body]
fn now_formatted(pattern: &str) -> (text: String)
    requires
        pattern@ == row_timestamp_pattern(),
{
    chrono::Utc::now().format(pattern).to_string()
}

/// The current time as rows record it. Nothing is known of it but that it is
/// the clock's reading in the pattern of row timestamps.
pub(crate) fn row_timestamp() -> (text: String) {
    now_formatted("%Y-%m-%dT%H:%M:%S%.3fZ")
}

/// Calls `chrono::Utc::now` and renders the reading with
/// `DateTime::to_rfc3339`. Nothing is claimed of the text.
#[verifier::external_body]
pub(crate) fn now_rfc3339() -> (text: String) {
    chrono::Utc::now().to_rfc3339()
}

/// Calls `chrono::Utc::now` and takes `DateTime::timestamp_millis` of the
/// reading. Nothing is claimed of the number.
#[verifier::external_body]
pub(crate) fn now_millis() -> (millis: i64) {
    chrono::Utc::now().timestamp_millis()
}

/// Calls `chrono::DateTime::parse_from_rfc3339` and, where that succeeds,
/// `DateTime::timestamp_millis` on what it returned.
///
/// The contract claims only that the outcome is a function of the text:
/// the same text is always read as the same instant, or always refused.
#[verifier::external_body]
pub(crate) fn parse_rfc3339_millis(text: &str) -> (millis: Option<i64>)
    ensures
        millis == rfc3339_millis(text@),
{
    match chrono::DateTime::parse_from_rfc3339(text) {
        Ok(instant) => Some(instant.timestamp_millis()),
        Err(_) => None,
    }
}

} // verus!
