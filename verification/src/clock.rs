//! Trusted access to wall-clock time and timestamp parsing, through
//! chrono. Whatever depends on the current time promises nothing of its
//! value; parsing is named and consumed by verified code.

use vstd::prelude::*;

verus! {

/// What chrono's RFC 3339 parser yields for a text, as seconds since the
/// Unix epoch; `None` when the text does not parse.
pub uninterp spec fn rfc3339_epoch_seconds(s: Seq<char>) -> Option<i64>;

/// Relies on chrono's `DateTime::parse_from_rfc3339` and
/// `DateTime::timestamp`: the result depends on the text alone.
#[verifier::external_body]
pub fn parse_rfc3339_epoch(s: &str) -> (r: Option<i64>)
    ensures
        r == rfc3339_epoch_seconds(s@),
{
    chrono::DateTime::parse_from_rfc3339(s).ok().map(|dt| dt.timestamp())
}

/// Relies on chrono's `Local::now` and `DateTime::timestamp_nanos_opt`:
/// a wall-clock reading; nothing is promised of its value.
#[verifier::external_body]
pub fn now_unix_nanos() -> (r: i64) {
    chrono::Local::now().timestamp_nanos_opt().unwrap_or(0)
}

/// Relies on chrono's `Local::now` and its `%H:%M` formatting: the
/// current wall-clock hour and minute, two digits each around a colon.
#[verifier::external_body]
pub fn now_clock_label() -> (r: String)
    ensures
        r@.len() == 5,
{
    chrono::Local::now().format("%H:%M").to_string()
}

} // verus!
