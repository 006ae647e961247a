//! Instants as plain values, and the calendar text that chrono gives them.

use std::fmt::Write;
use vstd::prelude::*;

verus! {

/// An instant: whole seconds since the Unix epoch (UTC) and the
/// nanoseconds past that second.
#[derive(Clone, Copy, Debug, PartialEq, Eq, Structural)]
pub struct Timestamp {
    pub secs: i64,
    pub nanos: u32,
}

/// The RFC 3339 text that chrono writes for an instant (empty where chrono
/// cannot represent the instant).
pub uninterp spec fn rfc3339_text(secs: i64, nanos: u32) -> Seq<char>;

/// The text that chrono's `format` writes for the UTC instant `secs` with a
/// strftime-style `pattern` (empty where chrono cannot represent the instant
/// or the pattern is malformed).
pub uninterp spec fn utc_format_text(secs: i64, pattern: Seq<char>) -> Seq<char>;

/// Relies on `chrono::Utc::now`: the current time. chrono builds it from the
/// time elapsed since the Unix epoch, so the seconds are not negative and the
/// nanoseconds are below one second. It panics if the system clock reads
/// earlier than the epoch.
#[verifier::external_body]
fn clock_now() -> (r: Timestamp)
    ensures
        r.secs >= 0,
        r.nanos < 1_000_000_000,
{
    let t = chrono::Utc::now();
    Timestamp { secs: t.timestamp(), nanos: t.timestamp_subsec_nanos() }
}

/// The current time.
pub fn now() -> (r: Timestamp)
    ensures
        r.secs >= 0,
        r.nanos < 1_000_000_000,
{
    clock_now()
}

/// Relies on `chrono::DateTime::from_timestamp` and `to_rfc3339`: the RFC 3339
/// text of the instant, which depends on the instant alone.
#[verifier::external_body]
pub(crate) fn rfc3339_string(t: Timestamp) -> (r: String)
    ensures
        r@ == rfc3339_text(t.secs, t.nanos),
{
    chrono::DateTime::from_timestamp(t.secs, t.nanos).map(|d| d.to_rfc3339()).unwrap_or_default()
}

/// Relies on `chrono::DateTime::from_timestamp` and `format`: the instant
/// written after a strftime-style pattern, which depends on the two alone.
/// A pattern that chrono cannot write gives the text written so far.
#[verifier::external_body]
pub(crate) fn utc_format(secs: i64, pattern: &str) -> (r: String)
    ensures
        r@ == utc_format_text(secs, pattern@),
{
    let mut s = String::new();
    if let Some(d) = chrono::DateTime::from_timestamp(secs, 0) {
        let _ = write!(s, "{}", d.format(pattern));
    }
    s
}

} // verus!
