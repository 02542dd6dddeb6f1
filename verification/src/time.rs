//! Timestamps: a UTC instant as plain numbers, the current time and RFC 3339
//! checks, through `chrono`.

use vstd::prelude::*;

verus! {

/// A UTC instant: whole seconds since the Unix epoch and the nanoseconds
/// within that second (which exceed 999,999,999 only during a leap second),
/// as `chrono::DateTime::timestamp` and `timestamp_subsec_nanos` give them.
#[derive(Debug, Clone, Copy, PartialEq, Eq, Structural)]
pub struct Timestamp {
    /// Seconds since 1970-01-01T00:00:00Z
    pub secs: i64,
    /// Nanoseconds within the second
    pub nanos: u32,
}

impl Timestamp {
    /// The instant, in nanoseconds since the epoch.
    pub open spec fn total_nanos(self) -> int {
        self.secs * 1_000_000_000 + self.nanos
    }

    /// The current time.
    pub fn now() -> (r: Timestamp)
        ensures
            r.nanos < 2_000_000_000,
    {
        let (secs, nanos) = utc_now_parts();
        Timestamp { secs, nanos }
    }

    /// The instant as RFC 3339 text.
    pub fn to_rfc3339(&self) -> (r: String)
        ensures
            r@ == rfc3339_text(self.secs, self.nanos),
    {
        instant_text(self.secs, self.nanos)
    }

    /// Whether `self` comes strictly after `other`.
    pub fn is_after(&self, other: &Timestamp) -> (r: bool)
        ensures
            r == (self.secs > other.secs || (self.secs == other.secs && self.nanos > other.nanos)),
    {
        self.secs > other.secs || (self.secs == other.secs && self.nanos > other.nanos)
    }
}

/// The RFC 3339 text of the UTC instant `secs` seconds and `nanos`
/// nanoseconds after the epoch, as chrono writes it; empty when chrono
/// cannot represent the instant.
pub uninterp spec fn rfc3339_text(secs: i64, nanos: u32) -> Seq<char>;

/// `chrono::DateTime::from_timestamp` followed by `DateTime::to_rfc3339`;
/// the empty text where the first gives no instant. The result is named
/// `rfc3339_text`.
#[verifier::external_body]
fn instant_text(secs: i64, nanos: u32) -> (r: String)
    ensures
        r@ == rfc3339_text(secs, nanos),
{
    match chrono::DateTime::from_timestamp(secs, nanos) {
        Some(d) => d.to_rfc3339(),
        None => String::new(),
    }
}

/// Whether `chrono::DateTime::parse_from_rfc3339` accepts `text`.
pub uninterp spec fn rfc3339_accepts(text: Seq<char>) -> bool;

/// `chrono::Utc::now` followed by `timestamp` and `timestamp_subsec_nanos`:
/// the current time as seconds and nanoseconds; the nanoseconds are below
/// 2,000,000,000 (chrono's documented range). Nothing else is promised.
#[verifier::external_body]
fn utc_now_parts() -> (r: (i64, u32))
    ensures
        r.1 < 2_000_000_000,
{
    let now = chrono::Utc::now();
    (now.timestamp(), now.timestamp_subsec_nanos())
}

/// `chrono::DateTime::parse_from_rfc3339`, keeping only whether it
/// succeeded. The result is named `rfc3339_accepts`.
#[verifier::external_body]
pub(crate) fn is_rfc3339(text: &str) -> (r: bool)
    ensures
        r == rfc3339_accepts(text@),
{
    chrono::DateTime::parse_from_rfc3339(text).is_ok()
}

} // verus!
