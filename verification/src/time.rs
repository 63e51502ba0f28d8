//! Instants in time, stored with millisecond precision.
//!
//! A feed item's publication date is compared as a timezone-normalized
//! instant, never as text: two dates written with different offsets but
//! denoting the same moment compare equal. The engine therefore keeps an
//! instant as the count of milliseconds since the Unix epoch, and leaves
//! the parsing of calendar dates to `chrono` behind trusted wrappers.

use vstd::prelude::*;

verus! {

/// An instant: milliseconds since the Unix epoch, timezone-normalized.
#[derive(Clone, Copy, Debug, PartialEq, Eq, Structural)]
pub struct Timestamp {
    pub millis: i64,
}

impl View for Timestamp {
    type V = int;

    open spec fn view(&self) -> int {
        self.millis as int
    }
}

impl Timestamp {
    /// The instant a given number of milliseconds after the Unix epoch.
    pub fn from_millis(millis: i64) -> (r: Timestamp)
        ensures
            r@ == millis as int,
    {
        Timestamp { millis }
    }

    /// Milliseconds since the Unix epoch.
    pub fn as_millis(&self) -> (r: i64)
        ensures
            r as int == self@,
    {
        self.millis
    }

    /// Whether this instant lies strictly before `other`.
    pub fn lt(&self, other: &Timestamp) -> (r: bool)
        ensures
            r == (self@ < other@),
    {
        self.millis < other.millis
    }

    /// Whether this instant lies strictly after `other`.
    pub fn gt(&self, other: &Timestamp) -> (r: bool)
        ensures
            r == (self@ > other@),
    {
        self.millis > other.millis
    }
}

/// The instant denoted by an RFC 3339 date-and-time text, in milliseconds
/// since the Unix epoch, or `None` where the text is not a valid RFC 3339
/// date; the result depends on the text alone.
pub uninterp spec fn rfc3339_instant(s: Seq<char>) -> Option<int>;

/// The instant denoted by an RFC 2822 date-and-time text, in milliseconds
/// since the Unix epoch, or `None` where the text is not a valid RFC 2822
/// date; the result depends on the text alone.
pub uninterp spec fn rfc2822_instant(s: Seq<char>) -> Option<int>;

/// Relies on `chrono::DateTime::parse_from_rfc3339` and
/// `chrono::DateTime::timestamp_millis`: the parsed instant is a function of
/// the text alone, normalized to milliseconds since the Unix epoch.
#[verifier::external_body]
pub fn parse_rfc3339(s: &str) -> (r: Option<Timestamp>)
    ensures
        r is Some <==> rfc3339_instant(s@) is Some,
        r is Some ==> r->0@ == rfc3339_instant(s@)->0,
{
    match chrono::DateTime::parse_from_rfc3339(s) {
        Ok(dt) => Some(Timestamp { millis: dt.timestamp_millis() }),
        Err(_) => None,
    }
}

/// Relies on `chrono::DateTime::parse_from_rfc2822` and
/// `chrono::DateTime::timestamp_millis`: the parsed instant is a function of
/// the text alone, normalized to milliseconds since the Unix epoch.
#[verifier::external_body]
pub fn parse_rfc2822(s: &str) -> (r: Option<Timestamp>)
    ensures
        r is Some <==> rfc2822_instant(s@) is Some,
        r is Some ==> r->0@ == rfc2822_instant(s@)->0,
{
    match chrono::DateTime::parse_from_rfc2822(s) {
        Ok(dt) => Some(Timestamp { millis: dt.timestamp_millis() }),
        Err(_) => None,
    }
}

/// Relies on `chrono::Local::now`: nothing is promised of the clock reading.
#[verifier::external_body]
pub fn now() -> Timestamp {
    Timestamp { millis: chrono::Local::now().timestamp_millis() }
}

} // verus!
