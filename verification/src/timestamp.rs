//! Instants in UTC and their canonical text form.

use vstd::prelude::*;
use crate::text::opt_text;

verus! {

/// An instant in UTC: whole seconds since 1970-01-01T00:00:00Z and the
/// nanoseconds past that second.
#[derive(Debug, Clone, Copy, PartialEq, Eq, Structural)]
pub struct Timestamp {
    pub secs: i64,
    pub nanos: u32,
}

/// The instant that an RFC 3339 text denotes, as `chrono` reads it;
/// `None` where `chrono` rejects the text.
pub uninterp spec fn rfc3339_instant(text: Seq<char>) -> Option<Timestamp>;

/// The RFC 3339 text that `chrono` writes for an instant; `None` where the
/// instant is outside the range of dates that `chrono` represents.
pub uninterp spec fn rfc3339_text(secs: int, nanos: int) -> Option<Seq<char>>;

/// Calls `chrono::DateTime::parse_from_rfc3339` and reads the result's
/// `timestamp` and `timestamp_subsec_nanos`. Claimed: the outcome is a
/// function of the text alone, named `rfc3339_instant`.
#[verifier::external_body]
fn parse_rfc3339(text: &str) -> (r: Option<Timestamp>)
    ensures
        r == rfc3339_instant(text@),
{
    chrono::DateTime::parse_from_rfc3339(text).ok().map(
        |t| Timestamp { secs: t.timestamp(), nanos: t.timestamp_subsec_nanos() },
    )
}

/// Calls `chrono::DateTime::from_timestamp` and, where that gives a date,
/// `to_rfc3339` on it. Claimed: the outcome is a function of the two
/// numbers alone, named `rfc3339_text`.
#[verifier::external_body]
fn format_rfc3339(t: Timestamp) -> (r: Option<String>)
    ensures
        opt_text(r) == rfc3339_text(t.secs as int, t.nanos as int),
{
    chrono::DateTime::from_timestamp(t.secs, t.nanos).map(|d| d.to_rfc3339())
}

/// Reads the system clock with `std::time::SystemTime::now` and
/// `duration_since` the Unix epoch, hands the seconds and nanoseconds to
/// `chrono::DateTime::from_timestamp`, and reads the date's `timestamp`
/// and `timestamp_subsec_nanos`. `None` where the clock stands before
/// 1970 or `chrono` has no date for the reading. Claimed: an instant that
/// comes back can be written as text, since it was read off a date that
/// `from_timestamp` gave, and `chrono` documents that `from_timestamp`
/// accepts what these two accessors return.
#[verifier::external_body]
fn current_instant() -> (r: Option<Timestamp>)
    ensures
        r matches Some(t) ==> rfc3339_text(t.secs as int, t.nanos as int) is Some,
{
    let d = std::time::SystemTime::now().duration_since(std::time::UNIX_EPOCH).ok()?;
    let t = chrono::DateTime::from_timestamp(i64::try_from(d.as_secs()).ok()?, d.subsec_nanos())?;
    Some(Timestamp { secs: t.timestamp(), nanos: t.timestamp_subsec_nanos() })
}

impl Timestamp {
    /// The instant that `text` denotes, or `fallback` where the text cannot
    /// be read; the flag tells that the fallback was taken.
    pub open spec fn lenient(text: Seq<char>, fallback: Timestamp) -> (Timestamp, bool) {
        match rfc3339_instant(text) {
            Some(t) => (t, false),
            None => (fallback, true),
        }
    }

    /// Reads a stored timestamp. A text that cannot be read gives `None`.
    pub fn parse(text: &str) -> (r: Option<Timestamp>)
        ensures
            r == rfc3339_instant(text@),
    {
        parse_rfc3339(text)
    }

    /// Reads a stored timestamp without failing: a text that cannot be read
    /// degrades to `fallback`, and the flag says so.
    pub fn parse_lenient(text: &str, fallback: Timestamp) -> (r: (Timestamp, bool))
        ensures
            r == Timestamp::lenient(text@, fallback),
    {
        match parse_rfc3339(text) {
            Some(t) => (t, false),
            None => (fallback, true),
        }
    }

    /// The canonical text of this instant, or `None` where it lies outside
    /// the dates that can be written.
    pub fn to_text(&self) -> (r: Option<String>)
        ensures
            opt_text(r) == rfc3339_text(self.secs as int, self.nanos as int),
    {
        format_rfc3339(*self)
    }

    /// The current instant, or `None` where the clock gives none. An
    /// instant that comes back can be written as text.
    pub fn now() -> (r: Option<Timestamp>)
        ensures
            r matches Some(t) ==> rfc3339_text(t.secs as int, t.nanos as int) is Some,
    {
        current_instant()
    }
}

} // verus!
