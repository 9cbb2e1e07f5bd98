//! Instants, and reading them from RFC 3339 text.

use vstd::prelude::*;

verus! {

/// An instant on the UTC time line.
#[derive(Debug, Clone, Copy, PartialEq, Eq, Structural)]
pub struct Timestamp {
    /// Whole non-leap seconds since 1970-01-01T00:00:00Z.
    pub seconds: i64,
    /// Nanoseconds since the last whole second; a leap second counts on
    /// beyond 999,999,999.
    pub nanos: u32,
}

/// `chrono::ParseError`, the refusal of a text by chrono's parsers.  Nothing
/// is read of it.
#[verifier::external_type_specification]
#[verifier::external_body]
pub struct ExParseError(chrono::ParseError);

/// The instant that `chrono::DateTime::parse_from_rfc3339` reads from a text,
/// as seconds and nanoseconds, or `None` where it refuses the text.
pub uninterp spec fn rfc3339_instant(text: Seq<char>) -> Option<(i64, u32)>;

/// Calls `chrono::DateTime::parse_from_rfc3339`, which reads a date, a time
/// and an offset from UTC, and takes the instant read by the result's
/// `timestamp` and `timestamp_subsec_nanos`.  The contract names what comes
/// back, the instant or the refusal, and claims nothing of it but that it
/// depends on the text alone.
#[verifier::external_body]
fn read_rfc3339(text: &str) -> (r: Result<Timestamp, chrono::ParseError>)
    ensures
        match r {
            Ok(t) => rfc3339_instant(text@) == Some((t.seconds, t.nanos)),
            Err(_) => rfc3339_instant(text@) is None,
        },
{
    match chrono::DateTime::parse_from_rfc3339(text) {
        Ok(instant) => Ok(
            Timestamp { seconds: instant.timestamp(), nanos: instant.timestamp_subsec_nanos() },
        ),
        Err(e) => Err(e),
    }
}

impl Timestamp {
    /// Reads an instant from RFC 3339 text, such as `2024-05-01T12:30:00Z`.
    /// Returns `None` where the text is no such instant.
    pub fn parse(text: &str) -> (r: Option<Timestamp>)
        ensures
            r is Some <==> rfc3339_instant(text@) is Some,
            r matches Some(t) ==> rfc3339_instant(text@) == Some((t.seconds, t.nanos)),
    {
        match read_rfc3339(text) {
            Ok(t) => Some(t),
            Err(_) => None,
        }
    }
}

} // verus!
