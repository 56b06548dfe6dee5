//! Instants as the service reads them: nanoseconds since the Unix epoch and
//! the UTC offset they were written with.
use vstd::prelude::*;

verus! {

/// Nanoseconds in one second.
pub const NANOS_PER_SECOND: i128 = 1_000_000_000;

/// A point in time: nanoseconds since 1970-01-01T00:00:00Z, and the offset
/// from UTC (in seconds) of the calendar time it was given in.
#[derive(Debug, Clone, Copy, PartialEq, Eq, Structural)]
pub struct Timestamp {
    pub unix_nanos: i128,
    pub utc_offset_seconds: i32,
}

impl Timestamp {
    /// The instant `unix_nanos` after the epoch, written in UTC.
    pub fn utc(unix_nanos: i128) -> (t: Timestamp)
        ensures
            t.unix_nanos == unix_nanos,
            t.utc_offset_seconds == 0,
    {
        Timestamp { unix_nanos, utc_offset_seconds: 0 }
    }
}

/// The instant `minutes` minutes after `t`, in the same offset.
pub fn plus_minutes(t: Timestamp, minutes: i64) -> (later: Timestamp)
    requires
        i128::MIN <= t.unix_nanos + minutes * 60 * NANOS_PER_SECOND <= i128::MAX,
    ensures
        later.unix_nanos == t.unix_nanos + minutes * 60 * NANOS_PER_SECOND,
        later.utc_offset_seconds == t.utc_offset_seconds,
{
    let step: i128 = minutes as i128 * 60_000_000_000;
    Timestamp { unix_nanos: t.unix_nanos + step, utc_offset_seconds: t.utc_offset_seconds }
}

/// What `time` reads from an RFC 3339 timestamp: the instant in nanoseconds
/// since the epoch and the offset in seconds, or nothing when the text is not
/// an RFC 3339 timestamp.
pub uninterp spec fn rfc3339_instant(text: Seq<char>) -> Option<(i128, i32)>;

/// The timestamp that `text` writes in RFC 3339 form, if it is one.
pub open spec fn rfc3339_timestamp(text: Seq<char>) -> Option<Timestamp> {
    match rfc3339_instant(text) {
        Some((unix_nanos, utc_offset_seconds)) => Some(Timestamp { unix_nanos, utc_offset_seconds }),
        None => None,
    }
}

/// The timestamp that `text` writes in RFC 3339 form, if it is one.
///
/// Trusted: calls `time::OffsetDateTime::parse` with the RFC 3339 format and
/// reads `unix_timestamp_nanos` and the offset's `whole_seconds`. The contract
/// names that reading `rfc3339_instant` and says nothing of which texts it
/// accepts.
#[verifier::external_body]
pub fn parse_rfc3339(text: &str) -> (instant: Option<Timestamp>)
    ensures
        instant == (match rfc3339_instant(text@) {
            Some((unix_nanos, utc_offset_seconds)) => Some(Timestamp { unix_nanos, utc_offset_seconds }),
            None => None,
        }),
{
    match time::OffsetDateTime::parse(text, &time::format_description::well_known::Rfc3339) {
        Ok(t) => Some(Timestamp { unix_nanos: t.unix_timestamp_nanos(), utc_offset_seconds: t.offset().whole_seconds() }),
        Err(_) => None,
    }
}

} // verus!
