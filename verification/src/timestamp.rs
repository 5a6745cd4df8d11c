//! Instants in time, as the listing endpoint reports them.

use vstd::prelude::*;

verus! {

/// An instant on the UTC time line.
#[derive(Debug, Clone, Copy, PartialEq, Eq)]
pub struct Timestamp {
    /// Whole non-leap seconds since 1970-01-01T00:00:00Z.
    pub seconds: i64,
    /// Nanoseconds since the last second boundary. During a leap second this
    /// exceeds 999,999,999.
    pub nanos: u32,
}

/// The instant that an RFC 3339 date-time text denotes, or `None` where the
/// text is not such a date-time.
pub uninterp spec fn timestamp_of(text: Seq<char>) -> Option<Timestamp>;

/// `<chrono::DateTime<chrono::Utc> as FromStr>::from_str`, read out with
/// `DateTime::timestamp` and `DateTime::timestamp_subsec_nanos`.
///
/// Trusted: the parser accepts exactly the date-time texts, and the two
/// numbers it yields are the instant that the text denotes.
#[verifier::external_body]
pub(crate) fn timestamp_from_str(text: &str) -> (stamp: Option<Timestamp>)
    ensures
        stamp == timestamp_of(text@),
{
    match text.parse::<chrono::DateTime<chrono::Utc>>() {
        Ok(t) => Some(Timestamp { seconds: t.timestamp(), nanos: t.timestamp_subsec_nanos() }),
        Err(_) => None,
    }
}

} // verus!
