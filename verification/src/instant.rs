//! Points in time, and their RFC 3339 text.
//!
//! An instant is held as seconds and nanoseconds since the Unix epoch. The
//! calendar arithmetic that turns it into text and back is chrono's.

use vstd::prelude::*;

verus! {

/// A point in time: whole seconds since 1970-01-01T00:00:00 UTC, and the
/// nanoseconds past that second.
#[derive(Clone, Copy, Debug, PartialEq, Eq, Structural)]
pub struct Timestamp {
    pub secs: i64,
    pub nanos: u32,
}

/// The RFC 3339 text, in UTC, of the instant `secs` seconds and `nanos`
/// nanoseconds after the Unix epoch; `None` where the calendar has no date
/// for it.
pub uninterp spec fn rfc3339_text(secs: i64, nanos: u32) -> Option<Seq<char>>;

/// The instant that an RFC 3339 date-and-time text denotes, as seconds and
/// nanoseconds after the Unix epoch; `None` where the text is no such date.
pub uninterp spec fn rfc3339_instant(text: Seq<char>) -> Option<(i64, u32)>;

/// Trusted: `chrono::DateTime::from_timestamp` followed by
/// `chrono::DateTime::to_rfc3339`. The contract only gives the result its
/// name: the text depends on `secs` and `nanos` alone. Neither call panics;
/// an instant outside chrono's range gives `None`.
#[verifier::external_body]
pub(crate) fn chrono_to_rfc3339(secs: i64, nanos: u32) -> (text: Option<String>)
    ensures
        match text {
            Some(written) => rfc3339_text(secs, nanos) == Some(written@),
            None => rfc3339_text(secs, nanos).is_none(),
        },
{
    match chrono::DateTime::from_timestamp(secs, nanos) {
        Some(instant) => Some(instant.to_rfc3339()),
        None => None,
    }
}

/// Trusted: `chrono::DateTime::parse_from_rfc3339`, with the parsed date
/// handed back as `timestamp()` and `timestamp_subsec_nanos()`. The contract
/// only gives the result its name: it depends on the text alone. A text that
/// chrono refuses gives `None`.
#[verifier::external_body]
fn chrono_parse_rfc3339(text: &str) -> (instant: Option<(i64, u32)>)
    ensures
        instant == rfc3339_instant(text@),
{
    match chrono::DateTime::parse_from_rfc3339(text) {
        Ok(parsed) => Some((parsed.timestamp(), parsed.timestamp_subsec_nanos())),
        Err(_) => None,
    }
}

impl Timestamp {
    /// The instant read from what the parser found in a text.
    pub open spec fn from_parts(parts: Option<(i64, u32)>) -> Option<Timestamp> {
        match parts {
            Some((secs, nanos)) => Some(Timestamp { secs, nanos }),
            None => None,
        }
    }

    /// Whether this instant can be written as RFC 3339 text.
    pub open spec fn has_text(self) -> bool {
        rfc3339_text(self.secs, self.nanos).is_some()
    }

    /// The RFC 3339 text of this instant, where it has one.
    pub open spec fn text(self) -> Seq<char> {
        rfc3339_text(self.secs, self.nanos).unwrap()
    }

    /// Reads an RFC 3339 date-and-time text. Returns the instant that it
    /// denotes, and `None` exactly where the text is not such a date.
    pub fn parse(text: &str) -> (instant: Option<Timestamp>)
        ensures
            instant == Self::from_parts(rfc3339_instant(text@)),
    {
        Self::assemble(chrono_parse_rfc3339(text))
    }

    /// Builds the instant from the seconds and nanoseconds that a parser
    /// found, if it found any.
    pub fn assemble(parts: Option<(i64, u32)>) -> (instant: Option<Timestamp>)
        ensures
            instant == Self::from_parts(parts),
    {
        match parts {
            Some((secs, nanos)) => Some(Timestamp { secs, nanos }),
            None => None,
        }
    }
}

} // verus!
