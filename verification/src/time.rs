//! Instants, and their wording as ISO 8601 text.

use std::fmt::Write;
use vstd::prelude::*;

verus! {

/// An instant: whole seconds since the start of 1970 in UTC, and the
/// nanoseconds into that second.
#[derive(Clone, Copy, Debug, PartialEq, Eq, Structural)]
pub struct Timestamp {
    pub secs: i64,
    pub nanos: u32,
}

/// The ISO 8601 text of the instant `secs` seconds and `nanos` nanoseconds
/// after the start of 1970 in UTC, where the calendar reaches that far.
pub uninterp spec fn iso8601_text(secs: int, nanos: int) -> Option<Seq<char>>;

/// The instant that an RFC 3339 text names, as seconds and nanoseconds since
/// the start of 1970 in UTC, where the text is such a text.
pub uninterp spec fn iso8601_instant(text: Seq<char>) -> Option<(int, int)>;

impl Timestamp {
    pub fn new(secs: i64, nanos: u32) -> (out: Self)
        ensures
            out.secs == secs,
            out.nanos == nanos,
    {
        Self { secs, nanos }
    }

    /// The whole seconds since the start of 1970.
    pub fn unix_timestamp(&self) -> (secs: i64)
        ensures
            secs == self.secs,
    {
        self.secs
    }
}

/// `chrono::DateTime::<Utc>::from_timestamp`, then `DateTime::format` with
/// the pattern `%+`: the instant as ISO 8601 text with the offset `+00:00`,
/// and nothing where the instant is out of chrono's range. The same instant
/// always gives the same text.
#[verifier::external_body]
pub fn iso8601(at: &Timestamp) -> (out: Option<String>)
    ensures
        match out {
            Some(text) => iso8601_text(at.secs as int, at.nanos as int) == Some(text@),
            None => iso8601_text(at.secs as int, at.nanos as int) is None,
        },
{
    let instant = chrono::DateTime::<chrono::Utc>::from_timestamp(at.secs, at.nanos)?;
    let mut out = String::new();
    match write!(out, "{}", instant.format("%+")) {
        Ok(()) => Some(out),
        Err(_) => None,
    }
}

/// `chrono::DateTime::parse_from_rfc3339`, then `DateTime::timestamp` and
/// `DateTime::timestamp_subsec_nanos`: the instant that the text names, and
/// nothing where the text is no RFC 3339 date and time. The same text always
/// gives the same instant.
#[verifier::external_body]
pub(crate) fn parse_iso8601(text: &str) -> (out: Option<Timestamp>)
    ensures
        match out {
            Some(at) => iso8601_instant(text@) == Some((at.secs as int, at.nanos as int)),
            None => iso8601_instant(text@) is None,
        },
{
    match chrono::DateTime::parse_from_rfc3339(text) {
        Ok(instant) => Some(
            Timestamp { secs: instant.timestamp(), nanos: instant.timestamp_subsec_nanos() },
        ),
        Err(_) => None,
    }
}

} // verus!
