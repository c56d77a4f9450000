//! Points in time, and the RFC 3339 texts that stand for them.

use vstd::prelude::*;

verus! {

/// A point in time: nanoseconds since the Unix epoch.
#[derive(Debug, Clone, Copy, PartialEq, Eq, Structural)]
pub struct Timestamp {
    pub unix_nanos: i128,
}

impl View for Timestamp {
    type V = int;

    open spec fn view(&self) -> int {
        self.unix_nanos as int
    }
}

/// The error of the `time` crate for a text that it cannot read.
#[verifier::external_type_specification]
#[verifier::external_body]
pub struct ExTimeParseError(time::error::Parse);

/// The point in time that an RFC 3339 text stands for, in nanoseconds since
/// the Unix epoch; `None` where `time` does not read the text as one.
pub uninterp spec fn rfc3339_instant(text: Seq<char>) -> Option<int>;

/// Trusted: `time::OffsetDateTime::parse` with the well-known RFC 3339 format,
/// its result taken by `unix_timestamp_nanos`, which orders points in time as
/// `OffsetDateTime` does. It depends on the text alone.
#[verifier::external_body]
fn parse_rfc3339(text: &str) -> (r: Result<Timestamp, time::error::Parse>)
    ensures
        match r {
            Ok(instant) => rfc3339_instant(text@) == Some(instant@),
            Err(_) => rfc3339_instant(text@) is None,
        },
{
    match time::OffsetDateTime::parse(text, &time::format_description::well_known::Rfc3339) {
        Ok(instant) => Ok(Timestamp { unix_nanos: instant.unix_timestamp_nanos() }),
        Err(error) => Err(error),
    }
}

/// Trusted: `time::OffsetDateTime::now_utc`, the current time. Nothing is
/// promised of it.
#[verifier::external_body]
pub(crate) fn now_utc() -> Timestamp {
    Timestamp { unix_nanos: time::OffsetDateTime::now_utc().unix_timestamp_nanos() }
}

/// Reads an optional RFC 3339 text. An absent text is no point in time, and no
/// error.
pub fn deserialize(text: Option<String>) -> (r: Result<Option<Timestamp>, time::error::Parse>)
    ensures
        match text {
            None => r == Ok::<Option<Timestamp>, time::error::Parse>(None),
            Some(text) => match rfc3339_instant(text@) {
                Some(nanos) => r matches Ok(Some(instant)) && instant@ == nanos,
                None => r is Err,
            },
        },
{
    match text {
        None => Ok(None),
        Some(text) => match parse_rfc3339(text.as_str()) {
            Ok(instant) => Ok(Some(instant)),
            Err(error) => Err(error),
        },
    }
}

} // verus!
