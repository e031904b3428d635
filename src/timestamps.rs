//! RFC 3339 timestamps, read and written by the `time` crate. An instant is
//! held as nanoseconds since the Unix epoch.

use vstd::prelude::*;

verus! {

/// The instant that an RFC 3339 text names, in nanoseconds since the Unix
/// epoch; `None` when the text is not RFC 3339.
pub uninterp spec fn rfc3339_instant(s: Seq<char>) -> Option<int>;

/// The RFC 3339 text (in UTC) of an instant given in nanoseconds since the
/// Unix epoch; `None` when the instant has no such text.
pub uninterp spec fn rfc3339_text(nanos: int) -> Option<Seq<char>>;

/// Relies on `time::OffsetDateTime::parse` with the `Rfc3339` description and
/// `OffsetDateTime::unix_timestamp_nanos`: the instant that the text names.
#[verifier::external_body]
pub(crate) fn parse_rfc3339(s: &str) -> (r: Option<i128>)
    ensures
        match r {
            Some(n) => rfc3339_instant(s@) == Some(n as int),
            None => rfc3339_instant(s@) is None,
        },
{
    time::OffsetDateTime::parse(s, &time::format_description::well_known::Rfc3339).ok().map(
        |t| t.unix_timestamp_nanos(),
    )
}

/// Relies on `time::OffsetDateTime::from_unix_timestamp_nanos` and
/// `OffsetDateTime::format` with the `Rfc3339` description: the text of the
/// instant, in UTC. The text carries every nanosecond digit (only trailing
/// zeros are left out), so parsing it gives the instant back.
#[verifier::external_body]
pub(crate) fn format_rfc3339(nanos: i128) -> (r: Option<String>)
    ensures
        match r {
            Some(t) => rfc3339_text(nanos as int) == Some(t@),
            None => rfc3339_text(nanos as int) is None,
        },
        r matches Some(t) ==> rfc3339_instant(t@) == Some(nanos as int),
{
    time::OffsetDateTime::from_unix_timestamp_nanos(nanos).ok().and_then(
        |t| t.format(&time::format_description::well_known::Rfc3339).ok(),
    )
}

} // verus!
