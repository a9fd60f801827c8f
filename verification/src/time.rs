//! Instants, as the catalog stores them, read from RFC 3339 text and
//! written as such by the `chrono` crate.

use vstd::prelude::*;

verus! {

/// An instant: whole seconds since 1970-01-01T00:00:00Z, and the
/// nanoseconds past that second.
#[derive(Clone, Copy, Debug, PartialEq, Eq, Structural)]
pub struct Timestamp {
    pub seconds: i64,
    pub nanos: u32,
}

/// The instant that `chrono::DateTime::parse_from_rfc3339` reads from `text`,
/// as the seconds and nanoseconds that `timestamp` and
/// `timestamp_subsec_nanos` give for it, or nothing where `text` is no
/// RFC 3339 date and time.
pub uninterp spec fn rfc3339_instant(text: Seq<char>) -> Option<(i64, u32)>;

/// The RFC 3339 text that `chrono` writes for the instant `seconds` and
/// `nanos` past 1970-01-01T00:00:00Z: what `DateTime::to_rfc3339_opts` gives
/// for the date and time that `DateTime::from_timestamp` makes of them, in
/// UTC, with the suffix `Z` and as many digits of a second as the instant
/// needs. It is nothing where `from_timestamp` knows no such date and time.
pub uninterp spec fn rfc3339_text(seconds: i64, nanos: u32) -> Option<Seq<char>>;

/// The instant that stands in for a raster that carries no time of its own:
/// 1900-01-01T00:00:00Z.
pub open spec fn unknown_instant() -> Timestamp {
    Timestamp { seconds: (-2_208_988_800i64), nanos: 0 }
}

/// What a record's time is, given the text that its source carries, if any.
pub open spec fn instant_of(text: Option<Seq<char>>) -> Option<Timestamp> {
    match text {
        None => Some(unknown_instant()),
        Some(t) => match rfc3339_instant(t) {
            Some((seconds, nanos)) => Some(Timestamp { seconds, nanos }),
            None => None,
        },
    }
}

/// Calls `chrono::DateTime::parse_from_rfc3339` on `text` and takes the
/// result apart with `timestamp` and `timestamp_subsec_nanos`. Nothing is
/// claimed of the instant but that it is the one the crate reads.
#[verifier::external_body]
fn parse_rfc3339(text: &str) -> (r: Option<Timestamp>)
    ensures
        match r {
            Some(t) => rfc3339_instant(text@) == Some((t.seconds, t.nanos)),
            None => rfc3339_instant(text@) is None,
        },
{
    match chrono::DateTime::parse_from_rfc3339(text) {
        Ok(t) => Some(Timestamp { seconds: t.timestamp(), nanos: t.timestamp_subsec_nanos() }),
        Err(_) => None,
    }
}

/// Calls `chrono::DateTime::from_timestamp` on the seconds and nanoseconds
/// of `t`, and `to_rfc3339_opts` on the date and time that it gives, with
/// `SecondsFormat::AutoSi` and `Z` for UTC: the text that `chrono` writes
/// for a date and time when it is serialized. Nothing is claimed of the
/// text but that it is what the crate writes.
#[verifier::external_body]
fn format_rfc3339(t: Timestamp) -> (r: Option<String>)
    ensures
        match r {
            Some(s) => rfc3339_text(t.seconds, t.nanos) == Some(s@),
            None => rfc3339_text(t.seconds, t.nanos) is None,
        },
{
    match chrono::DateTime::from_timestamp(t.seconds, t.nanos) {
        Some(d) => Some(d.to_rfc3339_opts(chrono::SecondsFormat::AutoSi, true)),
        None => None,
    }
}

impl Timestamp {
    /// The instant as RFC 3339 text, or nothing where no date can hold it.
    pub fn to_rfc3339(&self) -> (r: Option<String>)
        ensures
            match r {
                Some(s) => rfc3339_text(self.seconds, self.nanos) == Some(s@),
                None => rfc3339_text(self.seconds, self.nanos) is None,
            },
    {
        format_rfc3339(*self)
    }


    /// The instant of a raster without a time of its own.
    pub fn unknown() -> (r: Timestamp)
        ensures
            r == unknown_instant(),
    {
        Timestamp { seconds: -2_208_988_800, nanos: 0 }
    }

    /// The instant written in `text`, or the stand-in where there is no
    /// text. Text that is no RFC 3339 date and time gives nothing.
    pub fn from_source(text: Option<&str>) -> (r: Option<Timestamp>)
        ensures
            r == instant_of(
                match text {
                    Some(t) => Some(t@),
                    None => None,
                },
            ),
    {
        match text {
            None => Some(Timestamp::unknown()),
            Some(t) => parse_rfc3339(t),
        }
    }
}

} // verus!
