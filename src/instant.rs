//! Points in time, and the two encodings in which a record may carry one.
use vstd::prelude::*;

use crate::domain::AclError;

verus! {

/// The earliest Unix time that the `time` crate represents (-9999-01-01T00:00:00Z).
pub const MIN_UNIX_SECONDS: i64 = -377705116800;

/// The latest whole Unix second that the `time` crate represents (9999-12-31T23:59:59Z).
pub const MAX_UNIX_SECONDS: i64 = 253402300799;

pub open spec fn unix_in_range(secs: i64) -> bool {
    MIN_UNIX_SECONDS <= secs <= MAX_UNIX_SECONDS
}

/// Relies on `time::OffsetDateTime::from_unix_timestamp`: it accepts exactly
/// the seconds from `Date::MIN` at midnight to `Date::MAX` at 23:59:59 UTC, and
/// the instant it builds has that Unix time and no fraction of a second. The
/// bounds are those of years -9999 to 9999; they hold only while no crate in
/// the build turns on `time`'s `large-dates` feature.
#[verifier::external_body]
fn instant_from_unix(secs: i64) -> (r: Option<(i64, u32)>)
    ensures
        r == (if unix_in_range(secs) {
            Some((secs, 0u32))
        } else {
            None
        }),
{
    time::OffsetDateTime::from_unix_timestamp(secs).ok().map(|t| (t.unix_timestamp(), t.nanosecond()))
}

/// The nanoseconds that a second holds.
pub const NANOS_PER_SECOND: u32 = 1_000_000_000;

/// A reading of an instant: Unix seconds and a nanosecond within that second.
pub open spec fn is_instant_reading(v: (i64, u32)) -> bool {
    v.1 < NANOS_PER_SECOND
}

/// An absolute point in time: whole seconds since 1970-01-01T00:00:00Z and a
/// nanosecond within that second.
#[derive(Debug, Clone, Copy, PartialEq, Eq, PartialOrd, Ord)]
pub struct Timestamp {
    secs: i64,
    nanos: u32,
}

impl View for Timestamp {
    type V = (i64, u32);

    closed spec fn view(&self) -> (i64, u32) {
        (self.secs, self.nanos)
    }
}

impl Timestamp {
    #[verifier::type_invariant]
    spec fn inv(self) -> bool {
        self.nanos < NANOS_PER_SECOND
    }

    /// The instant `secs` seconds after the epoch, where that is representable.
    pub fn from_unix_timestamp(secs: i64) -> (r: Option<Timestamp>)
        ensures
            unix_in_range(secs) <==> (r matches Some(t) && t@ == (secs, 0u32)),
            !unix_in_range(secs) <==> r is None,
    {
        match instant_from_unix(secs) {
            Some((s, n)) => Some(Timestamp { secs: s, nanos: n }),
            None => None,
        }
    }

    pub fn unix_timestamp(&self) -> (r: i64)
        ensures
            r == self@.0,
    {
        self.secs
    }

    pub fn nanosecond(&self) -> (r: u32)
        ensures
            r == self@.1,
            r < NANOS_PER_SECOND,
    {
        proof {
            use_type_invariant(self);
        }
        self.nanos
    }
}

/// A point in time as an outside record encodes it: either a number of
/// seconds since the epoch or a text.
#[derive(Debug, Clone, PartialEq, Eq)]
pub enum LooseTime {
    UnixSecs(i64),
    Rfc3339(String),
}

/// The format tried when text is not RFC 3339, read as UTC.
pub const FALLBACK_FORMAT: &'static str = "[year]-[month]-[day] [hour]:[minute]:[second] UTC";

/// The Unix time and nanosecond that `time` parses from `s` as RFC 3339.
pub uninterp spec fn rfc3339_instant(s: Seq<char>) -> Option<(i64, u32)>;

/// The Unix time and nanosecond that `time` parses from `s` as a UTC date
/// and time laid out by the format description `fmt`.
pub uninterp spec fn utc_formatted_instant(s: Seq<char>, fmt: Seq<char>) -> Option<(i64, u32)>;

/// Relies on `time::OffsetDateTime::parse` with the `Rfc3339` description,
/// and on `nanosecond`, which is always below one second.
#[verifier::external_body]
fn parse_rfc3339(s: &str) -> (r: Option<(i64, u32)>)
    ensures
        r == rfc3339_instant(s@),
        r matches Some(v) ==> is_instant_reading(v),
{
    let rfc = time::format_description::well_known::Rfc3339;
    time::OffsetDateTime::parse(s, &rfc).ok().map(|t| (t.unix_timestamp(), t.nanosecond()))
}

/// Relies on `time::format_description::parse_borrowed` (version 1, the
/// syntax of the `format_description!` macro) to read the format, and on
/// `time::UtcDateTime::parse`, whose `nanosecond` is always below one second.
/// The format is the fallback one, which has no offset: with an offset,
/// `UtcDateTime::parse` panics on a local time that falls after the last
/// representable UTC instant.
#[verifier::external_body]
fn parse_utc_formatted(s: &str, fmt: &str) -> (r: Option<(i64, u32)>)
    requires
        fmt@ == FALLBACK_FORMAT@,
    ensures
        r == utc_formatted_instant(s@, fmt@),
        r matches Some(v) ==> is_instant_reading(v),
{
    let items = time::format_description::parse_borrowed::<1>(fmt).ok()?;
    time::UtcDateTime::parse(s, &items).ok().map(|t| (t.unix_timestamp(), t.nanosecond()))
}

/// What a text timestamp resolves to: its RFC 3339 reading if it has one,
/// else its reading in the fallback format.
pub open spec fn text_instant(s: Seq<char>) -> Option<(i64, u32)> {
    match rfc3339_instant(s) {
        Some(v) => Some(v),
        None => utc_formatted_instant(s, FALLBACK_FORMAT@),
    }
}

/// What a loose timestamp resolves to, if anything.
pub open spec fn loose_instant(t: LooseTime) -> Option<(i64, u32)> {
    match t {
        LooseTime::UnixSecs(n) => if unix_in_range(n) {
            Some((n, 0u32))
        } else {
            None
        },
        LooseTime::Rfc3339(s) => text_instant(s@),
    }
}

/// Whether `o` holds a reading of an instant.
pub open spec fn has_reading(o: Option<(i64, u32)>) -> bool {
    o matches Some(v) && is_instant_reading(v)
}

/// Chooses between the strict reading of a text and its fallback reading:
/// the strict one wins whenever there is one. A pair whose nanosecond is a
/// second or more is no reading.
pub fn resolve_text_outcome(strict: Option<(i64, u32)>, fallback: Option<(i64, u32)>) -> (r: Result<
    Timestamp,
    AclError,
>)
    ensures
        has_reading(strict) ==> (r matches Ok(t) && t@ == strict->0),
        !has_reading(strict) && has_reading(fallback) ==> (r matches Ok(t) && t@ == fallback->0),
        !has_reading(strict) && !has_reading(fallback) <==> r == Err::<Timestamp, AclError>(
            AclError::InvalidCreatedAt,
        ),
{
    match strict {
        Some((secs, nanos)) if nanos < NANOS_PER_SECOND => Ok(Timestamp { secs, nanos }),
        _ => match fallback {
            Some((secs, nanos)) if nanos < NANOS_PER_SECOND => Ok(Timestamp { secs, nanos }),
            _ => Err(AclError::InvalidCreatedAt),
        },
    }
}

/// Resolves a loose timestamp to an instant. Text is read as RFC 3339 first,
/// and only where that fails in the fallback format.
pub fn parse_loose_time(t: &LooseTime) -> (r: Result<Timestamp, AclError>)
    ensures
        loose_instant(*t) is Some <==> (r matches Ok(ts) && ts@ == loose_instant(*t)->0),
        loose_instant(*t) is None <==> r == Err::<Timestamp, AclError>(AclError::InvalidCreatedAt),
{
    match t {
        LooseTime::UnixSecs(secs) => match Timestamp::from_unix_timestamp(*secs) {
            Some(ts) => Ok(ts),
            None => Err(AclError::InvalidCreatedAt),
        },
        LooseTime::Rfc3339(s) => {
            let strict = parse_rfc3339(s.as_str());
            if strict.is_some() {
                return resolve_text_outcome(strict, None);
            }
            let fallback = parse_utc_formatted(s.as_str(), FALLBACK_FORMAT);
            resolve_text_outcome(None, fallback)
        },
    }
}

} // verus!
