//! Instants on the UTC time line, held as plain integers.
//!
//! An [`Instant`] carries what the calendar crate `chrono` keeps of a
//! `DateTime<Utc>`: the Unix second and the nanoseconds since that second.
//! Calendar work (reading RFC 3339 text, rendering dates, subtracting two
//! instants) is done by `chrono` behind the private functions of this module
//! whose contracts are taken on trust; everything else is proved.

use chrono::{DateTime, SecondsFormat};
use vstd::prelude::*;
use vstd::string::*;

verus! {

/// Nanoseconds in one second.
pub const NANOS_PER_SECOND: u32 = 1_000_000_000;

/// Seconds in one civil day.
pub const SECONDS_PER_DAY: i64 = 86_400;

/// Largest distance from the Unix epoch, in seconds, of an instant that this
/// library handles: 92 million days, well inside what `chrono` represents.
pub const MAX_UNIX_SECONDS: i64 = 7_948_800_000_000;

/// Unix second of the reference epoch, 2000-01-01T12:00:00Z.
pub const REFERENCE_EPOCH_SECONDS: i64 = 946_728_000;

/// Whether `secs` and `nanos` denote an instant of this library.
///
/// Nanoseconds of a billion or more stand for a leap second and are only
/// meaningful in the last second of a minute.
pub open spec fn representable(secs: int, nanos: int) -> bool {
    &&& -MAX_UNIX_SECONDS <= secs <= MAX_UNIX_SECONDS
    &&& 0 <= nanos < 2 * NANOS_PER_SECOND
    &&& (nanos >= NANOS_PER_SECOND ==> secs % 60 == 59)
}

/// Second within the UTC day of the Unix second `secs`.
pub open spec fn second_of_day(secs: int) -> int {
    secs % (SECONDS_PER_DAY as int)
}

/// Unix second at which the UTC day of `secs` begins.
pub open spec fn day_start(secs: int) -> int {
    secs - second_of_day(secs)
}

/// The mathematical content of an [`Instant`].
pub struct InstantView {
    pub secs: int,
    pub nanos: int,
}

/// Correction, in seconds, that subtraction applies when one of the two
/// instants lies inside a leap second.
pub open spec fn leap_shift(later: InstantView, earlier: InstantView) -> int {
    if second_of_day(later.secs) > second_of_day(earlier.secs) && earlier.nanos >= NANOS_PER_SECOND {
        1
    } else if second_of_day(later.secs) < second_of_day(earlier.secs) && later.nanos
        >= NANOS_PER_SECOND {
        -1
    } else {
        0
    }
}

/// Signed distance from `earlier` to `later`, in nanoseconds.
pub open spec fn elapsed_nanos(later: InstantView, earlier: InstantView) -> int {
    (later.secs - earlier.secs + leap_shift(later, earlier)) * NANOS_PER_SECOND + later.nanos
        - earlier.nanos
}

/// Whole seconds in `nanos` nanoseconds, rounded towards zero.
pub open spec fn whole_seconds(nanos: int) -> int {
    if nanos >= 0 {
        nanos / (NANOS_PER_SECOND as int)
    } else {
        -((-nanos) / (NANOS_PER_SECOND as int))
    }
}

/// Signed distance from `earlier` to `later` in whole seconds.
pub open spec fn elapsed_seconds(later: InstantView, earlier: InstantView) -> int {
    whole_seconds(elapsed_nanos(later, earlier))
}

/// The instant with the Unix second `parts.0` and the nanoseconds `parts.1`.
pub open spec fn view_of(parts: (i64, u32)) -> InstantView {
    InstantView { secs: parts.0 as int, nanos: parts.1 as int }
}

/// What `chrono` reads from an RFC 3339 text: the Unix second and the
/// nanoseconds of the instant it denotes, or nothing where the text is not
/// RFC 3339.
pub uninterp spec fn rfc3339_reading(text: Seq<char>) -> Option<(i64, u32)>;

/// The `%Y-%m-%d` rendering, by `chrono`, of the UTC calendar date that holds
/// the Unix second `secs`.
pub uninterp spec fn utc_date_text(secs: int) -> Seq<char>;

/// The RFC 3339 rendering, by `chrono`, of an instant to whole seconds with
/// the `Z` suffix.
pub uninterp spec fn rfc3339_text(secs: int, nanos: int) -> Seq<char>;

/// `chrono::ParseError`, the reason why `chrono` did not read a text. It is
/// carried unopened from the parser to its `Display`.
#[verifier::external_type_specification]
#[verifier::external_body]
pub struct ExParseError(chrono::ParseError);

/// An instant of the UTC time line.
#[derive(Clone, Copy, Debug, PartialEq, Eq, Structural)]
pub struct Instant {
    secs: i64,
    nanos: u32,
}

/// A text that was not accepted as an instant, with the reason in words.
#[derive(Debug)]
pub struct DateError {
    pub reason: String,
}

impl View for Instant {
    type V = InstantView;

    closed spec fn view(&self) -> InstantView {
        InstantView { secs: self.secs as int, nanos: self.nanos as int }
    }
}

/// Calls `DateTime::parse_from_rfc3339` and takes the Unix timestamp and the
/// sub-second nanoseconds of what it returns. Trusted: the outcome is the one
/// that [`rfc3339_reading`] names for this text.
#[verifier::external_body]
fn read_rfc3339(text: &str) -> (r: Result<(i64, u32), chrono::ParseError>)
    ensures
        r matches Ok(parts) ==> rfc3339_reading(text@) == Some(parts),
        r is Err ==> rfc3339_reading(text@) is None,
{
    match DateTime::parse_from_rfc3339(text) {
        Ok(parsed) => Ok((parsed.timestamp(), parsed.timestamp_subsec_nanos())),
        Err(error) => Err(error),
    }
}

/// Renders a `chrono::ParseError` through its `Display`. Nothing is claimed
/// of the text.
#[verifier::external_body]
fn parse_error_text(error: &chrono::ParseError) -> (r: String) {
    error.to_string()
}

/// Calls `DateTime::signed_duration_since` and `TimeDelta::num_seconds` on
/// the two instants. Trusted: `chrono` subtracts dates and times of day
/// separately, shifts by one second where a leap second lies between them,
/// and `num_seconds` rounds towards zero.
#[verifier::external_body]
fn chrono_seconds_between(later: &Instant, earlier: &Instant) -> (r: i64)
    requires
        representable(later@.secs, later@.nanos),
        representable(earlier@.secs, earlier@.nanos),
    ensures
        r == elapsed_seconds(later@, earlier@),
{
    let end = DateTime::from_timestamp(later.secs, later.nanos).unwrap();
    let start = DateTime::from_timestamp(earlier.secs, earlier.nanos).unwrap();
    end.signed_duration_since(start).num_seconds()
}

/// Calls `DateTime::format` with `%Y-%m-%d` on the instant at Unix second
/// `secs`. Trusted: the text is the one that [`utc_date_text`] names.
#[verifier::external_body]
fn chrono_date_text(secs: i64) -> (r: String)
    requires
        -MAX_UNIX_SECONDS <= secs <= MAX_UNIX_SECONDS,
    ensures
        r@ == utc_date_text(secs as int),
{
    DateTime::from_timestamp(secs, 0).unwrap().format("%Y-%m-%d").to_string()
}

/// Calls `DateTime::to_rfc3339_opts` with `SecondsFormat::Secs` and the `Z`
/// suffix. Trusted: the text is the one that [`rfc3339_text`] names.
#[verifier::external_body]
fn chrono_rfc3339_text(instant: &Instant) -> (r: String)
    requires
        representable(instant@.secs, instant@.nanos),
    ensures
        r@ == rfc3339_text(instant@.secs, instant@.nanos),
{
    DateTime::from_timestamp(instant.secs, instant.nanos).unwrap().to_rfc3339_opts(
        SecondsFormat::Secs,
        true,
    )
}

impl Instant {
    #[verifier::type_invariant]
    spec fn well_formed(self) -> bool {
        representable(self.secs as int, self.nanos as int)
    }

    /// The instant at Unix second `secs` plus `nanos` nanoseconds, where the
    /// library can represent it.
    pub fn new(secs: i64, nanos: u32) -> (r: Option<Instant>)
        ensures
            r is Some <==> representable(secs as int, nanos as int),
            r matches Some(instant) ==> instant@ == view_of((secs, nanos)),
    {
        if secs < -MAX_UNIX_SECONDS || secs > MAX_UNIX_SECONDS {
            return None;
        }
        if nanos >= 2 * NANOS_PER_SECOND {
            return None;
        }
        if nanos >= NANOS_PER_SECOND {
            let second_of_minute: Option<i64> = secs.checked_rem_euclid(60);
            if second_of_minute != Some(59) {
                return None;
            }
        }
        Some(Instant { secs, nanos })
    }

    /// The reference epoch, 2000-01-01T12:00:00Z, from which the integrator
    /// measures time.
    pub fn reference_epoch() -> (r: Instant)
        ensures
            r@ == (InstantView { secs: REFERENCE_EPOCH_SECONDS as int, nanos: 0 }),
    {
        Instant { secs: REFERENCE_EPOCH_SECONDS, nanos: 0 }
    }

    /// What [`Instant::parse`] returns for a text that `chrono` read as
    /// `reading`.
    pub open spec fn accepted(reading: Option<(i64, u32)>) -> bool {
        reading matches Some(parts) && representable(parts.0 as int, parts.1 as int)
    }

    /// Reads an RFC 3339 text such as `2000-01-01T12:00:00Z`.
    ///
    /// Succeeds exactly on the texts that `chrono` reads as an instant within
    /// range, and then holds that instant. Where `chrono` does not read the
    /// text, the error carries its message.
    pub fn parse(text: &str) -> (r: Result<Instant, DateError>)
        ensures
            r is Ok <==> Self::accepted(rfc3339_reading(text@)),
            r matches Ok(instant) ==> rfc3339_reading(text@) matches Some(parts) && instant@
                == view_of(parts),
    {
        match read_rfc3339(text) {
            Ok(parts) => match Instant::new(parts.0, parts.1) {
                Some(instant) => Ok(instant),
                None => Err(DateError { reason: String::from_str("instant out of range") }),
            },
            Err(error) => Err(DateError { reason: parse_error_text(&error) }),
        }
    }

    /// Unix second of the instant.
    pub fn unix_seconds(&self) -> (r: i64)
        ensures
            r == self@.secs,
            -MAX_UNIX_SECONDS <= r <= MAX_UNIX_SECONDS,
    {
        proof {
            use_type_invariant(self);
        }
        self.secs
    }

    /// Nanoseconds since the instant's Unix second; a billion or more inside
    /// a leap second.
    pub fn subsec_nanos(&self) -> (r: u32)
        ensures
            r == self@.nanos,
            representable(self@.secs, self@.nanos),
    {
        proof {
            use_type_invariant(self);
        }
        self.nanos
    }

    /// Whole seconds from `earlier` to `self`, negative where `self` is the
    /// earlier one, rounded towards zero.
    pub fn seconds_since(&self, earlier: &Instant) -> (r: i64)
        ensures
            r == elapsed_seconds(self@, earlier@),
    {
        proof {
            use_type_invariant(self);
            use_type_invariant(earlier);
        }
        chrono_seconds_between(self, earlier)
    }

    /// Whether `self` is strictly later than `other`.
    pub fn is_after(&self, other: &Instant) -> (r: bool)
        ensures
            r == Self::later(self@, other@),
    {
        self.secs > other.secs || (self.secs == other.secs && self.nanos > other.nanos)
    }

    /// Order of two instants on the time line.
    pub open spec fn later(a: InstantView, b: InstantView) -> bool {
        a.secs > b.secs || (a.secs == b.secs && a.nanos > b.nanos)
    }

    /// The calendar date of the instant as text: the key under which results
    /// for its day are cached.
    pub open spec fn date_key_text(self) -> Seq<char> {
        utc_date_text(day_start(self@.secs))
    }

    /// The UTC calendar date of the instant, `YYYY-MM-DD`.
    ///
    /// The date is rendered for the first second of the instant's day, so
    /// two instants of one day have one key.
    pub fn date_key(&self) -> (r: String)
        ensures
            r@ == self.date_key_text(),
    {
        proof {
            use_type_invariant(self);
        }
        let into_day: i64 = match self.secs.checked_rem_euclid(SECONDS_PER_DAY) {
            Some(seconds) => seconds,
            None => 0,
        };
        chrono_date_text(self.secs - into_day)
    }

    /// The instant in RFC 3339 to whole seconds, such as
    /// `2000-01-01T12:00:00Z`.
    pub fn to_rfc3339(&self) -> (r: String)
        ensures
            r@ == rfc3339_text(self@.secs, self@.nanos),
    {
        proof {
            use_type_invariant(self);
        }
        chrono_rfc3339_text(self)
    }
}

/// Two instants of one UTC day have the same date key.
pub proof fn lemma_same_day_same_key(a: Instant, b: Instant)
    requires
        day_start(a@.secs) == day_start(b@.secs),
    ensures
        a.date_key_text() == b.date_key_text(),
{
}

/// No time passes between an instant and itself, and the distance between
/// two instants changes sign when they are swapped.
pub proof fn lemma_elapsed_antisymmetric(a: InstantView, b: InstantView)
    ensures
        elapsed_seconds(a, a) == 0,
        elapsed_seconds(a, b) == -elapsed_seconds(b, a),
{
}

} // verus!
