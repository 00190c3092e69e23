//! Points in time and the spans between them.

use crate::score::div_towards_zero;
use vstd::prelude::*;

verus! {

/// Nanoseconds in a second.
pub const NANOS_PER_SECOND: i128 = 1_000_000_000;

/// Nanoseconds in a day of 86 400 seconds.
pub const NANOS_PER_DAY: i128 = 86_400_000_000_000;

/// Largest magnitude of the seconds of a [`Timestamp`]: about 316 000 years
/// on either side of 1970.
pub const TIMESTAMP_SECS_MAX: i64 = 10_000_000_000_000;

/// Upper limit, not reached, of the nanoseconds of a [`Timestamp`]. A value
/// of a thousand million or more stands for a leap second.
pub const TIMESTAMP_NANOS_LIMIT: u32 = 2_000_000_000;

/// What `DateTime::parse_from_rfc3339` of the `chrono` crate makes of `text`:
/// `None` where it reports an error, otherwise the seconds since the Unix
/// epoch (`DateTime::timestamp`) and the nanoseconds since the last full
/// second (`DateTime::timestamp_subsec_nanos`) of the moment it read.
pub uninterp spec fn rfc3339_reading(text: Seq<char>) -> Option<(i64, u32)>;

/// Calls `chrono::DateTime::parse_from_rfc3339` on `text`. Trusted: the
/// result is the reading named by [`rfc3339_reading`], which the parser
/// computes from the text alone.
#[verifier::external_body]
fn read_rfc3339(text: &str) -> (r: Option<(i64, u32)>)
    ensures
        r == rfc3339_reading(text@),
{
    match chrono::DateTime::parse_from_rfc3339(text) {
        Ok(moment) => Some((moment.timestamp(), moment.timestamp_subsec_nanos())),
        Err(_) => None,
    }
}

/// Nanoseconds since the Unix epoch of the moment `secs` seconds and `nanos`
/// nanoseconds after it. A leap second, which has a thousand million
/// nanoseconds or more, thus counts as the second that follows it.
pub open spec fn instant_of(secs: i64, nanos: u32) -> int {
    secs * NANOS_PER_SECOND + nanos
}

/// A point in time: seconds since the Unix epoch and nanoseconds on top.
#[derive(Clone, Copy, Debug)]
pub struct Timestamp {
    secs: i64,
    nanos: u32,
}

impl Timestamp {
    #[verifier::type_invariant]
    spec fn inv(self) -> bool {
        Self::in_range(self.secs, self.nanos)
    }

    /// Whether a timestamp can hold these seconds and nanoseconds.
    pub open spec fn in_range(secs: i64, nanos: u32) -> bool {
        &&& -TIMESTAMP_SECS_MAX <= secs <= TIMESTAMP_SECS_MAX
        &&& nanos < TIMESTAMP_NANOS_LIMIT
    }

    /// Seconds since the Unix epoch.
    pub closed spec fn secs(self) -> i64 {
        self.secs
    }

    /// Nanoseconds on top of the seconds.
    pub closed spec fn nanos(self) -> u32 {
        self.nanos
    }

    /// Validity of a timestamp: every timestamp that executable code holds is
    /// valid.
    pub open spec fn wf(self) -> bool {
        Self::in_range(self.secs(), self.nanos())
    }

    /// Nanoseconds since the Unix epoch.
    pub open spec fn instant(self) -> int {
        instant_of(self.secs(), self.nanos())
    }

    /// What a reading of the RFC 3339 parser becomes: a timestamp where the
    /// parser succeeded and the moment is in range.
    pub open spec fn of_reading(reading: Option<(i64, u32)>) -> Option<(i64, u32)> {
        match reading {
            Some((secs, nanos)) => if Self::in_range(secs, nanos) {
                Some((secs, nanos))
            } else {
                None
            },
            None => None,
        }
    }

    /// The seconds and nanoseconds that [`Timestamp::parse`] gives for
    /// `text`, if any.
    pub open spec fn parsed(text: Seq<char>) -> Option<(i64, u32)> {
        Self::of_reading(rfc3339_reading(text))
    }

    /// The timestamp of `secs` seconds and `nanos` nanoseconds since the
    /// Unix epoch, if it is in range.
    pub fn from_unix(secs: i64, nanos: u32) -> (t: Option<Timestamp>)
        ensures
            t is Some <==> Self::in_range(secs, nanos),
            t matches Some(ts) ==> ts.secs() == secs && ts.nanos() == nanos && ts.wf(),
    {
        if -TIMESTAMP_SECS_MAX <= secs && secs <= TIMESTAMP_SECS_MAX && nanos
            < TIMESTAMP_NANOS_LIMIT {
            Some(Timestamp { secs, nanos })
        } else {
            None
        }
    }

    /// Reads an RFC 3339 date and time such as `2024-03-01T12:00:00Z`.
    pub fn parse(text: &str) -> (t: Option<Timestamp>)
        ensures
            t is Some <==> Self::parsed(text@) is Some,
            t matches Some(ts) ==> Self::parsed(text@) == Some((ts.secs(), ts.nanos())) && ts.wf(),
    {
        match read_rfc3339(text) {
            Some((secs, nanos)) => Self::from_unix(secs, nanos),
            None => None,
        }
    }

    /// Seconds since the Unix epoch.
    pub fn unix_seconds(&self) -> (secs: i64)
        ensures
            secs == self.secs(),
            self.wf(),
    {
        proof {
            use_type_invariant(self);
        }
        self.secs
    }

    /// Nanoseconds on top of the seconds.
    pub fn subsec_nanos(&self) -> (nanos: u32)
        ensures
            nanos == self.nanos(),
            self.wf(),
    {
        proof {
            use_type_invariant(self);
        }
        self.nanos
    }

    /// Nanoseconds from `earlier` to `self`; negative where `earlier` is the
    /// later of the two.
    pub fn nanos_since(&self, earlier: &Timestamp) -> (span: i128)
        ensures
            span == self.instant() - earlier.instant(),
            self.wf(),
            earlier.wf(),
    {
        proof {
            use_type_invariant(self);
            use_type_invariant(earlier);
        }
        let secs: i128 = self.secs as i128 - earlier.secs as i128;
        let nanos: i128 = self.nanos as i128 - earlier.nanos as i128;
        secs * NANOS_PER_SECOND + nanos
    }

    /// Whether less than `days` days lie between `earlier` and `self`. A
    /// moment after `self` counts as within any number of days.
    pub fn is_within_days(&self, earlier: &Timestamp, days: u16) -> (b: bool)
        ensures
            b == (self.instant() - earlier.instant() < days * NANOS_PER_DAY),
    {
        self.nanos_since(earlier) < days as i128 * NANOS_PER_DAY
    }

    /// Whole days from `earlier` to `self`, rounded towards zero.
    pub fn days_since(&self, earlier: &Timestamp) -> (days: i64)
        ensures
            days == div_towards_zero(self.instant() - earlier.instant(), NANOS_PER_DAY as int),
            -240_000_000 < days < 240_000_000,
    {
        let span = self.nanos_since(earlier);
        if span >= 0 {
            (span / NANOS_PER_DAY) as i64
        } else {
            let back: i128 = -span;
            -((back / NANOS_PER_DAY) as i64)
        }
    }
}

} // verus!
