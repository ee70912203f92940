//! Points on the UTC timeline.

use crate::units::NANOS_PER_SECOND;
use vstd::prelude::*;

verus! {

/// Timestamp of the earliest representable instant, -262143-01-01T00:00:00Z.
pub const MIN_TIMESTAMP: i64 = -8_334_601_228_800;

/// Timestamp of the last representable second, +262142-12-31T23:59:59Z.
pub const MAX_TIMESTAMP: i64 = 8_210_266_876_799;

/// Whether `secs` whole seconds and `nanos` further nanoseconds after the
/// epoch name a representable instant.
pub open spec fn representable(secs: int, nanos: int) -> bool {
    &&& MIN_TIMESTAMP <= secs <= MAX_TIMESTAMP
    &&& 0 <= nanos < NANOS_PER_SECOND
}

/// The earliest representable instant, in nanoseconds since the epoch.
pub const MIN_NANOS: i128 = -8_334_601_228_800_000_000_000;

/// The nanosecond after the last representable instant.
pub const END_NANOS: i128 = 8_210_266_876_800_000_000_000;

/// Whether an instant lies `nanos` nanoseconds after the epoch for some
/// representable pair of seconds and nanoseconds.
pub open spec fn reachable(nanos: int) -> bool {
    MIN_NANOS <= nanos < END_NANOS
}

/// A point in time, normalized to UTC, with nanosecond precision.
///
/// The value is kept as a Unix timestamp (whole seconds since
/// 1970-01-01T00:00:00Z, rounded down) and the nanoseconds elapsed within
/// that second. Leap seconds have no representation of their own.
#[derive(Clone, Copy, Debug, PartialEq, Eq, Structural)]
pub struct Instant {
    pub(crate) secs: i64,
    pub(crate) nanos: u32,
}

impl View for Instant {
    type V = int;

    /// Nanoseconds elapsed since the epoch; negative before it.
    closed spec fn view(&self) -> int {
        self.secs * NANOS_PER_SECOND + self.nanos
    }
}

impl Instant {
    /// Every instant the program holds is representable.
    #[verifier::type_invariant]
    pub closed spec fn well_formed(self) -> bool {
        representable(self.secs as int, self.nanos as int)
    }

    /// The instant `secs` seconds and `nanos` nanoseconds after the epoch,
    /// or `None` when that pair is not representable.
    pub fn from_timestamp(secs: i64, nanos: u32) -> (r: Option<Instant>)
        ensures
            r is Some <==> representable(secs as int, nanos as int),
            r matches Some(t) ==> t.well_formed() && t@ == secs * NANOS_PER_SECOND + nanos,
    {
        if MIN_TIMESTAMP <= secs && secs <= MAX_TIMESTAMP && nanos < 1_000_000_000 {
            Some(Instant { secs, nanos })
        } else {
            None
        }
    }

    /// A well-formed instant lies within reach, and its timestamp and
    /// nanoseconds are the quotient and remainder of its view by a second.
    pub proof fn lemma_well_formed(self)
        requires
            self.well_formed(),
        ensures
            reachable(self@),
            representable(
                self@ / (NANOS_PER_SECOND as int),
                self@ % (NANOS_PER_SECOND as int),
            ),
    {
    }

    /// 1970-01-01T00:00:00Z.
    pub fn epoch() -> (t: Instant)
        ensures
            t.well_formed(),
            t@ == 0,
    {
        Instant { secs: 0, nanos: 0 }
    }

    /// Whole seconds since the epoch, rounded towards the past.
    pub fn timestamp(&self) -> (secs: i64)
        ensures
            secs == self@ / (NANOS_PER_SECOND as int),
    {
        proof {
            use_type_invariant(self);
        }
        self.secs
    }

    /// Nanoseconds elapsed since the last whole second.
    pub fn subsec_nanos(&self) -> (nanos: u32)
        ensures
            nanos == self@ % (NANOS_PER_SECOND as int),
    {
        proof {
            use_type_invariant(self);
        }
        self.nanos
    }
}

} // verus!
