//! The calls into `chrono`: reading the clock, measuring between two
//! instants, and stepping from the epoch.
//!
//! Nothing in this file is proved. Each function hands its arguments to
//! `chrono` and its contract records what `chrono` does with them.
//!
//! An [`Instant`] goes over as a `DateTime<Utc>` through
//! `DateTime::from_timestamp`, and comes back through `DateTime::timestamp`
//! and `DateTime::timestamp_subsec_nanos`; `chrono` documents the two
//! directions as each other's inverse. `from_timestamp` accepts every
//! well-formed instant. Between two such values, neither of them a leap
//! second, `chrono` measures the plain difference of the timestamps.

use crate::instant::{reachable, Instant};
use crate::units::{
    div_toward_zero, fits_i64, NANOS_PER_DAY, NANOS_PER_HOUR, NANOS_PER_MICROSECOND,
    NANOS_PER_MILLISECOND, NANOS_PER_MINUTE, NANOS_PER_SECOND,
};
use chrono::{DateTime, Utc};
use vstd::prelude::*;

verus! {

/// `chrono::Utc::now`: the system clock's reading. The reading itself is
/// not predictable; it is always a representable instant without a leap
/// second. `chrono` stops the program when the clock stands before 1970.
#[verifier::external_body]
pub(crate) fn now() -> (t: Instant)
    ensures
        t.well_formed(),
{
    let t = Utc::now();
    Instant { secs: t.timestamp(), nanos: t.timestamp_subsec_nanos() }
}

/// `DateTime::signed_duration_since` and `TimeDelta::num_days`: the whole
/// days from `start` to `end`, rounded towards zero.
#[verifier::external_body]
pub(crate) fn whole_days_between(start: &Instant, end: &Instant) -> (n: i64)
    requires
        start.well_formed(),
        end.well_formed(),
    ensures
        n == div_toward_zero(end@ - start@, NANOS_PER_DAY as int),
{
    let from = DateTime::from_timestamp(start.secs, start.nanos).unwrap();
    let to = DateTime::from_timestamp(end.secs, end.nanos).unwrap();
    to.signed_duration_since(from).num_days()
}

/// `DateTime::signed_duration_since` and `TimeDelta::num_hours`: the whole
/// hours from `start` to `end`, rounded towards zero.
#[verifier::external_body]
pub(crate) fn whole_hours_between(start: &Instant, end: &Instant) -> (n: i64)
    requires
        start.well_formed(),
        end.well_formed(),
    ensures
        n == div_toward_zero(end@ - start@, NANOS_PER_HOUR as int),
{
    let from = DateTime::from_timestamp(start.secs, start.nanos).unwrap();
    let to = DateTime::from_timestamp(end.secs, end.nanos).unwrap();
    to.signed_duration_since(from).num_hours()
}

/// `DateTime::signed_duration_since` and `TimeDelta::num_minutes`: the
/// whole minutes from `start` to `end`, rounded towards zero.
#[verifier::external_body]
pub(crate) fn whole_minutes_between(start: &Instant, end: &Instant) -> (n: i64)
    requires
        start.well_formed(),
        end.well_formed(),
    ensures
        n == div_toward_zero(end@ - start@, NANOS_PER_MINUTE as int),
{
    let from = DateTime::from_timestamp(start.secs, start.nanos).unwrap();
    let to = DateTime::from_timestamp(end.secs, end.nanos).unwrap();
    to.signed_duration_since(from).num_minutes()
}

/// `DateTime::signed_duration_since` and `TimeDelta::num_seconds`: the
/// whole seconds from `start` to `end`, rounded towards zero.
#[verifier::external_body]
pub(crate) fn whole_seconds_between(start: &Instant, end: &Instant) -> (n: i64)
    requires
        start.well_formed(),
        end.well_formed(),
    ensures
        n == div_toward_zero(end@ - start@, NANOS_PER_SECOND as int),
{
    let from = DateTime::from_timestamp(start.secs, start.nanos).unwrap();
    let to = DateTime::from_timestamp(end.secs, end.nanos).unwrap();
    to.signed_duration_since(from).num_seconds()
}

/// `DateTime::signed_duration_since` and `TimeDelta::num_milliseconds`:
/// the whole milliseconds from `start` to `end`, rounded towards zero.
#[verifier::external_body]
pub(crate) fn whole_milliseconds_between(start: &Instant, end: &Instant) -> (n: i64)
    requires
        start.well_formed(),
        end.well_formed(),
    ensures
        n == div_toward_zero(end@ - start@, NANOS_PER_MILLISECOND as int),
{
    let from = DateTime::from_timestamp(start.secs, start.nanos).unwrap();
    let to = DateTime::from_timestamp(end.secs, end.nanos).unwrap();
    to.signed_duration_since(from).num_milliseconds()
}

/// `DateTime::signed_duration_since` and `TimeDelta::num_microseconds`:
/// the whole microseconds from `start` to `end`, rounded towards zero, or
/// `None` when that count is not a value of `i64`.
#[verifier::external_body]
pub(crate) fn whole_microseconds_between(start: &Instant, end: &Instant) -> (n: Option<i64>)
    requires
        start.well_formed(),
        end.well_formed(),
    ensures
        match n {
            Some(v) => v == div_toward_zero(end@ - start@, NANOS_PER_MICROSECOND as int),
            None => !fits_i64(div_toward_zero(end@ - start@, NANOS_PER_MICROSECOND as int)),
        },
{
    let from = DateTime::from_timestamp(start.secs, start.nanos).unwrap();
    let to = DateTime::from_timestamp(end.secs, end.nanos).unwrap();
    to.signed_duration_since(from).num_microseconds()
}

/// `DateTime::signed_duration_since` and `TimeDelta::num_nanoseconds`: the
/// nanoseconds from `start` to `end`, or `None` when that count is not a
/// value of `i64`.
#[verifier::external_body]
pub(crate) fn whole_nanoseconds_between(start: &Instant, end: &Instant) -> (n: Option<i64>)
    requires
        start.well_formed(),
        end.well_formed(),
    ensures
        match n {
            Some(v) => v == end@ - start@,
            None => !fits_i64(end@ - start@),
        },
{
    let from = DateTime::from_timestamp(start.secs, start.nanos).unwrap();
    let to = DateTime::from_timestamp(end.secs, end.nanos).unwrap();
    to.signed_duration_since(from).num_nanoseconds()
}

/// `TimeDelta::hours` added to `DateTime::UNIX_EPOCH`: the instant `count`
/// hours after the epoch. `chrono` panics when that instant is out of
/// range.
#[verifier::external_body]
pub(crate) fn epoch_plus_hours(count: i64) -> (t: Instant)
    requires
        reachable(count * NANOS_PER_HOUR),
    ensures
        t.well_formed(),
        t@ == count * NANOS_PER_HOUR,
{
    let t = DateTime::UNIX_EPOCH + chrono::TimeDelta::hours(count);
    Instant { secs: t.timestamp(), nanos: t.timestamp_subsec_nanos() }
}

/// `TimeDelta::minutes` added to `DateTime::UNIX_EPOCH`: the instant
/// `count` minutes after the epoch. `chrono` panics when that instant is
/// out of range.
#[verifier::external_body]
pub(crate) fn epoch_plus_minutes(count: i64) -> (t: Instant)
    requires
        reachable(count * NANOS_PER_MINUTE),
    ensures
        t.well_formed(),
        t@ == count * NANOS_PER_MINUTE,
{
    let t = DateTime::UNIX_EPOCH + chrono::TimeDelta::minutes(count);
    Instant { secs: t.timestamp(), nanos: t.timestamp_subsec_nanos() }
}

/// `TimeDelta::seconds` added to `DateTime::UNIX_EPOCH`: the instant
/// `count` seconds after the epoch. `chrono` panics when that instant is
/// out of range.
#[verifier::external_body]
pub(crate) fn epoch_plus_seconds(count: i64) -> (t: Instant)
    requires
        reachable(count * NANOS_PER_SECOND),
    ensures
        t.well_formed(),
        t@ == count * NANOS_PER_SECOND,
{
    let t = DateTime::UNIX_EPOCH + chrono::TimeDelta::seconds(count);
    Instant { secs: t.timestamp(), nanos: t.timestamp_subsec_nanos() }
}

/// `TimeDelta::milliseconds` added to `DateTime::UNIX_EPOCH`: the instant
/// `count` milliseconds after the epoch. `chrono` panics when that instant
/// is out of range.
#[verifier::external_body]
pub(crate) fn epoch_plus_milliseconds(count: i64) -> (t: Instant)
    requires
        reachable(count * NANOS_PER_MILLISECOND),
    ensures
        t.well_formed(),
        t@ == count * NANOS_PER_MILLISECOND,
{
    let t = DateTime::UNIX_EPOCH + chrono::TimeDelta::milliseconds(count);
    Instant { secs: t.timestamp(), nanos: t.timestamp_subsec_nanos() }
}

/// `TimeDelta::microseconds` added to `DateTime::UNIX_EPOCH`: the instant
/// `count` microseconds after the epoch. `chrono` panics when that instant
/// is out of range.
#[verifier::external_body]
pub(crate) fn epoch_plus_microseconds(count: i64) -> (t: Instant)
    requires
        reachable(count * NANOS_PER_MICROSECOND),
    ensures
        t.well_formed(),
        t@ == count * NANOS_PER_MICROSECOND,
{
    let t = DateTime::UNIX_EPOCH + chrono::TimeDelta::microseconds(count);
    Instant { secs: t.timestamp(), nanos: t.timestamp_subsec_nanos() }
}

/// `TimeDelta::nanoseconds` added to `DateTime::UNIX_EPOCH`: the instant
/// `count` nanoseconds after the epoch. Every `i64` count stays in range.
#[verifier::external_body]
pub(crate) fn epoch_plus_nanoseconds(count: i64) -> (t: Instant)
    ensures
        t.well_formed(),
        t@ == count,
{
    let t = DateTime::UNIX_EPOCH + chrono::TimeDelta::nanoseconds(count);
    Instant { secs: t.timestamp(), nanos: t.timestamp_subsec_nanos() }
}

} // verus!
