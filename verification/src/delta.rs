//! The span between two instants, and its count in ticks.

use crate::breakdown::{breakdown_of, Breakdown, DAYS_PER_MONTH, DAYS_PER_YEAR};
use crate::calendar::{
    epoch_plus_hours, epoch_plus_microseconds, epoch_plus_milliseconds, epoch_plus_minutes,
    epoch_plus_nanoseconds, epoch_plus_seconds, now, whole_days_between, whole_hours_between,
    whole_microseconds_between, whole_milliseconds_between, whole_minutes_between,
    whole_nanoseconds_between, whole_seconds_between,
};
use crate::instant::{reachable, Instant, END_NANOS, MIN_NANOS};
use crate::units::{
    is_tick_unit, same_text, tick_count, tick_length, tick_nanos, NANOS_PER_HOUR,
};
use vstd::prelude::*;

verus! {

/// A directed span of time: from `start` to `end`. Nothing orders the two;
/// where `start` is the later one the span is negative.
#[derive(Clone, Copy, Debug, PartialEq, Eq)]
pub struct TimeDelta {
    start: Instant,
    end: Instant,
}

impl View for TimeDelta {
    type V = (int, int);

    /// The two ends, each in nanoseconds since the epoch: start, then end.
    closed spec fn view(&self) -> (int, int) {
        (self.start@, self.end@)
    }
}

/// A unit name in which no ticks can be counted.
#[derive(Debug)]
pub struct UnsupportedUnit {
    /// The name that was asked for.
    pub unit: String,
}

impl UnsupportedUnit {
    /// The complaint about the name, for a person to read.
    pub fn message(&self) -> (text: String)
        ensures
            text@ == "Unsupported unit: "@ + self.unit@,
    {
        let mut text = String::from_str("Unsupported unit: ");
        text.append(self.unit.as_str());
        text
    }
}

impl TimeDelta {
    /// Nanoseconds from start to end; negative when the span runs
    /// backwards.
    pub open spec fn elapsed(&self) -> int {
        self@.1 - self@.0
    }

    /// The instant at which the span starts.
    pub fn start(&self) -> (t: Instant)
        ensures
            t@ == self@.0,
            reachable(self@.0),
    {
        proof {
            use_type_invariant(&self.start);
            self.start.lemma_well_formed();
        }
        self.start
    }

    /// The instant at which the span ends.
    pub fn end(&self) -> (t: Instant)
        ensures
            t@ == self@.1,
            reachable(self@.1),
    {
        proof {
            use_type_invariant(&self.end);
            self.end.lemma_well_formed();
        }
        self.end
    }

    /// Whether the span runs backwards: its end lies before its start.
    pub fn is_negative(&self) -> (negative: bool)
        ensures
            negative == (self.elapsed() < 0),
    {
        proof {
            use_type_invariant(&self.start);
            use_type_invariant(&self.end);
        }
        self.end.timestamp() < self.start.timestamp() || (self.end.timestamp()
            == self.start.timestamp() && self.end.subsec_nanos() < self.start.subsec_nanos())
    }

    /// The span from the epoch to the present moment.
    pub fn from_now() -> (r: Self)
        ensures
            r@.0 == 0,
    {
        Self::between(Instant::epoch(), now())
    }

    /// The span from `start` to `end`.
    pub fn between(start: Instant, end: Instant) -> (r: Self)
        ensures
            r@ == (start@, end@),
    {
        TimeDelta { start, end }
    }

    /// The span from `start` to the present moment.
    pub fn until_now(start: Instant) -> (r: Self)
        ensures
            r@.0 == start@,
    {
        Self::between(start, now())
    }

    /// The number of whole `unit`s in the span, rounded towards zero.
    ///
    /// `unit` is one of `"days"`, `"hours"`, `"minutes"`, `"seconds"`,
    /// `"milliseconds"`, `"microseconds"` and `"nanoseconds"`; any other
    /// name is an error. A count of microseconds or nanoseconds that does
    /// not fit in an `i64` is given as `i64::MAX`.
    pub fn ticks(&self, unit: &str) -> (r: Result<i64, UnsupportedUnit>)
        ensures
            r is Ok <==> is_tick_unit(unit@),
            r matches Ok(n) ==> tick_count(self.elapsed(), unit@) == Some(n as int),
            r matches Err(e) ==> e.unit@ == unit@,
    {
        proof {
            use_type_invariant(&self.start);
            use_type_invariant(&self.end);
        }
        if same_text(unit, "days") {
            Ok(whole_days_between(&self.start, &self.end))
        } else if same_text(unit, "hours") {
            Ok(whole_hours_between(&self.start, &self.end))
        } else if same_text(unit, "minutes") {
            Ok(whole_minutes_between(&self.start, &self.end))
        } else if same_text(unit, "seconds") {
            Ok(whole_seconds_between(&self.start, &self.end))
        } else if same_text(unit, "milliseconds") {
            Ok(whole_milliseconds_between(&self.start, &self.end))
        } else if same_text(unit, "microseconds") {
            match whole_microseconds_between(&self.start, &self.end) {
                Some(n) => Ok(n),
                None => Ok(i64::MAX),
            }
        } else if same_text(unit, "nanoseconds") {
            match whole_nanoseconds_between(&self.start, &self.end) {
                Some(n) => Ok(n),
                None => Ok(i64::MAX),
            }
        } else {
            Err(UnsupportedUnit { unit: String::from_str(unit) })
        }
    }

    /// The span split into years of 365 days, months of 30 days, and the
    /// days, hours, minutes and seconds that are left.
    pub fn breakdown(&self) -> (b: Breakdown)
        ensures
            b == breakdown_of(self.elapsed()),
    {
        proof {
            use_type_invariant(&self.start);
            use_type_invariant(&self.end);
        }
        let total_days = whole_days_between(&self.start, &self.end);
        let days_of_year = total_days % DAYS_PER_YEAR;
        Breakdown {
            years: total_days / DAYS_PER_YEAR,
            months: days_of_year / DAYS_PER_MONTH,
            days: days_of_year % DAYS_PER_MONTH,
            hours: whole_hours_between(&self.start, &self.end) % 24,
            minutes: whole_minutes_between(&self.start, &self.end) % 60,
            seconds: whole_seconds_between(&self.start, &self.end) % 60,
        }
    }

    /// The breakdown of the span, worded in at most `max_units` phrases:
    /// `"27 years, 5 months, 18 days"`.
    pub fn pretty(&self, max_units: usize) -> (text: String)
        ensures
            text@ == breakdown_of(self.elapsed()).text(max_units as nat),
    {
        self.breakdown().format(max_units)
    }

    /// The span that starts at the epoch and lasts `ticks` units.
    ///
    /// `"hours"`, `"minutes"`, `"seconds"`, `"milliseconds"`,
    /// `"microseconds"` and `"nanoseconds"` are taken at their length. Every
    /// other name, `"days"` among them, counts nanoseconds: that is what
    /// this constructor does with a name it has no length for, where
    /// [`TimeDelta::ticks`] reports an error.
    pub fn from_ticks(ticks: i64, unit: &str) -> (r: Self)
        requires
            reachable(ticks * tick_nanos(unit@)),
        ensures
            r@ == (0int, ticks * tick_nanos(unit@)),
    {
        let end = if same_text(unit, "nanoseconds") {
            epoch_plus_nanoseconds(ticks)
        } else if same_text(unit, "microseconds") {
            epoch_plus_microseconds(ticks)
        } else if same_text(unit, "milliseconds") {
            epoch_plus_milliseconds(ticks)
        } else if same_text(unit, "seconds") {
            epoch_plus_seconds(ticks)
        } else if same_text(unit, "minutes") {
            epoch_plus_minutes(ticks)
        } else if same_text(unit, "hours") {
            epoch_plus_hours(ticks)
        } else {
            epoch_plus_nanoseconds(ticks)
        };
        Self::between(Instant::epoch(), end)
    }

    /// `from_ticks` for every count: the span that starts at the epoch and
    /// lasts `ticks` units, or `None` when its end would not be a
    /// representable instant.
    pub fn checked_from_ticks(ticks: i64, unit: &str) -> (r: Option<Self>)
        ensures
            r is Some <==> reachable(ticks * tick_nanos(unit@)),
            r matches Some(t) ==> t@ == (0int, ticks * tick_nanos(unit@)),
    {
        let per = tick_length(unit);
        assert(-0x8000_0000_0000_0000 * NANOS_PER_HOUR <= ticks * per <= 0x8000_0000_0000_0000
            * NANOS_PER_HOUR) by (nonlinear_arith)
            requires
                1 <= per <= NANOS_PER_HOUR,
                -0x8000_0000_0000_0000 <= ticks < 0x8000_0000_0000_0000,
        ;
        let span: i128 = (ticks as i128) * (per as i128);
        if MIN_NANOS <= span && span < END_NANOS {
            Some(Self::from_ticks(ticks, unit))
        } else {
            None
        }
    }
}

} // verus!
