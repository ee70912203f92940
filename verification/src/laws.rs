//! What holds of every span, whatever its ends.

use crate::breakdown::{breakdown_of, Breakdown};
use crate::delta::TimeDelta;
use crate::instant::{reachable, Instant};
use crate::units::{
    div_toward_zero, lemma_unit_lengths, rem_toward_zero, tick_count, tick_nanos,
    NANOS_PER_MILLISECOND, NANOS_PER_SECOND,
};
use vstd::prelude::*;

verus! {

/// Seconds follow the direction of a span. From an instant to a later or
/// equal one the count is not negative, the other way round it is not
/// positive; and turning a span round turns the sign of its count.
pub proof fn law_seconds_follow_direction(
    a: Instant,
    b: Instant,
    forward: TimeDelta,
    backward: TimeDelta,
)
    requires
        a@ <= b@,
        forward@ == (a@, b@),
        backward@ == (b@, a@),
    ensures
        tick_count(forward.elapsed(), "seconds"@) matches Some(n) && n >= 0,
        tick_count(backward.elapsed(), "seconds"@) matches Some(n) && n <= 0,
        tick_count(forward.elapsed(), "seconds"@) matches Some(n) && tick_count(
            backward.elapsed(),
            "seconds"@,
        ) == Some(-n),
{
    lemma_unit_lengths();
}

/// Milliseconds against seconds. The count of milliseconds is a thousand
/// times the count of seconds exactly when the span goes less than a
/// millisecond past its last whole second; otherwise it lies further from
/// zero, by less than a thousand.
pub proof fn law_milliseconds_scale_seconds(t: TimeDelta)
    ensures
        tick_count(t.elapsed(), "milliseconds"@) matches Some(ms) && tick_count(
            t.elapsed(),
            "seconds"@,
        ) matches Some(s) && {
            let beyond = rem_toward_zero(t.elapsed(), NANOS_PER_SECOND as int);
            &&& ms == 1000 * s <==> -NANOS_PER_MILLISECOND < beyond < NANOS_PER_MILLISECOND
            &&& ms - 1000 * s == div_toward_zero(beyond, NANOS_PER_MILLISECOND as int)
            &&& t.elapsed() >= 0 ==> 1000 * s <= ms < 1000 * s + 1000
            &&& t.elapsed() <= 0 ==> 1000 * s - 1000 < ms <= 1000 * s
        },
{
    lemma_unit_lengths();
}

/// A span built from a count gives that count back, for each of the six
/// units that `from_ticks` takes at their length. The count comes back as
/// it went in: a span built from an `i64` never saturates in its own unit.
pub proof fn law_ticks_round_trip(n: i64, unit: Seq<char>, built: TimeDelta)
    requires
        unit == "nanoseconds"@ || unit == "microseconds"@ || unit == "milliseconds"@ || unit
            == "seconds"@ || unit == "minutes"@ || unit == "hours"@,
        built@ == (0int, n * tick_nanos(unit)),
    ensures
        tick_count(built.elapsed(), unit) == Some(n as int),
{
    lemma_unit_lengths();
    let per = tick_nanos(unit);
    assert(built.elapsed() == n * per);
    assert(div_toward_zero(n * per, per) == n) by {
        if unit == "nanoseconds"@ {
            assert(div_toward_zero(n * 1, 1) == n);
        } else if unit == "microseconds"@ {
            assert(div_toward_zero(n * 1_000, 1_000) == n);
        } else if unit == "milliseconds"@ {
            assert(div_toward_zero(n * 1_000_000, 1_000_000) == n);
        } else if unit == "seconds"@ {
            assert(div_toward_zero(n * 1_000_000_000, 1_000_000_000) == n);
        } else if unit == "minutes"@ {
            assert(div_toward_zero(n * 60_000_000_000, 60_000_000_000) == n);
        } else {
            assert(div_toward_zero(n * 3_600_000_000_000, 3_600_000_000_000) == n);
        }
    }
}

/// A name that `from_ticks` has no length for counts nanoseconds.
pub proof fn law_unnamed_unit_counts_nanoseconds(unit: Seq<char>)
    requires
        unit != "microseconds"@,
        unit != "milliseconds"@,
        unit != "seconds"@,
        unit != "minutes"@,
        unit != "hours"@,
    ensures
        tick_nanos(unit) == tick_nanos("nanoseconds"@),
        tick_nanos(unit) == 1,
{
}

/// With room for no unit at all, every breakdown reads `"0 seconds"`.
pub proof fn law_no_units_reads_zero_seconds(b: Breakdown)
    ensures
        b.text(0) == "0 seconds"@,
{
}

/// A span of no length breaks down into zeros and reads `"0 seconds"`,
/// however many units are allowed.
pub proof fn law_empty_span_reads_zero_seconds(t: TimeDelta, max_units: nat)
    requires
        t@.0 == t@.1,
    ensures
        breakdown_of(t.elapsed()) == (Breakdown {
            years: 0,
            months: 0,
            days: 0,
            hours: 0,
            minutes: 0,
            seconds: 0,
        }),
        breakdown_of(t.elapsed()).text(max_units) == "0 seconds"@,
{
}

/// No field of a breakdown points against the span: a span that runs
/// forwards has no negative field, one that runs backwards no positive one.
/// Months stay within twelve, days within a month, hours within a day,
/// minutes and seconds within sixty.
pub proof fn law_breakdown_follows_direction(t: TimeDelta)
    requires
        reachable(t@.0),
        reachable(t@.1),
    ensures
        ({
            let b = breakdown_of(t.elapsed());
            &&& t.elapsed() >= 0 ==> b.years >= 0 && 0 <= b.months <= 12 && 0 <= b.days < 30 && 0
                <= b.hours < 24 && 0 <= b.minutes < 60 && 0 <= b.seconds < 60
            &&& t.elapsed() <= 0 ==> b.years <= 0 && -12 <= b.months <= 0 && -30 < b.days <= 0
                && -24 < b.hours <= 0 && -60 < b.minutes <= 0 && -60 < b.seconds <= 0
        }),
{
}

} // verus!
