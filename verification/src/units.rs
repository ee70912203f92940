//! Tick units: their names, their lengths, and counting in them.

use vstd::prelude::*;
use vstd::utf8::encode_utf8_decode_utf8;

verus! {

/// Nanoseconds in one microsecond.
pub const NANOS_PER_MICROSECOND: i64 = 1_000;

/// Nanoseconds in one millisecond.
pub const NANOS_PER_MILLISECOND: i64 = 1_000_000;

/// Nanoseconds in one second.
pub const NANOS_PER_SECOND: i64 = 1_000_000_000;

/// Nanoseconds in one minute.
pub const NANOS_PER_MINUTE: i64 = 60_000_000_000;

/// Nanoseconds in one hour.
pub const NANOS_PER_HOUR: i64 = 3_600_000_000_000;

/// Nanoseconds in one day of 24 hours.
pub const NANOS_PER_DAY: i64 = 86_400_000_000_000;

/// The quotient of `a` by a positive `b`, rounded towards zero.
pub open spec fn div_toward_zero(a: int, b: int) -> int {
    if a >= 0 {
        a / b
    } else {
        -((-a) / b)
    }
}

/// What `div_toward_zero` leaves over; it has the sign of `a` or is zero.
pub open spec fn rem_toward_zero(a: int, b: int) -> int {
    a - b * div_toward_zero(a, b)
}

/// Length in nanoseconds of the unit called `unit`, for the seven names
/// that ticks can be counted in. Names are matched exactly.
pub open spec fn unit_nanos(unit: Seq<char>) -> Option<int> {
    if unit == "days"@ {
        Some(NANOS_PER_DAY as int)
    } else if unit == "hours"@ {
        Some(NANOS_PER_HOUR as int)
    } else if unit == "minutes"@ {
        Some(NANOS_PER_MINUTE as int)
    } else if unit == "seconds"@ {
        Some(NANOS_PER_SECOND as int)
    } else if unit == "milliseconds"@ {
        Some(NANOS_PER_MILLISECOND as int)
    } else if unit == "microseconds"@ {
        Some(NANOS_PER_MICROSECOND as int)
    } else if unit == "nanoseconds"@ {
        Some(1int)
    } else {
        None
    }
}

/// Whether ticks can be counted in `unit`.
pub open spec fn is_tick_unit(unit: Seq<char>) -> bool {
    unit_nanos(unit) is Some
}

/// Whether a count in `unit` is replaced by `i64::MAX` when it does not fit
/// in an `i64`. Only the two finest units can run out of room.
pub open spec fn saturating_unit(unit: Seq<char>) -> bool {
    unit == "microseconds"@ || unit == "nanoseconds"@
}

/// Whether `n` is a value of `i64`.
pub open spec fn fits_i64(n: int) -> bool {
    i64::MIN <= n <= i64::MAX
}

/// The number of whole `unit`s in a span of `span` nanoseconds, rounded
/// towards zero; `None` for a name that is not a tick unit. A count of
/// microseconds or nanoseconds too large for an `i64`, in either direction,
/// is given as `i64::MAX`.
pub open spec fn tick_count(span: int, unit: Seq<char>) -> Option<int> {
    match unit_nanos(unit) {
        Some(per) => {
            let whole = div_toward_zero(span, per);
            if saturating_unit(unit) && !fits_i64(whole) {
                Some(i64::MAX as int)
            } else {
                Some(whole)
            }
        },
        None => None,
    }
}

/// Length in nanoseconds of one tick when a span is built from a count:
/// six names have a length of their own, every other name counts
/// nanoseconds.
pub open spec fn tick_nanos(unit: Seq<char>) -> int {
    if unit == "nanoseconds"@ {
        1
    } else if unit == "microseconds"@ {
        NANOS_PER_MICROSECOND as int
    } else if unit == "milliseconds"@ {
        NANOS_PER_MILLISECOND as int
    } else if unit == "seconds"@ {
        NANOS_PER_SECOND as int
    } else if unit == "minutes"@ {
        NANOS_PER_MINUTE as int
    } else if unit == "hours"@ {
        NANOS_PER_HOUR as int
    } else {
        1
    }
}

/// The length of one tick of `unit` for building a span: `tick_nanos`,
/// computed.
pub(crate) fn tick_length(unit: &str) -> (per: i64)
    ensures
        per == tick_nanos(unit@),
        1 <= per <= NANOS_PER_HOUR,
{
    if same_text(unit, "nanoseconds") {
        1
    } else if same_text(unit, "microseconds") {
        NANOS_PER_MICROSECOND
    } else if same_text(unit, "milliseconds") {
        NANOS_PER_MILLISECOND
    } else if same_text(unit, "seconds") {
        NANOS_PER_SECOND
    } else if same_text(unit, "minutes") {
        NANOS_PER_MINUTE
    } else if same_text(unit, "hours") {
        NANOS_PER_HOUR
    } else {
        1
    }
}

/// Whether two strings hold the same characters.
pub(crate) fn same_text(a: &str, b: &str) -> (same: bool)
    ensures
        same == (a@ == b@),
{
    let x = a.as_bytes();
    let y = b.as_bytes();
    proof {
        encode_utf8_decode_utf8(a@);
        encode_utf8_decode_utf8(b@);
    }
    if x.len() != y.len() {
        return false;
    }
    let mut i: usize = 0;
    while i < x.len()
        invariant
            x@.len() == y@.len(),
            i <= x@.len(),
            forall|j: int| 0 <= j < i ==> x@[j] == y@[j],
            a@ == b@ ==> x@ == y@,
        decreases x@.len() - i,
    {
        if x[i] != y[i] {
            return false;
        }
        i += 1;
    }
    assert(x@ =~= y@);
    true
}

/// The seven tick units are distinct names, so each has the length that
/// its name says.
pub proof fn lemma_unit_lengths()
    ensures
        unit_nanos("days"@) == Some(NANOS_PER_DAY as int),
        unit_nanos("hours"@) == Some(NANOS_PER_HOUR as int),
        unit_nanos("minutes"@) == Some(NANOS_PER_MINUTE as int),
        unit_nanos("seconds"@) == Some(NANOS_PER_SECOND as int),
        unit_nanos("milliseconds"@) == Some(NANOS_PER_MILLISECOND as int),
        unit_nanos("microseconds"@) == Some(NANOS_PER_MICROSECOND as int),
        unit_nanos("nanoseconds"@) == Some(1int),
        tick_nanos("hours"@) == NANOS_PER_HOUR,
        tick_nanos("minutes"@) == NANOS_PER_MINUTE,
        tick_nanos("seconds"@) == NANOS_PER_SECOND,
        tick_nanos("milliseconds"@) == NANOS_PER_MILLISECOND,
        tick_nanos("microseconds"@) == NANOS_PER_MICROSECOND,
        tick_nanos("nanoseconds"@) == 1,
        !saturating_unit("days"@),
        !saturating_unit("hours"@),
        !saturating_unit("minutes"@),
        !saturating_unit("seconds"@),
        !saturating_unit("milliseconds"@),
{
    reveal_strlit("days");
    reveal_strlit("hours");
    reveal_strlit("minutes");
    reveal_strlit("seconds");
    reveal_strlit("milliseconds");
    reveal_strlit("microseconds");
    reveal_strlit("nanoseconds");
    assert("days"@.len() == 4);
    assert("hours"@.len() == 5);
    assert("minutes"@.len() == 7 && "minutes"@[0] == 'm');
    assert("seconds"@.len() == 7 && "seconds"@[0] == 's');
    assert("milliseconds"@.len() == 12 && "milliseconds"@[2] == 'l');
    assert("microseconds"@.len() == 12 && "microseconds"@[2] == 'c');
    assert("nanoseconds"@.len() == 11);
}

} // verus!
