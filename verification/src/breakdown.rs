//! The approximate calendar breakdown of a span, and its wording.

use crate::units::{
    div_toward_zero, rem_toward_zero, NANOS_PER_DAY, NANOS_PER_HOUR, NANOS_PER_MINUTE,
    NANOS_PER_SECOND,
};
use vstd::prelude::*;

verus! {

/// Days in a year of the breakdown. Leap years are not counted.
pub const DAYS_PER_YEAR: i64 = 365;

/// Days in a month of the breakdown, whatever the month.
pub const DAYS_PER_MONTH: i64 = 30;

/// A span split into years, months, days, hours, minutes and seconds.
///
/// The split is a rough one: a year is 365 days and a month is 30 days.
/// Each field is taken from the whole span on its own, with quotients and
/// remainders rounded towards zero, so no field of a negative span is
/// positive.
#[derive(Clone, Copy, Debug, PartialEq, Eq, Structural)]
pub struct Breakdown {
    pub years: i64,
    pub months: i64,
    pub days: i64,
    pub hours: i64,
    pub minutes: i64,
    pub seconds: i64,
}

/// The breakdown of a span of `span` nanoseconds. Every field fits in an
/// `i64` with room to spare when the span lies between two representable
/// instants.
pub open spec fn breakdown_of(span: int) -> Breakdown {
    let total_days = div_toward_zero(span, NANOS_PER_DAY as int);
    let days_of_year = rem_toward_zero(total_days, DAYS_PER_YEAR as int);
    Breakdown {
        years: div_toward_zero(total_days, DAYS_PER_YEAR as int) as i64,
        months: div_toward_zero(days_of_year, DAYS_PER_MONTH as int) as i64,
        days: rem_toward_zero(days_of_year, DAYS_PER_MONTH as int) as i64,
        hours: rem_toward_zero(div_toward_zero(span, NANOS_PER_HOUR as int), 24) as i64,
        minutes: rem_toward_zero(div_toward_zero(span, NANOS_PER_MINUTE as int), 60) as i64,
        seconds: rem_toward_zero(div_toward_zero(span, NANOS_PER_SECOND as int), 60) as i64,
    }
}

/// The character that stands for the digit `d`, for `d` from 0 to 9.
pub open spec fn digit(d: int) -> char {
    if d == 0 {
        '0'
    } else if d == 1 {
        '1'
    } else if d == 2 {
        '2'
    } else if d == 3 {
        '3'
    } else if d == 4 {
        '4'
    } else if d == 5 {
        '5'
    } else if d == 6 {
        '6'
    } else if d == 7 {
        '7'
    } else if d == 8 {
        '8'
    } else {
        '9'
    }
}

/// `n` written in decimal, without leading zeros.
pub open spec fn decimal(n: nat) -> Seq<char>
    decreases n,
{
    if n < 10 {
        seq![digit(n as int)]
    } else {
        decimal(n / 10).push(digit((n % 10) as int))
    }
}

/// A count with its unit: `"1 year"`, `"2 months"`. The unit takes an `s`
/// unless the count is one.
pub open spec fn phrase(count: int, unit: Seq<char>) -> Seq<char> {
    decimal(count as nat) + seq![' '] + unit + if count != 1 {
        seq!['s']
    } else {
        seq![]
    }
}

/// The phrase for `count`, if `count` is positive; nothing otherwise.
pub open spec fn phrase_if_positive(count: int, unit: Seq<char>) -> Seq<Seq<char>> {
    if count > 0 {
        seq![phrase(count, unit)]
    } else {
        seq![]
    }
}

/// The phrases of `parts` in order, with `", "` between neighbours.
pub open spec fn joined(parts: Seq<Seq<char>>) -> Seq<char>
    decreases parts.len(),
{
    if parts.len() == 0 {
        seq![]
    } else if parts.len() == 1 {
        parts[0]
    } else {
        joined(parts.drop_last()) + seq![',', ' '] + parts.last()
    }
}

/// What each string of `strings` holds.
spec fn texts(strings: Seq<String>) -> Seq<Seq<char>> {
    Seq::new(strings.len(), |i: int| strings[i]@)
}

impl Breakdown {
    /// The phrases that the breakdown can be worded with, largest unit
    /// first: one for each positive field from years to minutes, or, when
    /// there is none of those, one for the seconds if they are positive.
    pub open spec fn phrases(self) -> Seq<Seq<char>> {
        let above_seconds = phrase_if_positive(self.years as int, "year"@) + phrase_if_positive(
            self.months as int,
            "month"@,
        ) + phrase_if_positive(self.days as int, "day"@) + phrase_if_positive(
            self.hours as int,
            "hour"@,
        ) + phrase_if_positive(self.minutes as int, "minute"@);
        if above_seconds.len() == 0 {
            phrase_if_positive(self.seconds as int, "second"@)
        } else {
            above_seconds
        }
    }

    /// The wording of the breakdown in at most `max_units` phrases: the
    /// first `max_units` of `phrases`, joined, or `"0 seconds"` when that
    /// leaves nothing.
    pub open spec fn text(self, max_units: nat) -> Seq<char> {
        let all = self.phrases();
        let shown = if max_units < all.len() {
            all.take(max_units as int)
        } else {
            all
        };
        if shown.len() == 0 {
            "0 seconds"@
        } else {
            joined(shown)
        }
    }

    /// Words the breakdown in at most `max_units` phrases, such as
    /// `"25 years, 6 days"`.
    pub fn format(&self, max_units: usize) -> (text: String)
        ensures
            text@ == self.text(max_units as nat),
    {
        let mut parts: Vec<String> = Vec::new();
        if self.years > 0 {
            parts.push(worded(self.years, "year"));
            assert(texts(parts@) =~= phrase_if_positive(self.years as int, "year"@));
        }
        assert(texts(parts@) =~= phrase_if_positive(self.years as int, "year"@));
        let ghost after_years = texts(parts@);
        if self.months > 0 {
            parts.push(worded(self.months, "month"));
        }
        assert(texts(parts@) =~= after_years + phrase_if_positive(self.months as int, "month"@));
        let ghost after_months = texts(parts@);
        if self.days > 0 {
            parts.push(worded(self.days, "day"));
        }
        assert(texts(parts@) =~= after_months + phrase_if_positive(self.days as int, "day"@));
        let ghost after_days = texts(parts@);
        if self.hours > 0 {
            parts.push(worded(self.hours, "hour"));
        }
        assert(texts(parts@) =~= after_days + phrase_if_positive(self.hours as int, "hour"@));
        let ghost after_hours = texts(parts@);
        if self.minutes > 0 {
            parts.push(worded(self.minutes, "minute"));
        }
        assert(texts(parts@) =~= after_hours + phrase_if_positive(
            self.minutes as int,
            "minute"@,
        ));
        if self.seconds > 0 && parts.len() == 0 {
            parts.push(worded(self.seconds, "second"));
        }
        assert(texts(parts@) =~= self.phrases());

        let shown = if max_units < parts.len() {
            max_units
        } else {
            parts.len()
        };
        if shown == 0 {
            return String::from_str("0 seconds");
        }
        let ghost wanted = self.phrases().take(shown as int);
        assert(shown == parts@.len() ==> wanted =~= self.phrases());
        let mut text = String::from_str(parts[0].as_str());
        assert(wanted.take(1) =~= seq![parts@[0]@]);
        let mut i: usize = 1;
        while i < shown
            invariant
                1 <= i <= shown <= parts@.len(),
                wanted == self.phrases().take(shown as int),
                texts(parts@) == self.phrases(),
                text@ == joined(wanted.take(i as int)),
            decreases shown - i,
        {
            text.append(", ");
            text.append(parts[i].as_str());
            proof {
                reveal_strlit(", ");
                let next = wanted.take(i + 1);
                assert(next.drop_last() =~= wanted.take(i as int));
                assert(next.last() == parts@[i as int]@);
                assert(", "@ =~= seq![',', ' ']);
            }
            i += 1;
        }
        assert(wanted.take(shown as int) =~= wanted);
        text
    }
}

/// The text for one decimal digit.
fn digit_text(d: u64) -> (s: &'static str)
    requires
        d < 10,
    ensures
        s@ == seq![digit(d as int)],
{
    proof {
        reveal_strlit("0");
        reveal_strlit("1");
        reveal_strlit("2");
        reveal_strlit("3");
        reveal_strlit("4");
        reveal_strlit("5");
        reveal_strlit("6");
        reveal_strlit("7");
        reveal_strlit("8");
        reveal_strlit("9");
    }
    let s = if d == 0 {
        "0"
    } else if d == 1 {
        "1"
    } else if d == 2 {
        "2"
    } else if d == 3 {
        "3"
    } else if d == 4 {
        "4"
    } else if d == 5 {
        "5"
    } else if d == 6 {
        "6"
    } else if d == 7 {
        "7"
    } else if d == 8 {
        "8"
    } else {
        "9"
    };
    assert(s@ =~= seq![digit(d as int)]);
    s
}

/// Appends `n` in decimal to `out`.
fn push_decimal(out: &mut String, n: u64)
    ensures
        final(out)@ == old(out)@ + decimal(n as nat),
    decreases n,
{
    if n >= 10 {
        push_decimal(out, n / 10);
    }
    out.append(digit_text(n % 10));
}

/// The phrase for a positive `count` of `unit`.
fn worded(count: i64, unit: &str) -> (s: String)
    requires
        count > 0,
    ensures
        s@ == phrase(count as int, unit@),
{
    let mut s = String::new();
    push_decimal(&mut s, count as u64);
    s.append(" ");
    s.append(unit);
    if count != 1 {
        s.append("s");
    }
    proof {
        reveal_strlit(" ");
        reveal_strlit("s");
        assert(" "@ =~= seq![' ']);
        assert("s"@ =~= seq!['s']);
    }
    s
}

} // verus!
