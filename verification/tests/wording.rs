use tdt::{Breakdown, Instant, TimeDelta};

fn parts(
    years: i64,
    months: i64,
    days: i64,
    hours: i64,
    minutes: i64,
    seconds: i64,
) -> Breakdown {
    Breakdown { years, months, days, hours, minutes, seconds }
}

fn instant(secs: i64, nanos: u32) -> Instant {
    Instant::from_timestamp(secs, nanos).unwrap()
}

#[test]
fn every_unit_in_order() {
    let b = parts(27, 5, 18, 12, 34, 56);
    assert_eq!(b.format(0), "0 seconds");
    assert_eq!(b.format(1), "27 years");
    assert_eq!(b.format(2), "27 years, 5 months");
    assert_eq!(b.format(3), "27 years, 5 months, 18 days");
    assert_eq!(b.format(4), "27 years, 5 months, 18 days, 12 hours");
    assert_eq!(b.format(5), "27 years, 5 months, 18 days, 12 hours, 34 minutes");
    assert_eq!(b.format(6), "27 years, 5 months, 18 days, 12 hours, 34 minutes");
    assert_eq!(b.format(usize::MAX), "27 years, 5 months, 18 days, 12 hours, 34 minutes");
}

#[test]
fn singular_and_plural() {
    assert_eq!(parts(1, 1, 1, 1, 1, 1).format(9), "1 year, 1 month, 1 day, 1 hour, 1 minute");
    assert_eq!(parts(2, 2, 2, 2, 2, 2).format(9), "2 years, 2 months, 2 days, 2 hours, 2 minutes");
    assert_eq!(parts(0, 0, 0, 0, 0, 1).format(1), "1 second");
    assert_eq!(parts(0, 0, 0, 0, 0, 2).format(1), "2 seconds");
    assert_eq!(parts(11, 0, 0, 0, 0, 0).format(1), "11 years");
    assert_eq!(parts(0, 0, 21, 0, 0, 0).format(1), "21 days");
}

#[test]
fn zero_fields_are_skipped() {
    assert_eq!(parts(25, 0, 6, 0, 0, 0).format(3), "25 years, 6 days");
    assert_eq!(parts(0, 3, 0, 4, 0, 0).format(3), "3 months, 4 hours");
    assert_eq!(parts(0, 0, 0, 0, 9, 0).format(3), "9 minutes");
    assert_eq!(parts(7, 0, 0, 0, 9, 30).format(1), "7 years");
    assert_eq!(parts(7, 0, 0, 0, 9, 30).format(2), "7 years, 9 minutes");
}

#[test]
fn seconds_show_only_when_nothing_else_does() {
    assert_eq!(parts(0, 0, 0, 0, 0, 45).format(3), "45 seconds");
    assert_eq!(parts(0, 0, 0, 0, 0, 45).format(1), "45 seconds");
    assert_eq!(parts(0, 0, 0, 0, 0, 45).format(0), "0 seconds");
    assert_eq!(parts(0, 0, 0, 0, 1, 45).format(3), "1 minute");
    assert_eq!(parts(0, 0, 0, 2, 0, 45).format(3), "2 hours");
    assert_eq!(parts(1, 0, 0, 0, 0, 59).format(6), "1 year");
    assert_eq!(parts(0, 0, 0, 0, 0, 0).format(3), "0 seconds");
}

#[test]
fn fields_below_zero_are_not_worded() {
    assert_eq!(parts(-1, -2, -3, -4, -5, -6).format(3), "0 seconds");
    assert_eq!(parts(-1, 2, -3, 4, -5, 6).format(3), "2 months, 4 hours");
    assert_eq!(parts(-1, 0, 0, 0, 0, 6).format(3), "6 seconds");
    assert_eq!(parts(0, 0, 0, 0, 0, -6).format(3), "0 seconds");
    assert_eq!(parts(i64::MIN, i64::MIN, 0, 0, 0, i64::MIN).format(3), "0 seconds");
}

#[test]
fn counts_are_written_in_decimal() {
    assert_eq!(parts(9, 10, 99, 100, 101, 0).format(5), "9 years, 10 months, 99 days, 100 hours, 101 minutes");
    assert_eq!(parts(1_000_000, 0, 0, 0, 0, 0).format(1), "1000000 years");
    assert_eq!(parts(0, 0, 0, 0, 0, 1_234_567_890).format(1), "1234567890 seconds");
    assert_eq!(parts(i64::MAX, 0, 0, 0, 0, 0).format(1), "9223372036854775807 years");
    assert_eq!(
        parts(i64::MAX, i64::MAX, 0, 0, 0, 0).format(2),
        "9223372036854775807 years, 9223372036854775807 months"
    );
    assert_eq!(parts(0, 0, 0, 0, 0, 9_007_199_254_740_993).format(1), "9007199254740993 seconds");
}

#[test]
fn breakdown_of_a_span() {
    // 1998-01-01T00:00:00Z to 2025-06-19T12:34:56Z: 10031 days and a bit.
    let td = TimeDelta::between(instant(883_612_800, 0), instant(1_750_336_496, 0));
    assert_eq!(td.ticks("days").unwrap(), 10_031);
    assert_eq!(td.breakdown(), parts(27, 5, 26, 12, 34, 56));
    assert_eq!(td.pretty(3), "27 years, 5 months, 26 days");
    assert_eq!(td.pretty(5), "27 years, 5 months, 26 days, 12 hours, 34 minutes");
    assert_eq!(td.pretty(6), "27 years, 5 months, 26 days, 12 hours, 34 minutes");
}

#[test]
fn a_year_is_365_days_and_a_month_is_30() {
    let day = 86_400;
    let span = |days: i64| TimeDelta::between(instant(0, 0), instant(days * day, 0));
    assert_eq!(span(29).breakdown(), parts(0, 0, 29, 0, 0, 0));
    assert_eq!(span(30).breakdown(), parts(0, 1, 0, 0, 0, 0));
    assert_eq!(span(359).breakdown(), parts(0, 11, 29, 0, 0, 0));
    assert_eq!(span(360).breakdown(), parts(0, 12, 0, 0, 0, 0));
    assert_eq!(span(364).breakdown(), parts(0, 12, 4, 0, 0, 0));
    assert_eq!(span(365).breakdown(), parts(1, 0, 0, 0, 0, 0));
    assert_eq!(span(366).breakdown(), parts(1, 0, 1, 0, 0, 0));
    assert_eq!(span(364).pretty(3), "12 months, 4 days");
    assert_eq!(span(366).pretty(3), "1 year, 1 day");
}

#[test]
fn short_spans() {
    let span = |secs: i64, nanos: u32| TimeDelta::between(instant(0, 0), instant(secs, nanos));
    assert_eq!(span(0, 999_999_999).pretty(3), "0 seconds");
    assert_eq!(span(1, 0).pretty(3), "1 second");
    assert_eq!(span(59, 999_999_999).pretty(3), "59 seconds");
    assert_eq!(span(60, 0).pretty(3), "1 minute");
    assert_eq!(span(61, 0).pretty(3), "1 minute");
    assert_eq!(span(3_599, 0).pretty(3), "59 minutes");
    assert_eq!(span(3_600, 0).pretty(3), "1 hour");
    assert_eq!(span(86_399, 0).breakdown(), parts(0, 0, 0, 23, 59, 59));
    assert_eq!(span(86_399, 0).pretty(3), "23 hours, 59 minutes");
    assert_eq!(span(86_400, 0).pretty(3), "1 day");
    assert_eq!(span(90_061, 0).breakdown(), parts(0, 0, 1, 1, 1, 1));
    assert_eq!(span(90_061, 0).pretty(2), "1 day, 1 hour");
}

#[test]
fn backward_spans_have_no_positive_field() {
    let td = TimeDelta::between(instant(1_750_336_496, 0), instant(883_612_800, 0));
    assert_eq!(td.breakdown(), parts(-27, -5, -26, -12, -34, -56));
    assert_eq!(td.pretty(3), "0 seconds");

    let short = TimeDelta::between(instant(90_061, 500_000_000), instant(0, 0));
    assert_eq!(short.breakdown(), parts(0, 0, -1, -1, -1, -1));
    assert_eq!(short.pretty(6), "0 seconds");
}

#[test]
fn widest_span_breaks_down() {
    let first = instant(tdt::instant::MIN_TIMESTAMP, 0);
    let last = instant(tdt::instant::MAX_TIMESTAMP, 999_999_999);
    // 191_491_528 days: 524_634 years of 365 days and 118 days over.
    let td = TimeDelta::between(first, last);
    assert_eq!(td.breakdown(), parts(524_634, 3, 28, 23, 59, 59));
    assert_eq!(td.pretty(3), "524634 years, 3 months, 28 days");
    assert_eq!(TimeDelta::between(last, first).breakdown(), parts(-524_634, -3, -28, -23, -59, -59));
}
