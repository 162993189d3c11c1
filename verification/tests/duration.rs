use toggl_tally::duration::Duration;

#[test]
fn seconds_round_trip() {
    for secs in [0i64, 1, 59, 60, 3661, 7200, 86_400, i64::MAX] {
        assert_eq!(Duration::seconds(secs).num_seconds(), secs);
    }
}

#[test]
fn negative_seconds_round_trip() {
    for secs in [-1i64, -3661, -1_705_276_800, i64::MIN] {
        assert_eq!(Duration::seconds(secs).num_seconds(), secs);
    }
}

#[test]
fn span_round_trip() {
    let span = Duration::seconds(3725);
    assert_eq!(Duration::seconds(span.num_seconds()), span);
}

#[test]
fn unsigned_seconds_round_trip() {
    for raw in [0u64, 1, 3661, 7200, i64::MAX as u64] {
        let span = Duration::from_unsigned_seconds(raw).unwrap();
        assert_eq!(span.num_seconds(), raw as i64);
        assert_eq!(span, Duration::seconds(raw as i64));
    }
}

#[test]
fn unsigned_seconds_above_the_signed_range_are_refused() {
    assert_eq!(Duration::from_unsigned_seconds(i64::MAX as u64 + 1), None);
    assert_eq!(Duration::from_unsigned_seconds(u64::MAX - 3660), None);
    assert_eq!(Duration::from_unsigned_seconds(u64::MAX), None);
}

#[test]
fn unsigned_seconds_are_never_negative() {
    for raw in [0u64, 1, i64::MAX as u64, i64::MAX as u64 + 1, u64::MAX] {
        match Duration::from_unsigned_seconds(raw) {
            Some(span) => assert_eq!(span.num_seconds() as u64, raw),
            None => assert!(raw > i64::MAX as u64),
        }
    }
}

#[test]
fn zero_is_the_empty_span() {
    assert_eq!(Duration::zero().num_seconds(), 0);
    assert_eq!(Duration::zero(), Duration::seconds(0));
}

#[test]
fn saturating_add_is_exact_within_the_range() {
    let sum = Duration::seconds(3600).saturating_add(&Duration::seconds(61));
    assert_eq!(sum.num_seconds(), 3661);
    let sum = Duration::seconds(-100).saturating_add(&Duration::seconds(40));
    assert_eq!(sum.num_seconds(), -60);
    let sum = Duration::seconds(i64::MAX).saturating_add(&Duration::seconds(i64::MIN));
    assert_eq!(sum.num_seconds(), -1);
    let sum = Duration::seconds(5).saturating_add(&Duration::zero());
    assert_eq!(sum.num_seconds(), 5);
}

#[test]
fn saturating_add_stops_at_the_bounds() {
    let sum = Duration::seconds(i64::MAX).saturating_add(&Duration::seconds(1));
    assert_eq!(sum.num_seconds(), i64::MAX);
    let sum = Duration::seconds(i64::MIN).saturating_add(&Duration::seconds(-1));
    assert_eq!(sum.num_seconds(), i64::MIN);
    let sum = Duration::seconds(i64::MAX).saturating_add(&Duration::seconds(i64::MAX));
    assert_eq!(sum.num_seconds(), i64::MAX);
}

#[test]
fn components_of_non_negative_spans() {
    assert_eq!(Duration::seconds(0).components(), (0, 0, 0));
    assert_eq!(Duration::seconds(59).components(), (0, 0, 59));
    assert_eq!(Duration::seconds(60).components(), (0, 1, 0));
    assert_eq!(Duration::seconds(3661).components(), (1, 1, 1));
    assert_eq!(Duration::seconds(7200).components(), (2, 0, 0));
    assert_eq!(Duration::seconds(360_000).components(), (100, 0, 0));
    assert_eq!(
        Duration::seconds(i64::MAX).components(),
        (2_562_047_788_015_215, 30, 7)
    );
}

#[test]
fn components_of_negative_spans_carry_the_sign() {
    assert_eq!(Duration::seconds(-1).components(), (0, 0, -1));
    assert_eq!(Duration::seconds(-61).components(), (0, -1, -1));
    assert_eq!(Duration::seconds(-3661).components(), (-1, -1, -1));
    assert_eq!(
        Duration::seconds(i64::MIN).components(),
        (-2_562_047_788_015_215, -30, -8)
    );
}

#[test]
fn components_add_up_to_the_span() {
    for secs in [-90_061i64, -3600, -59, 0, 59, 3600, 90_061, 123_456_789] {
        let (hours, minutes, seconds) = Duration::seconds(secs).components();
        assert_eq!(3600 * hours + 60 * minutes + seconds, secs);
        assert_eq!(hours, secs / 3600);
        assert_eq!(minutes, secs % 3600 / 60);
        assert_eq!(seconds, secs % 3600 % 60);
    }
}

#[test]
fn second_in_day_wraps_at_midnight() {
    assert_eq!(Duration::seconds(0).second_in_day(), 0);
    assert_eq!(Duration::seconds(86_399).second_in_day(), 86_399);
    assert_eq!(Duration::seconds(86_400).second_in_day(), 0);
    assert_eq!(Duration::seconds(90_000).second_in_day(), 3600);
    assert_eq!(Duration::seconds(-1).second_in_day(), 86_399);
    assert_eq!(Duration::seconds(-86_400).second_in_day(), 0);
    assert_eq!(Duration::seconds(i64::MAX).second_in_day(), i64::MAX.rem_euclid(86_400));
    assert_eq!(Duration::seconds(i64::MIN).second_in_day(), i64::MIN.rem_euclid(86_400));
}

#[test]
fn clock_of_spans_within_a_day() {
    assert_eq!(Duration::seconds(0).clock(), "00:00:00");
    assert_eq!(Duration::seconds(5).clock(), "00:00:05");
    assert_eq!(Duration::seconds(3725).clock(), "01:02:05");
    assert_eq!(Duration::seconds(45_296).clock(), "12:34:56");
    assert_eq!(Duration::seconds(86_399).clock(), "23:59:59");
}

#[test]
fn clock_starts_again_after_a_day() {
    assert_eq!(Duration::seconds(86_400).clock(), "00:00:00");
    assert_eq!(Duration::seconds(90_000).clock(), "01:00:00");
    assert_eq!(Duration::seconds(10 * 86_400 + 3725).clock(), "01:02:05");
}

#[test]
fn clock_of_negative_spans_reads_back_from_midnight() {
    assert_eq!(Duration::seconds(-1).clock(), "23:59:59");
    assert_eq!(Duration::seconds(-3600).clock(), "23:00:00");
    assert_eq!(Duration::seconds(-86_400).clock(), "00:00:00");
}

#[test]
fn clock_agrees_with_the_calendar() {
    let midnight = chrono::DateTime::from_timestamp(946_684_800, 0).unwrap();
    for secs in [-100_000i64, -86_401, -1, 0, 1, 3725, 86_399, 86_400, 1_000_000] {
        let moment = midnight + chrono::TimeDelta::seconds(secs);
        assert_eq!(
            Duration::seconds(secs).clock(),
            moment.format("%H:%M:%S").to_string()
        );
    }
}

#[test]
fn clock_has_eight_characters() {
    for secs in [i64::MIN, -86_401, -1, 0, 9, 3725, 86_399, 86_400, i64::MAX] {
        let text = Duration::seconds(secs).clock();
        assert_eq!(text.len(), 8);
        assert_eq!(&text[2..3], ":");
        assert_eq!(&text[5..6], ":");
    }
}
