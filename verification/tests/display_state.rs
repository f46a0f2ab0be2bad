use bell_clock::display::{
    booting_digits, clock_digits, colon_on, countdown_digits, digit_pattern, error_digits,
    select_mode, try_resolve_display, DisplayMode, DisplayState, LookupOutcome,
};

#[test]
fn digit_patterns_match_table() {
    let expected: [u8; 10] = [
        0b1111_1100,
        0b0110_0000,
        0b1101_1010,
        0b1111_0010,
        0b0110_0110,
        0b1011_0110,
        0b1011_1110,
        0b1110_0000,
        0b1111_1110,
        0b1111_0110,
    ];
    for d in 0..10u8 {
        assert_eq!(digit_pattern(d), expected[d as usize]);
    }
}

#[test]
fn countdown_125_seconds_is_0205() {
    // 125 seconds = 2 minutes 5 seconds: digits [0, 2, 0, 5].
    let digits = countdown_digits(125);
    assert_eq!(
        digits,
        [digit_pattern(0), digit_pattern(2), digit_pattern(0), digit_pattern(5)]
    );
}

#[test]
fn countdown_truncates_to_whole_units() {
    // 59 seconds: zero whole minutes, not one rounded minute.
    let digits = countdown_digits(59);
    assert_eq!(
        digits,
        [digit_pattern(0), digit_pattern(0), digit_pattern(5), digit_pattern(9)]
    );
}

#[test]
fn clock_fallback_14_07_is_1407() {
    let digits = clock_digits(14, 7);
    assert_eq!(
        digits,
        [digit_pattern(1), digit_pattern(4), digit_pattern(0), digit_pattern(7)]
    );
}

#[test]
fn error_glyphs_are_fixed() {
    assert_eq!(error_digits(), [0b1001_1110, 0b0010_1010, 0b0111_1010, 0b0000_0000]);
}

#[test]
fn booting_progress_two_shows_two_leading_bars() {
    let digits = booting_digits(2);
    assert_ne!(digits[0], 0);
    assert_ne!(digits[1], 0);
    assert_eq!(digits[2], 0);
    assert_eq!(digits[3], 0);
}

#[test]
fn booting_progress_counts_bars_at_every_stage() {
    for progress in 0..=4u8 {
        let digits = booting_digits(progress);
        for (i, d) in digits.iter().enumerate() {
            assert_eq!(*d != 0, i < progress as usize);
        }
    }
}

#[test]
fn mode_selection_is_pure_in_reference_and_outcome() {
    let next = LookupOutcome::NextEvent { seconds_of_day: 100 };
    assert_eq!(select_mode(false, &next), DisplayMode::Booting);
    assert_eq!(select_mode(false, &LookupOutcome::NoEventFound), DisplayMode::Booting);
    assert_eq!(select_mode(true, &next), DisplayMode::Countdown);
    assert_eq!(select_mode(true, &LookupOutcome::WeekdayOutOfRange), DisplayMode::ClockFallback);
    assert_eq!(select_mode(true, &LookupOutcome::NoEventFound), DisplayMode::ErrorDisplay);
}

#[test]
fn colon_blinks_on_first_half_of_each_second() {
    // Sample a full 1000 ms window at sub-100 ms resolution.
    for ms in (0..1000u64).step_by(50) {
        assert_eq!(colon_on(ms), ms < 500);
        assert_eq!(colon_on(ms + 1000), ms < 500);
    }
}

#[test]
fn resolve_rejects_past_and_distant_events() {
    // At 09:57:55 (35875 s past midnight): an event at that very second, an
    // earlier event, and one 100 minutes out cannot be shown.
    let now_ms: u64 = 35_875_000;
    let at_now = LookupOutcome::NextEvent { seconds_of_day: 35_875 };
    let earlier = LookupOutcome::NextEvent { seconds_of_day: 35_874 };
    let too_far = LookupOutcome::NextEvent { seconds_of_day: 35_875 + 6_000 };
    let close = LookupOutcome::NextEvent { seconds_of_day: 36_000 };
    assert_eq!(try_resolve_display(now_ms, &at_now, 0), None);
    assert_eq!(try_resolve_display(now_ms, &earlier, 0), None);
    assert_eq!(try_resolve_display(now_ms, &too_far, 0), None);
    let state = try_resolve_display(now_ms, &close, 0).unwrap();
    assert_eq!(
        state,
        DisplayState {
            colon_on: true,
            digits: [digit_pattern(0), digit_pattern(2), digit_pattern(0), digit_pattern(5)],
        }
    );
}

#[test]
fn countdown_truncates_within_the_current_second() {
    // 09:57:55.4 against a 10:00:00 bell: 124.6 s remain, shown as 2:04, not
    // rounded up to 2:05.
    let now_ms: u64 = 35_875_400;
    let next = LookupOutcome::NextEvent { seconds_of_day: 36_000 };
    let state = try_resolve_display(now_ms, &next, 0).unwrap();
    assert_eq!(
        state.digits,
        [digit_pattern(0), digit_pattern(2), digit_pattern(0), digit_pattern(4)]
    );
    // An event 600 ms away still renders, as a zero delta.
    let imminent = LookupOutcome::NextEvent { seconds_of_day: 35_876 };
    let state = try_resolve_display(now_ms, &imminent, 0).unwrap();
    assert_eq!(
        state.digits,
        [digit_pattern(0), digit_pattern(0), digit_pattern(0), digit_pattern(0)]
    );
}

#[test]
fn resolve_clock_fallback_shows_current_time() {
    // 14:07:00 past midnight, colon in the dark phase.
    let now_ms: u64 = (14 * 3600 + 7 * 60) * 1000;
    let state = try_resolve_display(now_ms, &LookupOutcome::WeekdayOutOfRange, 700).unwrap();
    assert_eq!(
        state,
        DisplayState {
            colon_on: false,
            digits: [digit_pattern(1), digit_pattern(4), digit_pattern(0), digit_pattern(7)],
        }
    );
}

#[test]
fn resolve_error_mode_ignores_time() {
    let a = try_resolve_display(123, &LookupOutcome::NoEventFound, 0).unwrap();
    let b = try_resolve_display(9_999_999, &LookupOutcome::NoEventFound, 100).unwrap();
    assert_eq!(a.digits, b.digits);
    assert_eq!(a.digits, [0b1001_1110, 0b0010_1010, 0b0111_1010, 0b0000_0000]);
}
