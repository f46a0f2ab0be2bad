//! Display state resolution: which of the four display modes is active and
//! which segment bit-pattern each of the four digit positions shows.

use vstd::prelude::*;

use crate::timebase;

verus! {

/// Segment pattern showing one bar, used for the booting progress heartbeat.
pub const PROGRESS_BAR_PATTERN: u8 = 0b0000_0010;

/// Blank pattern: no segment lit.
pub const BLANK_PATTERN: u8 = 0b0000_0000;

/// Outcome of asking the timetable collaborator for the next scheduled event.
#[derive(Clone, Copy, Debug, PartialEq, Eq, Structural)]
pub enum LookupOutcome {
    /// The next event fires at this time of day, in seconds past midnight.
    NextEvent { seconds_of_day: u32 },
    /// The queried weekday has no column in the timetable.
    WeekdayOutOfRange,
    /// The timetable has no further event on the queried day.
    NoEventFound,
}

/// The four display modes.
#[derive(Clone, Copy, Debug, PartialEq, Eq, Structural)]
pub enum DisplayMode {
    /// No time reference yet: show acquisition progress.
    Booting,
    /// A next event is known: show the remaining delta.
    Countdown,
    /// The weekday is outside the timetable: show the current time.
    ClockFallback,
    /// No event found: show a fixed error glyph sequence.
    ErrorDisplay,
}

/// What the display shows for one frame: colon indicator plus one segment
/// bitmask per digit position. Recomputed every frame, never persisted.
#[derive(Clone, Copy, Debug, PartialEq, Eq)]
pub struct DisplayState {
    /// Whether the colon indicator is lit this frame.
    pub colon_on: bool,
    /// Segment bitmask for each of the four digit positions, leftmost first.
    pub digits: [u8; 4],
}

/// Segment bitmask for a decimal digit, bit 7 = segment a down to bit 1 =
/// segment g; bit 0 is the decimal point, never set by a digit.
pub open spec fn digit_pattern_spec(d: int) -> u8 {
    if d == 0 {
        0b1111_1100
    } else if d == 1 {
        0b0110_0000
    } else if d == 2 {
        0b1101_1010
    } else if d == 3 {
        0b1111_0010
    } else if d == 4 {
        0b0110_0110
    } else if d == 5 {
        0b1011_0110
    } else if d == 6 {
        0b1011_1110
    } else if d == 7 {
        0b1110_0000
    } else if d == 8 {
        0b1111_1110
    } else {
        0b1111_0110
    }
}

/// Fixed segment bitmask table for the decimal digits.
pub fn digit_pattern(d: u8) -> (r: u8)
    requires
        d < 10,
    ensures
        r == digit_pattern_spec(d as int),
{
    match d {
        0 => 0b1111_1100,
        1 => 0b0110_0000,
        2 => 0b1101_1010,
        3 => 0b1111_0010,
        4 => 0b0110_0110,
        5 => 0b1011_0110,
        6 => 0b1011_1110,
        7 => 0b1110_0000,
        8 => 0b1111_1110,
        _ => 0b1111_0110,
    }
}

/// The colon blinks at 2 Hz: lit during the first half of every second of the
/// monotonic clock, dark during the second half, in every mode.
pub open spec fn colon_spec(tick_ms: u64) -> bool {
    tick_ms % 1000 < 500
}

/// Colon blink phase at a monotonic tick.
pub fn colon_on(tick_ms: u64) -> (r: bool)
    ensures
        r == colon_spec(tick_ms),
{
    tick_ms % 1000 < 500
}

/// Over any full blink period the colon is lit for exactly the first half:
/// at offset `off` into a period starting at `period_start`, the colon is on
/// if and only if less than half the period has elapsed.
pub proof fn lemma_colon_blink_phase(period_start: u64, off: u64)
    requires
        period_start % 1000 == 0,
        off < 1000,
        period_start + off <= u64::MAX,
    ensures
        colon_spec((period_start + off) as u64) == (off < 500),
{
    let t = (period_start + off) as u64;
    assert(t % 1000 == off) by (nonlinear_arith)
        requires
            period_start % 1000 == 0,
            off < 1000,
            t == period_start + off,
    ;
}

/// Display mode selection is a pure function of whether a time reference
/// exists and of the timetable lookup outcome: no reference gives Booting
/// regardless of the outcome; with a reference, NextEvent gives Countdown,
/// WeekdayOutOfRange gives ClockFallback, and NoEventFound gives ErrorDisplay.
pub open spec fn mode_spec(has_reference: bool, lookup: LookupOutcome) -> DisplayMode {
    if !has_reference {
        DisplayMode::Booting
    } else {
        match lookup {
            LookupOutcome::NextEvent { .. } => DisplayMode::Countdown,
            LookupOutcome::WeekdayOutOfRange => DisplayMode::ClockFallback,
            LookupOutcome::NoEventFound => DisplayMode::ErrorDisplay,
        }
    }
}

/// Pick the active display mode from the reference presence and the lookup
/// outcome.
pub fn select_mode(has_reference: bool, lookup: &LookupOutcome) -> (r: DisplayMode)
    ensures
        r == mode_spec(has_reference, *lookup),
{
    if !has_reference {
        DisplayMode::Booting
    } else {
        match lookup {
            LookupOutcome::NextEvent { .. } => DisplayMode::Countdown,
            LookupOutcome::WeekdayOutOfRange => DisplayMode::ClockFallback,
            LookupOutcome::NoEventFound => DisplayMode::ErrorDisplay,
        }
    }
}

/// Longest remaining delta the four-digit countdown can show: the minute
/// field has two digit positions, so deltas of 100 minutes or more do not fit.
pub const MAX_COUNTDOWN_SECONDS: u64 = 6000;

/// Digit patterns of a countdown to an event `delta_s` seconds away:
/// minutes-tens, minutes-units, seconds-tens, seconds-units, where minutes
/// and seconds truncate (never round).
pub open spec fn countdown_digits_spec(delta_s: int) -> Seq<u8> {
    seq![
        digit_pattern_spec(delta_s / 60 / 10),
        digit_pattern_spec(delta_s / 60 % 10),
        digit_pattern_spec(delta_s % 60 / 10),
        digit_pattern_spec(delta_s % 60 % 10),
    ]
}

/// Decompose a remaining delta into the four countdown digit patterns.
pub fn countdown_digits(delta_s: u64) -> (r: [u8; 4])
    requires
        delta_s < MAX_COUNTDOWN_SECONDS,
    ensures
        r@ == countdown_digits_spec(delta_s as int),
{
    let minutes: u64 = delta_s / 60;
    let seconds: u64 = delta_s % 60;
    let r = [
        digit_pattern((minutes / 10) as u8),
        digit_pattern((minutes % 10) as u8),
        digit_pattern((seconds / 10) as u8),
        digit_pattern((seconds % 10) as u8),
    ];
    proof {
        assert(r@ =~= countdown_digits_spec(delta_s as int));
    }
    r
}

/// Digit patterns of a 24-hour clock reading: hour-tens, hour-units,
/// minute-tens, minute-units.
pub open spec fn clock_digits_spec(hour: int, minute: int) -> Seq<u8> {
    seq![
        digit_pattern_spec(hour / 10),
        digit_pattern_spec(hour % 10),
        digit_pattern_spec(minute / 10),
        digit_pattern_spec(minute % 10),
    ]
}

/// Decompose a 24-hour time of day into the four clock digit patterns.
pub fn clock_digits(hour: u8, minute: u8) -> (r: [u8; 4])
    requires
        hour < 24,
        minute < 60,
    ensures
        r@ == clock_digits_spec(hour as int, minute as int),
{
    let r = [
        digit_pattern(hour / 10),
        digit_pattern(hour % 10),
        digit_pattern(minute / 10),
        digit_pattern(minute % 10),
    ];
    proof {
        assert(r@ =~= clock_digits_spec(hour as int, minute as int));
    }
    r
}

/// The fixed error glyph sequence shown when no event is found, independent
/// of time.
pub open spec fn error_digits_spec() -> Seq<u8> {
    seq![0b1001_1110u8, 0b0010_1010u8, 0b0111_1010u8, 0b0000_0000u8]
}

/// The fixed error glyph patterns.
pub fn error_digits() -> (r: [u8; 4])
    ensures
        r@ == error_digits_spec(),
{
    let r = [0b1001_1110u8, 0b0010_1010u8, 0b0111_1010u8, 0b0000_0000u8];
    proof {
        assert(r@ =~= error_digits_spec());
    }
    r
}

/// Digit patterns of the booting heartbeat: one bar per completed acquisition
/// stage, leading positions first, remaining positions blank.
pub open spec fn booting_digits_spec(progress: int) -> Seq<u8> {
    Seq::new(4, |i: int| if i < progress { PROGRESS_BAR_PATTERN } else { BLANK_PATTERN })
}

/// Render the acquisition progress as leading bars: position `i` is non-blank
/// if and only if `i < progress`.
pub fn booting_digits(progress: u8) -> (r: [u8; 4])
    requires
        progress <= 4,
    ensures
        r@ == booting_digits_spec(progress as int),
        forall|i: int| 0 <= i < 4 ==> ((r@[i] != BLANK_PATTERN) <==> i < progress as int),
{
    let mut r = [BLANK_PATTERN; 4];
    let mut i: usize = 0;
    while i < progress as usize
        invariant
            i <= progress <= 4,
            r@.len() == 4,
            forall|j: int| 0 <= j < i ==> r@[j] == PROGRESS_BAR_PATTERN,
            forall|j: int| i <= j < 4 ==> r@[j] == BLANK_PATTERN,
        decreases progress as int - i as int,
    {
        r[i] = PROGRESS_BAR_PATTERN;
        i = i + 1;
    }
    proof {
        assert(r@ =~= booting_digits_spec(progress as int));
    }
    r
}

/// Whether a lookup outcome can be rendered at an instant: a next event must
/// lie strictly ahead of the current millisecond of the day (the
/// collaborator never hands back a past event) and near enough for the two
/// minute digits; the other outcomes always render.
pub open spec fn countdown_fits_spec(now_ms: u64, outcome: LookupOutcome) -> bool {
    match outcome {
        LookupOutcome::NextEvent { seconds_of_day } => {
            &&& timebase::millis_of_day_spec(now_ms) < seconds_of_day * 1000
            &&& seconds_of_day * 1000 - timebase::millis_of_day_spec(now_ms)
                < MAX_COUNTDOWN_SECONDS * 1000
        },
        _ => true,
    }
}

/// The digit patterns shown once a time reference exists: the countdown to a
/// next event — its remaining delta measured in milliseconds and truncated to
/// whole seconds — the clock fallback, or the error glyphs, by outcome.
pub open spec fn active_digits_spec(now_ms: u64, outcome: LookupOutcome) -> Seq<u8> {
    match outcome {
        LookupOutcome::NextEvent { seconds_of_day } => countdown_digits_spec(
            (seconds_of_day * 1000 - timebase::millis_of_day_spec(now_ms)) / 1000,
        ),
        LookupOutcome::WeekdayOutOfRange => clock_digits_spec(
            timebase::hour_spec(now_ms),
            timebase::minute_spec(now_ms),
        ),
        LookupOutcome::NoEventFound => error_digits_spec(),
    }
}

/// Resolve the display state for one frame once a time reference exists:
/// the colon carries the blink phase, and the digits follow the lookup
/// outcome — remaining delta for a next event, current time when the weekday
/// is out of range, the error glyphs when no event is found.
pub fn resolve_display(now_ms: u64, outcome: &LookupOutcome, tick_ms: u64) -> (r: DisplayState)
    requires
        countdown_fits_spec(now_ms, *outcome),
    ensures
        r.colon_on == colon_spec(tick_ms),
        r.digits@ == active_digits_spec(now_ms, *outcome),
{
    let colon = colon_on(tick_ms);
    match outcome {
        LookupOutcome::NextEvent { seconds_of_day: target } => {
            let now_mod: u64 = timebase::millis_of_day(now_ms) as u64;
            let target_ms: u64 = (*target as u64) * 1000;
            let delta: u64 = (target_ms - now_mod) / 1000;
            DisplayState { colon_on: colon, digits: countdown_digits(delta) }
        },
        LookupOutcome::WeekdayOutOfRange => {
            let hour: u8 = timebase::hour_of_day(now_ms);
            let minute: u8 = timebase::minute_of_hour(now_ms);
            DisplayState { colon_on: colon, digits: clock_digits(hour, minute) }
        },
        LookupOutcome::NoEventFound => DisplayState { colon_on: colon, digits: error_digits() },
    }
}

/// Resolve the display state if the outcome can be rendered; nothing exactly
/// when a next event lies at or before the current millisecond, or too far
/// ahead for the two minute digits.
pub fn try_resolve_display(now_ms: u64, outcome: &LookupOutcome, tick_ms: u64) -> (r: Option<
    DisplayState,
>)
    ensures
        countdown_fits_spec(now_ms, *outcome) ==> (r matches Some(st) && st.colon_on == colon_spec(
            tick_ms,
        ) && st.digits@ == active_digits_spec(now_ms, *outcome)),
        !countdown_fits_spec(now_ms, *outcome) ==> r is None,
{
    match outcome {
        LookupOutcome::NextEvent { seconds_of_day: target } => {
            let now_mod: u64 = timebase::millis_of_day(now_ms) as u64;
            let target_ms: u64 = (*target as u64) * 1000;
            if now_mod < target_ms && target_ms - now_mod < MAX_COUNTDOWN_SECONDS * 1000 {
                Some(resolve_display(now_ms, outcome, tick_ms))
            } else {
                None
            }
        },
        _ => Some(resolve_display(now_ms, outcome, tick_ms)),
    }
}

/// The booting display state: the colon carries the blink phase as in every
/// mode, and the digits show one bar per completed acquisition stage.
pub fn booting_state(progress: u8, tick_ms: u64) -> (r: DisplayState)
    requires
        progress <= 4,
    ensures
        r.colon_on == colon_spec(tick_ms),
        r.digits@ == booting_digits_spec(progress as int),
{
    DisplayState { colon_on: colon_on(tick_ms), digits: booting_digits(progress) }
}

} // verus!
