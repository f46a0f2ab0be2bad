//! The multiplexed display driver's per-instant drive plan: which digit
//! common line is active and which segment lines are driven, as a function of
//! the display state and a fast monotonic tick.
//!
//! The four digits share their segment lines, so at any instant exactly one
//! common line may be active; persistence of vision makes the cycle appear
//! simultaneous.

use vstd::prelude::*;

use crate::display::DisplayState;

verus! {

/// Monotonic milliseconds per multiplex step.
pub const MULTIPLEX_DIVISOR_MS: u64 = 1;

/// The digit position whose decimal-point line doubles as the colon.
pub const COLON_DIGIT_INDEX: usize = 1;

/// The segment line that carries the decimal point, and the colon on the
/// designated digit position.
pub const COLON_SEGMENT_INDEX: usize = 0;

/// Drive plan for one instant: the active digit position, the level of each
/// digit common line, and whether each segment line is driven.
#[derive(Clone, Copy, Debug, PartialEq, Eq)]
pub struct FramePlan {
    /// The digit position lit this instant.
    pub active_digit: usize,
    /// For each digit common line, whether it is active this instant.
    pub commons_active: [bool; 4],
    /// For each of the eight segment lines, whether it is driven (output-low)
    /// rather than left floating.
    pub segments_active: [bool; 8],
}

/// The digit position lit at a tick: the tick divided down and taken modulo
/// the four positions.
pub open spec fn active_digit_spec(tick_ms: u64) -> int {
    ((tick_ms / MULTIPLEX_DIVISOR_MS) % 4) as int
}

/// Whether digit common line `i` is active at a tick: only the active
/// digit's.
pub open spec fn common_active_spec(tick_ms: u64, i: int) -> bool {
    i == active_digit_spec(tick_ms)
}

/// Whether segment line `i` is driven at a tick: the colon phase on the
/// designated digit's point line, otherwise bit `i` of the active digit's
/// pattern.
pub open spec fn segment_active_spec(state: DisplayState, tick_ms: u64, i: int) -> bool {
    if active_digit_spec(tick_ms) == COLON_DIGIT_INDEX && i == COLON_SEGMENT_INDEX {
        state.colon_on
    } else {
        (state.digits@[active_digit_spec(tick_ms)] >> (i as u8)) & 1 == 1
    }
}

/// At any sampled instant exactly one of the four common lines is active:
/// the active digit's line is active, and no two distinct lines are active
/// together.
pub proof fn lemma_multiplex_exclusive(tick_ms: u64)
    ensures
        0 <= active_digit_spec(tick_ms) < 4,
        common_active_spec(tick_ms, active_digit_spec(tick_ms)),
        forall|i: int, j: int|
            common_active_spec(tick_ms, i) && common_active_spec(tick_ms, j) ==> i == j,
{
}

/// Compute the drive plan for one instant: the active digit's common line
/// alone is active, and the segment lines carry that digit's pattern, with
/// the colon overriding the point line on its designated position.
pub fn plan_frame(state: &DisplayState, tick_ms: u64) -> (r: FramePlan)
    ensures
        r.active_digit == active_digit_spec(tick_ms),
        forall|i: int| 0 <= i < 4 ==> r.commons_active@[i] == common_active_spec(tick_ms, i),
        forall|i: int| 0 <= i < 8 ==> r.segments_active@[i] == segment_active_spec(*state, tick_ms, i),
{
    let digit: usize = ((tick_ms / MULTIPLEX_DIVISOR_MS) % 4) as usize;
    let mut commons: [bool; 4] = [false; 4];
    let mut index: usize = 0;
    while index < 4
        invariant
            index <= 4,
            digit == active_digit_spec(tick_ms),
            forall|j: int| 0 <= j < index ==> commons@[j] == common_active_spec(tick_ms, j),
        decreases 4 - index as int,
    {
        commons[index] = index == digit;
        index = index + 1;
    }
    let mut segments: [bool; 8] = [false; 8];
    let mut line: usize = 0;
    while line < 8
        invariant
            line <= 8,
            digit == active_digit_spec(tick_ms),
            digit < 4,
            forall|j: int| 0 <= j < line ==> segments@[j] == segment_active_spec(*state, tick_ms, j),
        decreases 8 - line as int,
    {
        let bit: bool = if digit == COLON_DIGIT_INDEX && line == COLON_SEGMENT_INDEX {
            state.colon_on
        } else {
            (state.digits[digit] >> (line as u8)) & 1 == 1
        };
        segments[line] = bit;
        line = line + 1;
    }
    FramePlan { active_digit: digit, commons_active: commons, segments_active: segments }
}

} // verus!
