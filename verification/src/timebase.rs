//! The absolute time reference and the local clock projection.
//!
//! Absolute instants are held as milliseconds since 1900-01-01T00:00:00 in
//! the appliance's display timezone (the protocol's epoch, with the fixed
//! timezone correction already folded in). Monotonic ticks are milliseconds
//! since boot.

use vstd::prelude::*;

verus! {

/// Milliseconds between the protocol epoch (1900-01-01T00:00:00Z) and the
/// Unix epoch (1970-01-01T00:00:00Z).
pub const EPOCH_TO_UNIX_MS: u64 = 2_208_988_800_000;

/// The absolute time learned at sync: an instant paired with the monotonic
/// counter value at the moment it was recorded. Written exactly once, read
/// repeatedly thereafter.
#[derive(Clone, Copy, Debug, PartialEq, Eq, Structural)]
pub struct TimeReference {
    /// Absolute instant, in milliseconds since the protocol epoch, timezone
    /// correction included.
    pub instant_ms: u64,
    /// Monotonic counter value, in milliseconds since boot, at the moment the
    /// instant was recorded.
    pub recorded_at_tick_ms: u64,
}

/// Current absolute time projected from a reference and the elapsed monotonic
/// ticks since it was recorded.
pub open spec fn projected_now_spec(reference: TimeReference, tick_ms: u64) -> int {
    reference.instant_ms + (tick_ms - reference.recorded_at_tick_ms)
}

/// Project the current absolute time: the recorded instant plus exactly the
/// monotonic milliseconds elapsed since it was recorded, with no rounding, so
/// repeated calls at the same tick give the same instant. The monotonic
/// counter must not have wrapped since the reference was recorded, and the
/// projected instant must fit the 64-bit millisecond timeline.
pub fn project_now(reference: &TimeReference, tick_ms: u64) -> (r: u64)
    requires
        tick_ms >= reference.recorded_at_tick_ms,
        projected_now_spec(*reference, tick_ms) <= u64::MAX,
    ensures
        r == projected_now_spec(*reference, tick_ms),
{
    reference.instant_ms + (tick_ms - reference.recorded_at_tick_ms)
}

/// Milliseconds past midnight of an absolute instant.
pub open spec fn millis_of_day_spec(instant_ms: u64) -> int {
    instant_ms as int % 86_400_000
}

/// Seconds past midnight of an absolute instant.
pub open spec fn seconds_of_day_spec(instant_ms: u64) -> int {
    (instant_ms / 1000) as int % 86400
}

/// Hour of the day, 24-hour form, of an absolute instant.
pub open spec fn hour_spec(instant_ms: u64) -> int {
    seconds_of_day_spec(instant_ms) / 3600
}

/// Minute of the hour of an absolute instant.
pub open spec fn minute_spec(instant_ms: u64) -> int {
    seconds_of_day_spec(instant_ms) % 3600 / 60
}

/// Milliseconds past midnight of an absolute instant; always below 86400000.
pub fn millis_of_day(instant_ms: u64) -> (r: u32)
    ensures
        r == millis_of_day_spec(instant_ms),
        r < 86_400_000,
{
    (instant_ms % 86_400_000) as u32
}

/// Seconds past midnight of an absolute instant; always below 86400.
pub fn seconds_of_day(instant_ms: u64) -> (r: u32)
    ensures
        r == seconds_of_day_spec(instant_ms),
        r < 86400,
{
    ((instant_ms / 1000) % 86400) as u32
}

/// Hour of the day, 24-hour form; always below 24.
pub fn hour_of_day(instant_ms: u64) -> (r: u8)
    ensures
        r == hour_spec(instant_ms),
        r < 24,
{
    let sod: u32 = seconds_of_day(instant_ms);
    (sod / 3600) as u8
}

/// Minute of the hour; always below 60.
pub fn minute_of_hour(instant_ms: u64) -> (r: u8)
    ensures
        r == minute_spec(instant_ms),
        r < 60,
{
    let sod: u32 = seconds_of_day(instant_ms);
    (sod % 3600 / 60) as u8
}

} // verus!
