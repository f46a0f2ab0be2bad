//! Runtime core of a standalone bell-countdown clock appliance.
//!
//! The library reconciles a one-shot, asynchronously acquired absolute time
//! reference with a free-running local monotonic clock, derives a display
//! state from that time plus a timetable lookup, and computes the per-instant
//! drive plan for a 4-digit multiplexed 7-segment display.

pub mod display;
pub mod driver;
pub mod frame;
pub mod store;
pub mod sync;
pub mod timebase;
pub mod timetable;
