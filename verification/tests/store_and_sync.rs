use bell_clock::driver::plan_frame;
use bell_clock::display::DisplayState;
use bell_clock::store::ReferenceStore;
use bell_clock::sync::{
    advance, compute_reference, extract_raw_timestamp, progress_stage, timestamp_millis,
    SyncEvent, SyncPhase,
};
use bell_clock::timebase::{hour_of_day, minute_of_hour, project_now, TimeReference};

use fixed::types::extra::U32;
use fixed::FixedU64;

#[test]
fn publish_succeeds_exactly_once() {
    let mut store = ReferenceStore::new();
    assert_eq!(store.try_read(), None);
    let first = TimeReference { instant_ms: 1_000, recorded_at_tick_ms: 10 };
    let second = TimeReference { instant_ms: 2_000, recorded_at_tick_ms: 20 };
    assert!(store.publish(first).is_ok());
    assert_eq!(store.try_read(), Some(first));
    // The second publish is rejected and never overwrites the first value.
    assert_eq!(store.publish(second), Err(second));
    assert_eq!(store.try_read(), Some(first));
}

#[test]
fn progress_never_goes_backwards() {
    let mut store = ReferenceStore::new();
    assert_eq!(store.progress(), 0);
    store.record_progress(3);
    assert_eq!(store.progress(), 3);
    store.record_progress(1);
    assert_eq!(store.progress(), 3);
    store.record_progress(4);
    assert_eq!(store.progress(), 4);
}

#[test]
fn projection_adds_elapsed_ticks_exactly() {
    let reference = TimeReference { instant_ms: 1_000, recorded_at_tick_ms: 100 };
    assert_eq!(project_now(&reference, 100), 1_000);
    assert_eq!(project_now(&reference, 350), 1_250);
    // Repeated calls at the same tick drift by nothing.
    assert_eq!(project_now(&reference, 350), 1_250);
}

#[test]
fn acquisition_machine_walks_the_expected_path() {
    let mut phase = SyncPhase::Joining;
    phase = advance(phase, SyncEvent::JoinFailed);
    assert_eq!(phase, SyncPhase::Joining);
    phase = advance(phase, SyncEvent::JoinSucceeded);
    assert_eq!(phase, SyncPhase::AddressPending);
    phase = advance(phase, SyncEvent::SocketBound);
    assert_eq!(phase, SyncPhase::SocketReady);
    phase = advance(phase, SyncEvent::RequestSent);
    assert_eq!(phase, SyncPhase::RequestSent);
    phase = advance(phase, SyncEvent::ReplyReceived);
    assert_eq!(phase, SyncPhase::ResponseReceived);
    phase = advance(phase, SyncEvent::ReferencePublished);
    assert_eq!(phase, SyncPhase::Published);
}

#[test]
fn unexpected_events_leave_the_phase_alone() {
    assert_eq!(advance(SyncPhase::Joining, SyncEvent::ReplyReceived), SyncPhase::Joining);
    assert_eq!(advance(SyncPhase::Published, SyncEvent::JoinSucceeded), SyncPhase::Published);
    assert_eq!(
        advance(SyncPhase::RequestSent, SyncEvent::SocketBound),
        SyncPhase::RequestSent
    );
}

#[test]
fn progress_stages_follow_the_phases() {
    assert_eq!(progress_stage(SyncPhase::Joining), 1);
    assert_eq!(progress_stage(SyncPhase::AddressPending), 2);
    assert_eq!(progress_stage(SyncPhase::SocketReady), 3);
    assert_eq!(progress_stage(SyncPhase::RequestSent), 4);
    assert_eq!(progress_stage(SyncPhase::ResponseReceived), 4);
    assert_eq!(progress_stage(SyncPhase::Published), 4);
}

#[test]
fn timestamp_extraction_reads_bytes_40_to_48_big_endian() {
    let mut reply = [0u8; 256];
    let stamp: [u8; 8] = [0x01, 0x23, 0x45, 0x67, 0x89, 0xAB, 0xCD, 0xEF];
    reply[40..48].copy_from_slice(&stamp);
    let raw = extract_raw_timestamp(&reply);
    assert_eq!(raw, u64::from_be_bytes(stamp));
    assert_eq!(raw, FixedU64::<U32>::from_be_bytes(stamp).to_bits());
}

#[test]
fn fixed_point_conversion_matches_the_fixed_crate() {
    let samples: [u64; 5] = [
        0,
        0x0000_0001_8000_0000,
        0xE944_9F00_8000_0000,
        0x1234_5678_9ABC_DEF0,
        u64::MAX,
    ];
    for raw in samples {
        let ours = timestamp_millis(raw);
        let theirs = FixedU64::<U32>::from_bits(raw).to_num::<f64>() * 1000.0;
        let difference = (ours as f64 - theirs).abs();
        assert!(difference <= 1.0, "raw {raw:#x}: {ours} vs {theirs}");
    }
}

#[test]
fn half_second_fraction_becomes_500_milliseconds() {
    // 2 seconds and a half, as 32.32 fixed point.
    assert_eq!(timestamp_millis(0x0000_0002_8000_0000), 2_500);
}

#[test]
fn reference_computation_applies_both_corrections() {
    let mut reply = [0u8; 256];
    // 3_913_056_000 seconds past the 1900 epoch (the first second of 2024),
    // and a half-second fraction.
    let raw: u64 = (3_913_056_000u64 << 32) | 0x8000_0000;
    reply[40..48].copy_from_slice(&raw.to_be_bytes());
    let tz_offset_ms: u64 = 11 * 3600 * 1000;
    let reference = compute_reference(&reply, tz_offset_ms, 1_234, 5_678).unwrap();
    assert_eq!(reference.instant_ms, 3_913_056_000_000 + 500 + 39_600_000 - 1_234);
    assert_eq!(reference.recorded_at_tick_ms, 5_678);
    // The timezone shift lands the instant on 11:00:00.5 of that day.
    assert_eq!(hour_of_day(reference.instant_ms + 1_234), 11);
    assert_eq!(minute_of_hour(reference.instant_ms + 1_234), 0);
}

#[test]
fn reference_computation_rejects_corrections_past_the_epoch() {
    let reply = [0u8; 48];
    assert_eq!(compute_reference(&reply, 0, 1, 0), None);
}

#[test]
fn exactly_one_common_line_is_active_each_instant() {
    let state = DisplayState { colon_on: false, digits: [0b1010_1010; 4] };
    for tick in 0..12u64 {
        let plan = plan_frame(&state, tick);
        assert_eq!(plan.active_digit as u64, tick % 4);
        let active = plan.commons_active.iter().filter(|level| **level).count();
        assert_eq!(active, 1);
        assert!(plan.commons_active[plan.active_digit]);
    }
}

#[test]
fn segment_lines_follow_the_active_digit_pattern() {
    let state = DisplayState {
        colon_on: false,
        digits: [0b1010_1010, 0b0101_0101, 0b1111_0000, 0b0000_1111],
    };
    for tick in 0..8u64 {
        let plan = plan_frame(&state, tick);
        let pattern = state.digits[plan.active_digit];
        for line in 0..8 {
            if plan.active_digit == 1 && line == 0 {
                assert_eq!(plan.segments_active[line], state.colon_on);
            } else {
                assert_eq!(plan.segments_active[line], (pattern >> line) & 1 == 1);
            }
        }
    }
}

#[test]
fn colon_overrides_the_point_line_on_its_digit() {
    let state = DisplayState { colon_on: true, digits: [0, 0, 0, 0] };
    // Tick 1 lights digit position 1, whose point line carries the colon.
    let plan = plan_frame(&state, 1);
    assert_eq!(plan.active_digit, 1);
    assert!(plan.segments_active[0]);
    // On the other digit positions the point line follows the pattern bit.
    let plan_elsewhere = plan_frame(&state, 2);
    assert!(!plan_elsewhere.segments_active[0]);
}
