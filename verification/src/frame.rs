//! One render-loop iteration: poll the store without blocking, project the
//! current time, ask the timetable, and resolve what the display shows.

use vstd::prelude::*;

use crate::display;
use crate::display::DisplayState;
use crate::display::LookupOutcome;
use crate::store::ReferenceStore;
use crate::timebase;

verus! {

/// Farthest projected instant the render loop supports, a million billion
/// milliseconds past the protocol epoch: far beyond any uptime, and within
/// the range the calendar collaborator always answers for.
pub const MAX_PROJECTED_MS: u64 = 1_000_000_000_000_000;

/// Whether a frame can be rendered at a tick: once a reference exists, the
/// monotonic counter must not have wrapped past it, and the projected
/// instant must stay on the supported timeline.
pub open spec fn frame_ready_spec(store: ReferenceStore, tick_ms: u64) -> bool {
    match store.reference_spec() {
        Some(reference) => {
            &&& reference.recorded_at_tick_ms <= tick_ms
            &&& timebase::projected_now_spec(reference, tick_ms) < MAX_PROJECTED_MS
        },
        None => true,
    }
}

/// The timetable's answer at a projected instant: the outcome named by the
/// lookup for the instant's Unix millisecond count.
pub open spec fn frame_outcome_spec(
    table: subjective::Subjective,
    reference: crate::timebase::TimeReference,
    tick_ms: u64,
) -> LookupOutcome {
    crate::timetable::outcome_of(
        table,
        crate::timetable::instant_of(
            (timebase::projected_now_spec(reference, tick_ms) - timebase::EPOCH_TO_UNIX_MS) as i64,
        ),
        0,
    )
}

/// Resolve one frame. Without a reference the frame is the booting
/// heartbeat: blink phase plus one bar per completed stage. With a
/// reference, the frame renders exactly the timetable's answer for the
/// projected instant: the digits follow that answer and the colon follows
/// the blink phase. A frame comes out if and only if the answer can be
/// rendered; it cannot only when the answer was a next event at or before
/// the projected millisecond, or one too far ahead for the two minute
/// digits.
pub fn render_frame(table: &subjective::Subjective, store: &ReferenceStore, tick_ms: u64) -> (r:
    Option<DisplayState>)
    requires
        store.wf(),
        crate::timetable::variants_of(*table) > 0,
        frame_ready_spec(*store, tick_ms),
    ensures
        store.reference_spec() is None ==> (r matches Some(st) && st.colon_on
            == display::colon_spec(tick_ms) && st.digits@ == display::booting_digits_spec(
            store.progress_spec() as int,
        )),
        store.reference_spec() matches Some(reference) ==> {
            let now = timebase::projected_now_spec(reference, tick_ms) as u64;
            let o = frame_outcome_spec(*table, reference, tick_ms);
            &&& (r is Some <==> display::countdown_fits_spec(now, o))
            &&& (r matches Some(st) ==> st.colon_on == display::colon_spec(tick_ms) && st.digits@
                == display::active_digits_spec(now, o))
        },
{
    match store.try_read() {
        None => Some(display::booting_state(store.progress(), tick_ms)),
        Some(reference) => {
            let now_ms: u64 = timebase::project_now(&reference, tick_ms);
            let now_unix_ms: i64 = (now_ms as i64) - (timebase::EPOCH_TO_UNIX_MS as i64);
            match crate::timetable::lookup_next(table, now_unix_ms, 0) {
                Some(outcome) => {
                    proof {
                        assert(now_ms == timebase::projected_now_spec(reference, tick_ms) as u64);
                        assert(now_unix_ms == (timebase::projected_now_spec(reference, tick_ms)
                            - timebase::EPOCH_TO_UNIX_MS) as i64);
                        assert(outcome == frame_outcome_spec(*table, reference, tick_ms));
                    }
                    display::try_resolve_display(now_ms, &outcome, tick_ms)
                },
                None => {
                    proof {
                        assert(false);
                    }
                    None
                },
            }
        },
    }
}

} // verus!
