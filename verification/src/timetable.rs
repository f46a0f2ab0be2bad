//! The timetable collaborator: an opaque weekly schedule answering "first
//! event at or after this time". The schedule structure and its search are
//! the `subjective` crate's; this module carries its answers into the
//! library's own terms.

use vstd::prelude::*;

use chrono::Timelike;

use crate::display::LookupOutcome;

verus! {

/// The opaque timetable structure of the `subjective` crate.
#[verifier::external_type_specification]
#[verifier::external_body]
pub struct ExSubjective(subjective::Subjective);

/// The opaque calendar datetime of the `chrono` crate, carried from the
/// projected instant into the timetable search.
#[verifier::external_type_specification]
#[verifier::external_body]
pub struct ExNaiveDateTime(chrono::NaiveDateTime);

/// The number of week variants a timetable holds.
pub uninterp spec fn variants_of(table: subjective::Subjective) -> usize;

/// The calendar datetime a Unix millisecond count names.
pub uninterp spec fn instant_of(unix_ms: i64) -> chrono::NaiveDateTime;

/// The timetable's answer for an instant and a variant offset: the first
/// enabled event at or after the instant on its weekday, an out-of-range
/// weekday, or no event. The answer depends on these arguments alone.
pub uninterp spec fn outcome_of(
    table: subjective::Subjective,
    instant: chrono::NaiveDateTime,
    variant_offset: usize,
) -> LookupOutcome;

/// Relies on `subjective`'s `School::bell_times` field: the week variants of
/// the timetable, counted.
#[verifier::external_body]
pub fn variant_count(table: &subjective::Subjective) -> (r: usize)
    ensures
        r == variants_of(*table),
{
    table.school.bell_times.len()
}

/// Relies on `chrono`'s `DateTime::from_timestamp_millis` and `naive_utc`:
/// an in-range Unix millisecond count names a calendar datetime, and the
/// documented range covers many thousands of years around the epoch.
#[verifier::external_body]
fn naive_from_unix_millis(unix_ms: i64) -> (r: Option<chrono::NaiveDateTime>)
    ensures
        -1_000_000_000_000_000 <= unix_ms <= 1_000_000_000_000_000 ==> r is Some,
        r matches Some(instant) ==> instant == instant_of(unix_ms),
{
    match chrono::DateTime::from_timestamp_millis(unix_ms) {
        Some(instant) => Some(instant.naive_utc()),
        None => None,
    }
}

/// Relies on `subjective`'s `Subjective::find_first_after`: the first enabled
/// event at or after the given time on its weekday, an out-of-range weekday,
/// or no event; and on `chrono`'s `Timelike::num_seconds_from_midnight`,
/// which stays below 86400. The search divides by the variant count, so the
/// timetable must hold at least one variant; the week number it adds to the
/// variant offset never exceeds 53.
#[verifier::external_body]
fn find_first_after(
    table: &subjective::Subjective,
    now: chrono::NaiveDateTime,
    variant_offset: usize,
) -> (r: LookupOutcome)
    requires
        variants_of(*table) > 0,
        variant_offset <= usize::MAX - 53,
    ensures
        r == outcome_of(*table, now, variant_offset),
        r matches LookupOutcome::NextEvent { seconds_of_day } ==> seconds_of_day < 86400,
{
    match table.find_first_after(now, variant_offset) {
        Ok(bell) => LookupOutcome::NextEvent {
            seconds_of_day: bell.time.num_seconds_from_midnight(),
        },
        Err(subjective::FindBellError::WeekdayOutOfRange(_)) => LookupOutcome::WeekdayOutOfRange,
        Err(subjective::FindBellError::NoBellFound) => LookupOutcome::NoEventFound,
    }
}

/// Ask the timetable for the first event at or after the given instant,
/// handed over as Unix milliseconds: exactly the timetable's answer for that
/// instant. Always answers for instants within a million billion
/// milliseconds of the Unix epoch; whatever the timetable holds, a next
/// event is a time of day below 86400 seconds.
pub fn lookup_next(table: &subjective::Subjective, now_unix_ms: i64, variant_offset: usize) -> (r:
    Option<LookupOutcome>)
    requires
        variants_of(*table) > 0,
        variant_offset <= usize::MAX - 53,
    ensures
        -1_000_000_000_000_000 <= now_unix_ms <= 1_000_000_000_000_000 ==> r is Some,
        r matches Some(o) ==> o == outcome_of(*table, instant_of(now_unix_ms), variant_offset),
        r matches Some(o) ==> (o matches LookupOutcome::NextEvent { seconds_of_day }
            ==> seconds_of_day < 86400),
{
    match naive_from_unix_millis(now_unix_ms) {
        Some(now) => Some(find_first_after(table, now, variant_offset)),
        None => None,
    }
}

} // verus!
