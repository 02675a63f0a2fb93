//! The time-slot grid: pure conversions between instants or spans and the
//! fixed-width slot indices used to lay a day out on screen.
//!
//! The day is cut into slots of `MINUTES_PER_SLOT` wall-clock minutes, each
//! drawn `PIXELS_PER_SLOT` units tall. A slot index is the 0-based position
//! of a slot within one local day.

use crate::time::{TimeDelta, Timestamp, UtcOffset};
use vstd::arithmetic::div_mod::{
    lemma_div_denominator, lemma_fundamental_div_mod, lemma_fundamental_div_mod_converse,
    lemma_mod_mod,
};
use vstd::prelude::*;

verus! {

pub const MINUTES_PER_SLOT: i64 = 5;

pub const PIXELS_PER_SLOT: i64 = 10;

/// `PIXELS_PER_SLOT` spread over `MINUTES_PER_SLOT`: the fixed
/// pixels-per-minute ratio of the grid.
pub const PIXELS_PER_MINUTE: i64 = 2;

/// How many slots of `MINUTES_PER_SLOT` minutes make up one hour.
pub const ONE_HOUR_SLOTS: i64 = 12;

pub const SLOTS_PER_DAY: i64 = 24 * ONE_HOUR_SLOTS;

pub const PIXELS_PER_DAY: i64 = SLOTS_PER_DAY * PIXELS_PER_SLOT;

pub const SECONDS_PER_SLOT: i64 = MINUTES_PER_SLOT * 60;

pub const SECONDS_PER_DAY: i64 = 86400;

/// Seconds elapsed since local midnight at instant `t`, under offset `off`.
/// `%` on `int` is Euclidean, so the result lies in `[0, 86400)`.
pub open spec fn local_secs_of_day(t: Timestamp, off: UtcOffset) -> int {
    (t.secs + off.secs) % (SECONDS_PER_DAY as int)
}

/// The slot index of instant `t` within its local day: seconds since local
/// midnight, with the seconds-of-minute truncated, floor-divided into slots.
pub open spec fn slot_index(t: Timestamp, off: UtcOffset) -> int {
    local_secs_of_day(t, off) / (SECONDS_PER_SLOT as int)
}

/// How many whole slots a span of `secs` seconds covers, with any sub-slot
/// remainder truncated toward zero (matching whole-minute truncation
/// followed by truncating division).
pub open spec fn duration_slots(secs: int) -> int {
    if secs >= 0 {
        secs / (SECONDS_PER_SLOT as int)
    } else {
        -((-secs) / (SECONDS_PER_SLOT as int))
    }
}

/// The UTC instant of local midnight of the local day containing `t`.
pub open spec fn midnight_secs(t: Timestamp, off: UtcOffset) -> int {
    t.secs - local_secs_of_day(t, off)
}

/// Seconds since local midnight of the local instant `local`, computed by
/// Euclidean remainder so that days before the epoch work the same way.
fn floor_mod_day(local: i64) -> (r: i64)
    requires
        i64::MIN + SECONDS_PER_DAY < local,
    ensures
        r == local as int % (SECONDS_PER_DAY as int),
        0 <= r < SECONDS_PER_DAY,
{
    if local >= 0 {
        ((local as u64) % 86400) as i64
    } else {
        let m: u64 = ((-local) as u64) % 86400;
        let r: i64 = if m == 0 {
            0
        } else {
            86400 - m as i64
        };
        proof {
            let n = (-local) as int;
            lemma_fundamental_div_mod(n, 86400);
            if m == 0 {
                lemma_fundamental_div_mod_converse(local as int, 86400, -(n / 86400), 0);
            } else {
                lemma_fundamental_div_mod_converse(
                    local as int,
                    86400,
                    -(n / 86400) - 1,
                    86400 - m as int,
                );
            }
        }
        r
    }
}

/// Returns the slot offset from the top of the day grid for the given
/// instant, read as local wall-clock time under `offset`.
pub fn time_to_slots(datetime: Timestamp, offset: UtcOffset) -> (r: i64)
    requires
        offset.wf(),
        i64::MIN + SECONDS_PER_DAY < datetime.secs + offset.secs <= i64::MAX,
    ensures
        r == slot_index(datetime, offset),
        0 <= r < SLOTS_PER_DAY,
{
    let local: i64 = datetime.secs + offset.secs as i64;
    let sod: i64 = floor_mod_day(local);
    ((sod as u64) / 300) as i64
}

/// Returns the instant equivalent to the given slot number on the day that
/// begins at `day_start` (the UTC instant of a local midnight).
pub fn slots_to_time(slots: i64, day_start: Timestamp) -> (r: Timestamp)
    requires
        -30_000_000_000_000_000 <= slots <= 30_000_000_000_000_000,
        i64::MIN <= day_start.secs + slots * SECONDS_PER_SLOT <= i64::MAX,
    ensures
        r.secs == day_start.secs + slots * SECONDS_PER_SLOT,
{
    Timestamp { secs: day_start.secs + slots * 300 }
}

/// Returns the span equivalent to the given amount of slots.
pub fn slots_to_duration(slots: i64) -> (r: TimeDelta)
    requires
        -30_000_000_000_000_000 <= slots <= 30_000_000_000_000_000,
    ensures
        r.secs == slots * SECONDS_PER_SLOT,
{
    TimeDelta { secs: slots * 300 }
}

/// Returns the amount of whole slots the given span covers, truncating any
/// sub-slot remainder toward zero.
pub fn duration_to_slots(duration: TimeDelta) -> (r: i64)
    requires
        duration.secs > i64::MIN,
    ensures
        r == duration_slots(duration.secs as int),
{
    if duration.secs >= 0 {
        proof {
            lemma_div_denominator(duration.secs as int, 60, 5);
        }
        ((duration.secs as u64 / 60) / 5) as i64
    } else {
        let neg: i64 = -duration.secs;
        proof {
            lemma_div_denominator(neg as int, 60, 5);
        }
        -(((neg as u64 / 60) / 5) as i64)
    }
}

/// Returns the UTC instant of local midnight of the local day containing `t`.
pub fn local_midnight(t: Timestamp, offset: UtcOffset) -> (r: Timestamp)
    requires
        offset.wf(),
        i64::MIN + SECONDS_PER_DAY < t.secs + offset.secs <= i64::MAX,
        i64::MIN + SECONDS_PER_DAY <= t.secs,
    ensures
        r.secs == midnight_secs(t, offset),
{
    let local: i64 = t.secs + offset.secs as i64;
    let sod: i64 = floor_mod_day(local);
    Timestamp { secs: t.secs - sod }
}

/// Returns the slot range `(start_slot, end_slot)` for an event: the start
/// instant's slot, and that slot plus the span's slot count (the end slot is
/// additive, not reconverted from an absolute end instant).
pub fn event_to_slots(start: Timestamp, duration: TimeDelta, offset: UtcOffset) -> (r: (i64, i64))
    requires
        offset.wf(),
        i64::MIN + SECONDS_PER_DAY < start.secs + offset.secs <= i64::MAX,
        duration.secs > i64::MIN,
    ensures
        r.0 == slot_index(start, offset),
        r.1 == slot_index(start, offset) + duration_slots(duration.secs as int),
{
    let start_slots = time_to_slots(start, offset);
    let duration_slots = duration_to_slots(duration);
    proof {
        if duration.secs >= 0 {
            lemma_div_by_multiple_bound(duration.secs as int);
        } else {
            lemma_div_by_multiple_bound(-duration.secs as int);
        }
    }
    (start_slots, start_slots + duration_slots)
}

proof fn lemma_div_by_multiple_bound(x: int)
    requires
        0 <= x,
    ensures
        0 <= x / 300 <= x,
{
    lemma_fundamental_div_mod(x, 300);
    assert(0 <= x / 300 <= x) by (nonlinear_arith)
        requires
            x == 300 * (x / 300) + x % 300 && 0 <= x % 300 < 300 && 0 <= x,
    ;
}

/// Slot round-trip: an instant on some local day whose local wall-clock time
/// has zero seconds and a minute count that is a multiple of the slot width
/// is recovered exactly by converting it to its slot index and back, anchored
/// at that day's local midnight. In terms of the executable functions:
/// `slots_to_time(time_to_slots(t, off), local_midnight(t, off)) == t`.
pub proof fn lemma_slot_round_trip(t: Timestamp, off: UtcOffset)
    requires
        off.wf(),
        (t.secs + off.secs) % (SECONDS_PER_SLOT as int) == 0,
    ensures
        midnight_secs(t, off) + slot_index(t, off) * SECONDS_PER_SLOT == t.secs,
{
    let x = t.secs + off.secs as int;
    let sod = x % 86400;
    lemma_mod_mod(x, 300, 288);
    assert(sod % 300 == 0);
    lemma_fundamental_div_mod(sod, 300);
    assert(sod / 300 * 300 == sod) by (nonlinear_arith)
        requires
            sod == 300 * (sod / 300) + sod % 300 && sod % 300 == 0,
    ;
}

/// Duration round-trip: a non-negative span that is an exact multiple of the
/// slot width is recovered exactly by converting it to slots and back. In
/// terms of the executable functions:
/// `slots_to_duration(duration_to_slots(d)) == d`.
pub proof fn lemma_duration_round_trip(d: TimeDelta)
    requires
        d.secs >= 0,
        d.secs as int % (SECONDS_PER_SLOT as int) == 0,
    ensures
        duration_slots(d.secs as int) * SECONDS_PER_SLOT == d.secs,
{
    lemma_fundamental_div_mod(d.secs as int, 300);
    assert(d.secs / 300 * 300 == d.secs) by (nonlinear_arith)
        requires
            d.secs as int == 300 * (d.secs as int / 300) + d.secs as int % 300 && d.secs as int
                % 300 == 0,
    ;
}

} // verus!
