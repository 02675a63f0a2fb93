use chronicle::time::{local_now, today, utc_now, TimeDelta, Timestamp, UtcOffset};
use chronicle::util::{
    duration_to_slots, event_to_slots, local_midnight, slots_to_duration, slots_to_time,
    time_to_slots, MINUTES_PER_SLOT, ONE_HOUR_SLOTS, PIXELS_PER_DAY, PIXELS_PER_MINUTE,
    SLOTS_PER_DAY,
};

/// 2021-01-01 00:00:00 UTC, a local midnight under a zero offset.
const DAY: i64 = 18628 * 86400;

#[test]
fn test_pixel_conversions() {
    let (now, offset) = local_now();
    // Truncate the local wall-clock time down to a slot boundary.
    let local_secs = now.secs + offset.secs as i64;
    let aligned = Timestamp {
        secs: now.secs - local_secs.rem_euclid(MINUTES_PER_SLOT * 60),
    };
    println!("{:?}", aligned);
    let start_slot = time_to_slots(aligned, offset);
    println!("{:?}", start_slot);
    let start_time = slots_to_time(start_slot, local_midnight(aligned, offset));
    assert_eq!(start_time, aligned);
    let duration = TimeDelta { secs: 30 * 60 };
    let end_time = Timestamp {
        secs: start_time.secs + duration.secs,
    };
    let end_slot = time_to_slots(end_time, offset);
    if end_slot >= start_slot {
        // Not within half an hour of the end of the local day.
        let duration_slots = end_slot - start_slot;
        assert_eq!(duration_slots, duration_to_slots(duration));
    }
}

#[test]
fn test_grid_constants() {
    assert_eq!(MINUTES_PER_SLOT, 5);
    assert_eq!(PIXELS_PER_MINUTE, 2);
    assert_eq!(ONE_HOUR_SLOTS, 12);
    assert_eq!(SLOTS_PER_DAY, 288);
    assert_eq!(PIXELS_PER_DAY, 2880);
}

#[test]
fn test_time_to_slots_fixed_instants() {
    // 2021-01-01 10:30:00 UTC.
    let t = Timestamp { secs: DAY + 37800 };
    assert_eq!(time_to_slots(t, UtcOffset { secs: 0 }), 126);
    // One hour west of UTC it is 09:30 local.
    assert_eq!(time_to_slots(t, UtcOffset { secs: -3600 }), 114);
    // One hour east of UTC it is 11:30 local.
    assert_eq!(time_to_slots(t, UtcOffset { secs: 3600 }), 138);
    // Seconds and sub-slot minutes are truncated away.
    let t2 = Timestamp {
        secs: DAY + 37800 + 299,
    };
    assert_eq!(time_to_slots(t2, UtcOffset { secs: 0 }), 126);
}

#[test]
fn test_time_to_slots_before_epoch() {
    // 1969-12-31 23:59:59 UTC falls in the last slot of its day.
    let t = Timestamp { secs: -1 };
    assert_eq!(time_to_slots(t, UtcOffset { secs: 0 }), 287);
}

#[test]
fn test_slot_round_trip_on_fixed_day() {
    // 10:30 local under an offset of +02:00.
    let off = UtcOffset { secs: 7200 };
    let t = Timestamp {
        secs: DAY + 37800 - 7200,
    };
    let slot = time_to_slots(t, off);
    assert_eq!(slot, 126);
    let midnight = local_midnight(t, off);
    assert_eq!(midnight.secs, DAY - 7200);
    assert_eq!(slots_to_time(slot, midnight), t);
}

#[test]
fn test_duration_round_trip() {
    let d = TimeDelta { secs: 1800 };
    let slots = duration_to_slots(d);
    assert_eq!(slots, 6);
    assert_eq!(slots_to_duration(slots), d);
}

#[test]
fn test_duration_truncates_toward_zero() {
    assert_eq!(duration_to_slots(TimeDelta { secs: 1799 }), 5);
    assert_eq!(duration_to_slots(TimeDelta { secs: -1799 }), -5);
    assert_eq!(duration_to_slots(TimeDelta { secs: -1800 }), -6);
    assert_eq!(slots_to_duration(-6), TimeDelta { secs: -1800 });
}

#[test]
fn test_event_to_slots_additive_end() {
    // An event from 10:00 to 10:30 UTC under a zero offset.
    let start = Timestamp { secs: DAY + 36000 };
    let (s, e) = event_to_slots(start, TimeDelta { secs: 1800 }, UtcOffset { secs: 0 });
    assert_eq!((s, e), (120, 126));
    // The end slot is additive, so it may run past the day.
    let late = Timestamp { secs: DAY + 86100 };
    let (s2, e2) = event_to_slots(late, TimeDelta { secs: 3600 }, UtcOffset { secs: 0 });
    assert_eq!((s2, e2), (287, 299));
}

#[test]
fn test_utc_now_is_minute_aligned() {
    let now = utc_now();
    assert_eq!(now.secs % 60, 0);
}

#[test]
fn test_today_is_a_real_date() {
    let d = today();
    assert!(1 <= d.month && d.month <= 12);
    assert!(1 <= d.day && d.day <= 31);
}
