use chrono::TimeZone;
use chronicle::ical::{
    get_event_dates, get_event_occurrences, get_events_in_range, ChronicleEvent, ICalEvent,
    MAX_OCCURRENCES,
};
use chronicle::time::Timestamp;

const LINCOLN_RULE: &str = "DTSTART:20080212\nFREQ=YEARLY;INTERVAL=1;BYMONTH=2;BYMONTHDAY=12";
const WASHINGTON_RULE: &str = "DTSTART:20080222\nFREQ=YEARLY;INTERVAL=1;BYMONTH=2;BYMONTHDAY=22";

fn at(year: i32, month: u32, day: u32, hour: u32, min: u32, sec: u32) -> Timestamp {
    let tz = rrule::Tz::UTC;
    Timestamp {
        secs: tz
            .with_ymd_and_hms(year, month, day, hour, min, sec)
            .unwrap()
            .timestamp(),
    }
}

fn lincoln() -> ICalEvent {
    ICalEvent::new(
        "Abraham Lincoln",
        at(2008, 2, 12, 0, 0, 0),
        at(2008, 2, 12, 23, 59, 59),
        LINCOLN_RULE.parse().unwrap(),
    )
}

#[test]
fn test_get_event_occurrences() {
    let now = Timestamp {
        secs: chrono::Utc::now().timestamp(),
    };
    let end = Timestamp {
        secs: now.secs + 7 * 30 * 86400,
    };
    let start = Timestamp {
        secs: now.secs - 7 * 30 * 86400,
    };
    let ical_event = lincoln();
    let result = get_event_occurrences(&ical_event, &start, &end);
    println!("{:?}", result);
}

#[test]
fn test_get_events_in_range() {
    let now = Timestamp {
        secs: chrono::Utc::now().timestamp(),
    };
    let end = Timestamp {
        secs: now.secs + 7 * 30 * 86400,
    };
    let start = Timestamp {
        secs: now.secs - 7 * 30 * 86400,
    };
    let ical_events = vec![
        ICalEvent::new(
            "Abraham Lincoln",
            at(2008, 2, 12, 2, 0, 0),
            at(2008, 2, 13, 2, 0, 0),
            LINCOLN_RULE.parse().unwrap(),
        ),
        ICalEvent::new(
            "George Washington",
            at(2008, 2, 22, 2, 0, 0),
            at(2008, 2, 23, 2, 0, 0),
            WASHINGTON_RULE.parse().unwrap(),
        ),
    ];
    let result = get_events_in_range(&ical_events, &start, &end);
    println!("{:?}", result);
}

#[test]
fn test_yearly_expansion_is_bounded_to_the_window() {
    let ev = lincoln();
    let after = at(2008, 6, 1, 0, 0, 0);
    let before = at(2009, 6, 1, 0, 0, 0);
    let occ = get_event_occurrences(&ev, &after, &before);
    assert_eq!(occ.len(), 1);
    assert_eq!(occ[0].summary, "Abraham Lincoln");
    assert_eq!(occ[0].start, at(2009, 2, 12, 0, 0, 0));
    // Each occurrence keeps the template's span.
    assert_eq!(occ[0].end.secs - occ[0].start.secs, 86399);
    assert!(after.secs < occ[0].start.secs && occ[0].start.secs < before.secs);

    // A window twice as long holds two occurrences, in order.
    let later = at(2010, 6, 1, 0, 0, 0);
    let two = get_event_occurrences(&ev, &after, &later);
    assert_eq!(two.len(), 2);
    assert_eq!(two[0].start, at(2009, 2, 12, 0, 0, 0));
    assert_eq!(two[1].start, at(2010, 2, 12, 0, 0, 0));
}

#[test]
fn test_get_event_dates_values() {
    let ev = lincoln();
    let dates = get_event_dates(&ev, &at(2008, 6, 1, 0, 0, 0), &at(2009, 6, 1, 0, 0, 0));
    assert_eq!(dates, vec![at(2009, 2, 12, 0, 0, 0)]);
}

#[test]
fn test_rule_cap() {
    // A minutely rule over a year generates far more than the cap allows;
    // expansion must still terminate and return at most the cap.
    let ev = ICalEvent::new(
        "standup",
        at(2008, 2, 12, 0, 0, 0),
        at(2008, 2, 12, 0, 30, 0),
        "DTSTART:20080212\nFREQ=MINUTELY".parse().unwrap(),
    );
    let occ = get_event_occurrences(&ev, &at(2008, 2, 11, 23, 59, 0), &at(2009, 2, 12, 0, 0, 0));
    assert_eq!(occ.len(), MAX_OCCURRENCES as usize);
}

#[test]
fn test_window_bounds_are_strict() {
    // A start that falls exactly on either window boundary is not returned.
    let ev = lincoln();
    let on_after = get_event_occurrences(&ev, &at(2009, 2, 12, 0, 0, 0), &at(2009, 6, 1, 0, 0, 0));
    assert!(on_after.is_empty());
    let on_before = get_event_occurrences(&ev, &at(2008, 6, 1, 0, 0, 0), &at(2009, 2, 12, 0, 0, 0));
    assert!(on_before.is_empty());
}

#[test]
fn test_events_in_range_concatenates_per_event() {
    let events = vec![
        ICalEvent::new(
            "Abraham Lincoln",
            at(2008, 2, 12, 0, 0, 0),
            at(2008, 2, 12, 23, 59, 59),
            LINCOLN_RULE.parse().unwrap(),
        ),
        ICalEvent::new(
            "George Washington",
            at(2008, 2, 22, 0, 0, 0),
            at(2008, 2, 22, 23, 59, 59),
            WASHINGTON_RULE.parse().unwrap(),
        ),
    ];
    let after = at(2008, 6, 1, 0, 0, 0);
    let before = at(2009, 6, 1, 0, 0, 0);
    let all: Vec<ChronicleEvent> = get_events_in_range(&events, &after, &before);
    assert_eq!(all.len(), 2);
    assert_eq!(all[0].summary, "Abraham Lincoln");
    assert_eq!(all[0].start, at(2009, 2, 12, 0, 0, 0));
    assert_eq!(all[1].summary, "George Washington");
    assert_eq!(all[1].start, at(2009, 2, 22, 0, 0, 0));
}

#[test]
fn test_template_span_is_fixed_at_construction() {
    let ev = ICalEvent::new(
        "span",
        at(2008, 2, 12, 2, 0, 0),
        at(2008, 2, 13, 2, 0, 0),
        LINCOLN_RULE.parse().unwrap(),
    );
    assert_eq!(ev.duration.secs, 86400);
}
