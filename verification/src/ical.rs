//! Materializing recurring events: a recurrence rule, a fixed per-occurrence
//! span, and a bounded query window produce the concrete occurrences that
//! fall strictly inside the window.
//!
//! Rule grammar evaluation (RFC-5545) is delegated to the `rrule` crate
//! behind a narrow trusted interface; this module owns the bounding, the
//! strict window filtering, the projection to UTC seconds and the attaching
//! of the fixed span. A rule may name the machine's local timezone (a
//! `DTSTART` without `Z` or `TZID`), so what the engine generates is not a
//! function of the rule value alone; the contracts here state what holds of
//! every outcome instead of naming one.

use crate::time::{TimeDelta, Timestamp};
use vstd::prelude::*;

verus! {

/// Instants within this bound (about 250,000 years either side of the
/// epoch) are representable by the rule engine, whose calendar covers about
/// 262,000 years either side; query windows and rule anchors must stay
/// inside the bound.
pub const MAX_INSTANT_SECS: i64 = 8_000_000_000_000;

/// The hard cap on raw rule instances generated per expansion; it bounds
/// work and memory against infinite or pathological rules.
pub const MAX_OCCURRENCES: u16 = 65535;

#[verifier::external_type_specification]
#[verifier::external_body]
pub struct ExRRuleSet(rrule::RRuleSet);

/// An instant lies inside the range the rule engine can represent.
pub open spec fn representable(t: Timestamp) -> bool {
    -MAX_INSTANT_SECS < t.secs < MAX_INSTANT_SECS
}

/// Relies on rrule's `RRuleSet::{before, after, all}` and chrono's
/// `DateTime::{from_timestamp, with_timezone, timestamp}`: the rule's
/// occurrence start times as UTC seconds, chronological, capped at `limit`,
/// and each inside the window, bounds included (rrule keeps a generated
/// instant exactly when it lies in `[after, before]`). Which instants the
/// rule generates may depend on the machine's timezone, so nothing is
/// claimed beyond these bounds.
#[verifier::external_body]
fn rrule_starts(r: &rrule::RRuleSet, after: &Timestamp, before: &Timestamp, limit: u16) -> (v: Vec<
    i64,
>)
    requires
        representable(*after),
        representable(*before),
    ensures
        v@.len() <= limit,
        forall|i: int| 0 <= i < v@.len() ==> after.secs <= #[trigger] v@[i] <= before.secs,
        forall|i: int, j: int| 0 <= i <= j < v@.len() ==> v@[i] <= v@[j],
{
    let a = chrono::DateTime::from_timestamp(after.secs, 0).unwrap().with_timezone(&rrule::Tz::UTC);
    let b = chrono::DateTime::from_timestamp(before.secs, 0).unwrap().with_timezone(
        &rrule::Tz::UTC,
    );
    let dates = r.clone().before(b).after(a).all(limit).dates;
    dates.into_iter().map(|d| d.timestamp()).collect()
}

/// A named recurrence rule with the fixed span of each of its occurrences.
pub struct ICalEvent {
    pub summary: String,
    pub duration: TimeDelta,
    pub rrule: rrule::RRuleSet,
}

impl ICalEvent {
    /// The fixed span was derived from representable template instants.
    pub open spec fn wf(self) -> bool {
        -2 * MAX_INSTANT_SECS < self.duration.secs < 2 * MAX_INSTANT_SECS
    }

    /// Builds the event from a template occurrence: the span of every
    /// occurrence is `dtend - dtstart`. The rule is stored as given; every
    /// expansion through this module supplies its own window, which bounds
    /// the generated instants on both sides.
    pub fn new(summary: &str, dtstart: Timestamp, dtend: Timestamp, rrule: rrule::RRuleSet) -> (r:
        Self)
        requires
            representable(dtstart),
            representable(dtend),
        ensures
            r.summary@ == summary@,
            r.duration.secs == dtend.secs - dtstart.secs,
            r.rrule == rrule,
            r.wf(),
    {
        Self {
            summary: summary.to_owned(),
            duration: TimeDelta { secs: dtend.secs - dtstart.secs },
            rrule,
        }
    }
}

/// A materialized occurrence of a recurring event: a non-owning projection
/// carrying no completion state, with both boundaries as UTC instants.
#[derive(Debug, Clone)]
pub struct ChronicleEvent {
    pub summary: String,
    pub start: Timestamp,
    pub end: Timestamp,
}

/// What one bounded expansion promises of its start instants: at most
/// `MAX_OCCURRENCES` of them, each strictly inside the window, in
/// chronological order.
pub open spec fn starts_wf(starts: Seq<Timestamp>, after: Timestamp, before: Timestamp) -> bool {
    &&& starts.len() <= MAX_OCCURRENCES
    &&& forall|i: int|
        0 <= i < starts.len() ==> after.secs < (#[trigger] starts[i]).secs < before.secs
    &&& forall|i: int, j: int| 0 <= i <= j < starts.len() ==> starts[i].secs <= starts[j].secs
}

/// What one bounded expansion promises of its occurrence list: at most
/// `MAX_OCCURRENCES` occurrences, each carrying the event's summary and its
/// fixed span (`end - start == duration`, without truncation), each start
/// strictly inside the window, in chronological order.
pub open spec fn occurrences_wf(
    event: ICalEvent,
    occs: Seq<ChronicleEvent>,
    after: Timestamp,
    before: Timestamp,
) -> bool {
    &&& occs.len() <= MAX_OCCURRENCES
    &&& forall|i: int| 0 <= i < occs.len() ==> (#[trigger] occs[i]).summary == event.summary
    &&& forall|i: int|
        0 <= i < occs.len() ==> after.secs < (#[trigger] occs[i]).start.secs < before.secs
    &&& forall|i: int|
        0 <= i < occs.len() ==> (#[trigger] occs[i]).end.secs == occs[i].start.secs
            + event.duration.secs
    &&& forall|i: int, j: int| 0 <= i <= j < occs.len() ==> occs[i].start.secs <= occs[j].start.secs
}

/// The concatenation of the given per-event occurrence lists, in order.
pub open spec fn concat_of(parts: Seq<Seq<ChronicleEvent>>) -> Seq<ChronicleEvent>
    decreases parts.len(),
{
    if parts.len() == 0 {
        Seq::empty()
    } else {
        concat_of(parts.drop_last()) + parts.last()
    }
}

/// Returns the start times the rule generates strictly within the window,
/// chronological, capped at `MAX_OCCURRENCES` raw instances.
pub fn get_event_dates(event: &ICalEvent, after: &Timestamp, before: &Timestamp) -> (v: Vec<
    Timestamp,
>)
    requires
        representable(*after),
        representable(*before),
    ensures
        starts_wf(v@, *after, *before),
{
    let starts = rrule_starts(&event.rrule, after, before, MAX_OCCURRENCES);
    let mut v: Vec<Timestamp> = Vec::new();
    let mut i: usize = 0;
    while i < starts.len()
        invariant
            i <= starts@.len(),
            starts@.len() <= MAX_OCCURRENCES,
            forall|k: int| 0 <= k < starts@.len() ==> after.secs <= #[trigger] starts@[k]
                <= before.secs,
            forall|k1: int, k2: int|
                0 <= k1 <= k2 < starts@.len() ==> starts@[k1] <= starts@[k2],
            v@.len() <= i,
            forall|k: int|
                0 <= k < v@.len() ==> after.secs < (#[trigger] v@[k]).secs < before.secs,
            forall|k1: int, k2: int|
                0 <= k1 <= k2 < v@.len() ==> v@[k1].secs <= v@[k2].secs,
            i > 0 ==> forall|k: int|
                0 <= k < v@.len() ==> (#[trigger] v@[k]).secs <= starts@[i - 1],
        decreases starts@.len() - i,
    {
        let s = starts[i];
        if after.secs < s && s < before.secs {
            v.push(Timestamp { secs: s });
        }
        i += 1;
    }
    v
}

/// Returns the occurrences of `event` whose rule-generated start times fall
/// strictly within the window, each projected to UTC with
/// `end = start + duration`. At most `MAX_OCCURRENCES` raw instances are
/// generated, so expansion terminates even for unbounded rules.
pub fn get_event_occurrences(event: &ICalEvent, after: &Timestamp, before: &Timestamp) -> (v: Vec<
    ChronicleEvent,
>)
    requires
        event.wf(),
        representable(*after),
        representable(*before),
    ensures
        occurrences_wf(*event, v@, *after, *before),
{
    let starts = rrule_starts(&event.rrule, after, before, MAX_OCCURRENCES);
    let mut v: Vec<ChronicleEvent> = Vec::new();
    let mut i: usize = 0;
    while i < starts.len()
        invariant
            i <= starts@.len(),
            starts@.len() <= MAX_OCCURRENCES,
            event.wf(),
            representable(*after),
            representable(*before),
            forall|k: int| 0 <= k < starts@.len() ==> after.secs <= #[trigger] starts@[k]
                <= before.secs,
            forall|k1: int, k2: int|
                0 <= k1 <= k2 < starts@.len() ==> starts@[k1] <= starts@[k2],
            v@.len() <= i,
            forall|k: int| 0 <= k < v@.len() ==> (#[trigger] v@[k]).summary == event.summary,
            forall|k: int|
                0 <= k < v@.len() ==> after.secs < (#[trigger] v@[k]).start.secs < before.secs,
            forall|k: int|
                0 <= k < v@.len() ==> (#[trigger] v@[k]).end.secs == v@[k].start.secs
                    + event.duration.secs,
            forall|k1: int, k2: int|
                0 <= k1 <= k2 < v@.len() ==> v@[k1].start.secs <= v@[k2].start.secs,
            i > 0 ==> forall|k: int|
                0 <= k < v@.len() ==> (#[trigger] v@[k]).start.secs <= starts@[i - 1],
        decreases starts@.len() - i,
    {
        let s = starts[i];
        if after.secs < s && s < before.secs {
            v.push(
                ChronicleEvent {
                    summary: event.summary.clone(),
                    start: Timestamp { secs: s },
                    end: Timestamp { secs: s + event.duration.secs },
                },
            );
        }
        i += 1;
    }
    v
}

/// Returns the occurrences of every event over the same window, expanded
/// independently and concatenated in the events' order: the result splits
/// into one well-formed occurrence list per event.
pub fn get_events_in_range(events: &Vec<ICalEvent>, after: &Timestamp, before: &Timestamp) -> (v:
    Vec<ChronicleEvent>)
    requires
        forall|k: int| 0 <= k < events@.len() ==> (#[trigger] events@[k]).wf(),
        representable(*after),
        representable(*before),
    ensures
        exists|parts: Seq<Seq<ChronicleEvent>>|
            {
                &&& #[trigger] concat_of(parts) == v@
                &&& parts.len() == events@.len()
                &&& forall|k: int|
                    0 <= k < parts.len() ==> occurrences_wf(
                        events@[k],
                        #[trigger] parts[k],
                        *after,
                        *before,
                    )
            },
{
    let ghost mut parts: Seq<Seq<ChronicleEvent>> = Seq::empty();
    let mut v: Vec<ChronicleEvent> = Vec::new();
    let mut i: usize = 0;
    while i < events.len()
        invariant
            i <= events@.len(),
            forall|k: int| 0 <= k < events@.len() ==> (#[trigger] events@[k]).wf(),
            representable(*after),
            representable(*before),
            parts.len() == i,
            v@ == concat_of(parts),
            forall|k: int|
                0 <= k < parts.len() ==> occurrences_wf(
                    events@[k],
                    #[trigger] parts[k],
                    *after,
                    *before,
                ),
        decreases events@.len() - i,
    {
        let mut occ = get_event_occurrences(&events[i], after, before);
        proof {
            let prev = parts;
            parts = parts.push(occ@);
            assert(parts.drop_last() =~= prev);
            assert(concat_of(parts) == v@ + occ@);
        }
        v.append(&mut occ);
        i += 1;
    }
    v
}

} // verus!
