//! Tasks, timed events, completion semantics and pairwise overlap
//! classification.

use crate::time::{clock_bounded, now_seconds, today, Date, TimeDelta, Timestamp};
use core::ops::Range;
use vstd::prelude::*;

verus! {

/// An unscheduled intent for a given day.
pub struct Task {
    pub date: Date,
    pub name: String,
}

impl Task {
    pub fn new(name: &str, date: Date) -> (r: Self)
        ensures
            r.name@ == name@,
            r.date == date,
    {
        Task { date, name: name.to_owned() }
    }

    /// A task for the current local date.
    pub fn new_today(name: &str) -> (r: Self)
        ensures
            r.name@ == name@,
            r.date.wf(),
            -262144 < r.date.year < 262144,
    {
        Task::new(name, today())
    }

    /// Schedules the task as an event with an explicit start and span.
    pub fn manual_schedule(&self, start: Timestamp, duration: TimeDelta) -> (r: Event)
        ensures
            r.name@ == self.name@,
            r.start == start,
            r.duration == duration,
            r.completed_on is None,
    {
        Event::new(self.name.as_str(), start, duration)
    }
}

/// A span of acceptable durations for a task whose length is not fixed yet.
pub struct DynamicTaskDuration(pub Range<TimeDelta>);

/// A named, timed, optionally-completed interval on the time axis.
#[derive(Debug, Clone)]
pub struct Event {
    pub name: String,
    pub start: Timestamp,
    pub duration: TimeDelta,
    pub completed_on: Option<Timestamp>,
}

impl Event {
    /// The instant the event ends at, as a mathematical integer.
    pub open spec fn end_secs(self) -> int {
        self.start.secs + self.duration.secs
    }

    /// The candidate's end falls inside or at the boundary of this event's
    /// span: this event starts before the candidate ends and reaches at
    /// least as far as the candidate's end.
    pub open spec fn top_collision(self, other_start: Timestamp, other_duration: TimeDelta) -> bool {
        self.start.secs < other_start.secs + other_duration.secs && self.end_secs()
            >= other_start.secs + other_duration.secs
    }

    /// The candidate starts inside this event's span.
    pub open spec fn bottom_collision(
        self,
        other_start: Timestamp,
        other_duration: TimeDelta,
    ) -> bool {
        self.start.secs <= other_start.secs && self.end_secs() > other_start.secs
    }

    /// The classification `check_collision_with` returns, as a value.
    pub open spec fn spec_collision_with(
        self,
        other_start: Timestamp,
        other_duration: TimeDelta,
    ) -> Option<Collision> {
        let end = Timestamp { secs: self.end_secs() as i64 };
        if self.top_collision(other_start, other_duration) && self.bottom_collision(
            other_start,
            other_duration,
        ) {
            Some(Collision::Full { start: self.start, end })
        } else if self.top_collision(other_start, other_duration) {
            Some(Collision::Top { start: self.start })
        } else if self.bottom_collision(other_start, other_duration) {
            Some(Collision::Bottom { end })
        } else {
            None
        }
    }

    pub fn new(name: &str, start: Timestamp, duration: TimeDelta) -> (r: Self)
        ensures
            r.name@ == name@,
            r.start == start,
            r.duration == duration,
            r.completed_on is None,
    {
        Event { name: name.to_owned(), start, duration, completed_on: None }
    }

    pub fn is_completed(&self) -> (r: bool)
        ensures
            r == (self.completed_on is Some),
    {
        self.completed_on.is_some()
    }

    /// Marks the event as completed at the given instant. The event's span
    /// is redefined as the actual time it took: `now - start`.
    pub fn mark_completed_at(&mut self, now: Timestamp)
        requires
            i64::MIN <= now.secs - old(self).start.secs <= i64::MAX,
        ensures
            final(self).name == old(self).name,
            final(self).start == old(self).start,
            final(self).completed_on == Some(now),
            final(self).duration.secs == now.secs - old(self).start.secs,
    {
        self.completed_on = Some(now);
        self.duration = TimeDelta { secs: now.secs - self.start.secs };
    }

    /// The outcome of one completion attempt at the clock instant `now`:
    /// when the elapsed span `now - start` is representable it is recorded,
    /// otherwise the event is left as it was.
    pub open spec fn completion_outcome(pre: Event, post: Event, now: Timestamp) -> bool {
        &&& clock_bounded(now)
        &&& if i64::MIN <= now.secs - pre.start.secs <= i64::MAX {
            &&& post.completed_on == Some(now)
            &&& post.duration.secs == now.secs - pre.start.secs
            &&& post.name == pre.name
            &&& post.start == pre.start
        } else {
            post == pre
        }
    }

    /// Marks the event as completed at the current instant, truncated to
    /// whole seconds. When the clock reading lies so far from the event's
    /// start that the elapsed span is not representable, the event is left
    /// unchanged; for every start a real clock can reach, the completion is
    /// recorded.
    pub fn mark_completed(&mut self)
        ensures
            final(self).name == old(self).name,
            final(self).start == old(self).start,
            exists|now: Timestamp| Event::completion_outcome(*old(self), *final(self), now),
    {
        let now = now_seconds();
        match now.secs.checked_sub(self.start.secs) {
            Some(_) => self.mark_completed_at(now),
            None => (),
        }
        proof {
            assert(Event::completion_outcome(*old(self), *self, now));
        }
    }

    /// Whether the event's span contains the given instant (boundaries
    /// included). Completion does not exempt an event: a completed event
    /// whose possibly shrunk span still contains the instant is ongoing.
    pub fn is_ongoing_at(&self, now: Timestamp) -> (r: bool)
        requires
            i64::MIN <= self.end_secs() <= i64::MAX,
        ensures
            r == (self.start.secs <= now.secs <= self.end_secs()),
    {
        self.start.secs <= now.secs && now.secs <= self.start.secs + self.duration.secs
    }

    /// Whether the event's span contains the current instant: the result
    /// holds exactly when some bounded clock instant lies inside the span.
    /// `is_ongoing_at` carries the same meaning for a pinned instant.
    pub fn is_ongoing(&self) -> (r: bool)
        requires
            i64::MIN <= self.end_secs() <= i64::MAX,
        ensures
            exists|now: Timestamp|
                clock_bounded(now) && r == (self.start.secs <= now.secs <= self.end_secs()),
    {
        let now = now_seconds();
        let r = self.is_ongoing_at(now);
        proof {
            assert(clock_bounded(now) && r == (self.start.secs <= now.secs <= self.end_secs()));
        }
        r
    }

    /// Classifies how a candidate interval `[other_start,
    /// other_start + other_duration)` overlaps this event, in the frame of
    /// this event as the existing one. `None` means no overlap of the
    /// classified kinds; boundary-touching intervals do not collide.
    pub fn check_collision_with(
        &self,
        other_start: Timestamp,
        other_duration: TimeDelta,
    ) -> (r: Option<Collision>)
        requires
            i64::MIN <= self.end_secs() <= i64::MAX,
            i64::MIN <= other_start.secs + other_duration.secs <= i64::MAX,
        ensures
            r == self.spec_collision_with(other_start, other_duration),
            (r is Some) == (self.top_collision(other_start, other_duration)
                || self.bottom_collision(other_start, other_duration)),
    {
        let self_end = self.start.secs + self.duration.secs;
        let other_end = other_start.secs + other_duration.secs;

        let top_collision = self.start.secs < other_end && self_end >= other_end;
        let bottom_collision = self.start.secs <= other_start.secs && self_end > other_start.secs;

        if top_collision && bottom_collision {
            return Some(
                Collision::Full { start: self.start, end: Timestamp { secs: self_end } },
            );
        }
        if top_collision {
            return Some(Collision::Top { start: self.start });
        }
        if bottom_collision {
            return Some(Collision::Bottom { end: Timestamp { secs: self_end } });
        }
        None
    }
}

/// A classified temporal overlap between two intervals, tagged by which
/// boundary of the subject event overlaps the candidate.
#[derive(Debug, Clone, Copy, PartialEq, Eq, Structural)]
pub enum Collision {
    Top { start: Timestamp },
    Bottom { end: Timestamp },
    Full { start: Timestamp, end: Timestamp },
}

} // verus!
