//! Plain value types for instants, spans, dates and offsets, and the
//! clock readings that the rest of the crate builds on.

use chrono::Datelike;
use chrono::Timelike;
use vstd::prelude::*;

verus! {

/// An absolute instant, counted in whole seconds since the Unix epoch (UTC).
#[derive(Clone, Copy, PartialEq, Eq, Structural, Debug)]
pub struct Timestamp {
    pub secs: i64,
}

/// A signed span of time, counted in whole seconds.
#[derive(Clone, Copy, PartialEq, Eq, Structural, Debug)]
pub struct TimeDelta {
    pub secs: i64,
}

/// A civil calendar date (proleptic Gregorian).
#[derive(Clone, Copy, PartialEq, Eq, Structural, Debug)]
pub struct Date {
    pub year: i32,
    pub month: u8,
    pub day: u8,
}

/// A local-time offset from UTC, in seconds east of UTC.
#[derive(Clone, Copy, PartialEq, Eq, Structural, Debug)]
pub struct UtcOffset {
    pub secs: i32,
}

pub open spec fn is_leap_year(y: int) -> bool {
    y % 4 == 0 && (y % 100 != 0 || y % 400 == 0)
}

pub open spec fn days_in_month(y: int, m: int) -> int {
    if m == 2 {
        if is_leap_year(y) {
            29
        } else {
            28
        }
    } else if m == 4 || m == 6 || m == 9 || m == 11 {
        30
    } else {
        31
    }
}

impl Date {
    /// The date names a real day of the calendar.
    pub open spec fn wf(self) -> bool {
        &&& 1 <= self.month <= 12
        &&& 1 <= self.day <= days_in_month(self.year as int, self.month as int)
    }
}

impl UtcOffset {
    /// Offsets of real timezones are strictly less than one day in magnitude.
    pub open spec fn wf(self) -> bool {
        -86400 < self.secs < 86400
    }
}

impl TimeDelta {
    pub open spec fn is_negative(self) -> bool {
        self.secs < 0
    }
}

/// Every instant a clock reading in this crate returns lies well inside
/// the `i64` range: chrono keeps instants within about 262,000 years of
/// the common era.
pub open spec fn clock_bounded(t: Timestamp) -> bool {
    -10_000_000_000_000 < t.secs < 10_000_000_000_000
}

/// Relies on chrono's `Utc::now`, `DateTime::with_second`,
/// `DateTime::with_nanosecond` and `DateTime::timestamp`: the current
/// instant, truncated to a whole minute. chrono keeps instants within about
/// 262,000 years of the common era, well inside the stated bound.
#[verifier::external_body]
pub fn utc_now() -> (r: Timestamp)
    ensures
        r.secs % 60 == 0,
        clock_bounded(r),
{
    let now = chrono::Utc::now().with_second(0).unwrap().with_nanosecond(0).unwrap();
    Timestamp { secs: now.timestamp() }
}

/// Relies on chrono's `Utc::now`, `DateTime::with_second`,
/// `DateTime::with_nanosecond`, the conversion into `DateTime<Local>` and
/// `FixedOffset::local_minus_utc`: the current instant truncated to a whole
/// minute, paired with the local offset from UTC in force right now. chrono
/// keeps fixed offsets strictly within one day of UTC.
#[verifier::external_body]
pub fn local_now() -> (r: (Timestamp, UtcOffset))
    ensures
        r.0.secs % 60 == 0,
        clock_bounded(r.0),
        r.1.wf(),
{
    let now = chrono::Utc::now().with_second(0).unwrap().with_nanosecond(0).unwrap();
    let local: chrono::DateTime<chrono::Local> = now.into();
    (Timestamp { secs: local.timestamp() }, UtcOffset { secs: local.offset().local_minus_utc() })
}

/// Relies on chrono's `Local::now` and `DateTime::date_naive`: the current
/// date in the local timezone. chrono only holds real civil dates, within
/// about 262,000 years of the common era.
#[verifier::external_body]
pub fn today() -> (r: Date)
    ensures
        r.wf(),
        -262144 < r.year < 262144,
{
    let d = chrono::Local::now().date_naive();
    Date { year: d.year(), month: d.month() as u8, day: d.day() as u8 }
}

/// Relies on chrono's `Utc::now` and `DateTime::timestamp`: the current
/// instant, in whole seconds (sub-second part dropped). chrono keeps
/// instants within about 262,000 years of the common era.
#[verifier::external_body]
pub(crate) fn now_seconds() -> (r: Timestamp)
    ensures
        clock_bounded(r),
{
    Timestamp { secs: chrono::Utc::now().timestamp() }
}

} // verus!
