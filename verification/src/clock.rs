//! Reading the wall clock: the system time since 1970, turned into a UTC
//! moment and calendar date by chrono. Either step can fail, and then the
//! reading is `None`.

use vstd::prelude::*;
use chrono::{Datelike, Timelike};
use crate::logger::CalendarTime;
use crate::users::Moment;

verus! {

/// One reading of the current UTC time, in the forms its users need.
pub struct UtcNow {
    /// Whole seconds since the Unix epoch.
    pub timestamp: i64,
    /// The same instant as day, second of day and nanosecond.
    pub moment: Moment,
    /// The same instant as a calendar shows it.
    pub calendar: CalendarTime,
}

/// The calendar date and time of day chrono gives for `secs` seconds after
/// 1970-01-01 00:00:00 UTC.
pub uninterp spec fn utc_calendar(secs: i64) -> CalendarTime;

/// The day count from 1 January of year 1 (that day being day 1) of the day
/// `secs` seconds after the epoch, 1970-01-01 being day 719 163.
pub open spec fn day_of_timestamp(secs: int) -> int {
    secs / 86_400 + 719_163
}

impl UtcNow {
    /// The reading is a moment at or after 1970, not a leap second, whose
    /// three forms name the same instant and whose calendar fields lie in
    /// their ranges.
    pub open spec fn consistent(self) -> bool {
        &&& 0 <= self.timestamp
        &&& self.moment.wf()
        &&& self.moment.frac < 1_000_000_000
        &&& self.moment.days == day_of_timestamp(self.timestamp as int)
        &&& self.moment.secs == self.timestamp % 86_400
        &&& self.calendar == utc_calendar(self.timestamp)
        &&& 1 <= self.calendar.month <= 12
        &&& 1 <= self.calendar.day <= 31
        &&& self.calendar.hour < 24
        &&& self.calendar.minute < 60
        &&& self.calendar.second < 60
    }
}

/// A consistent reading is fixed by its timestamp and nanosecond: two
/// readings that agree on them agree on the moment and the calendar, so no
/// field can be changed on its own (cut to midnight, say) and stay consistent.
pub proof fn lemma_reading_determined(a: UtcNow, b: UtcNow)
    requires
        a.consistent(),
        b.consistent(),
        a.timestamp == b.timestamp,
        a.moment.frac == b.moment.frac,
    ensures
        a.moment == b.moment,
        a.calendar == b.calendar,
{
}

#[verifier::external_type_specification]
#[verifier::external_body]
pub struct ExSystemTime(std::time::SystemTime);

/// std's `SystemTime::now()`: the system clock's reading, which nothing here
/// constrains.
#[verifier::external_body]
fn system_now() -> (t: std::time::SystemTime) {
    std::time::SystemTime::now()
}

/// std's `t.duration_since(UNIX_EPOCH)`: `None` when `t` is earlier than
/// 1970 (std's documented error), else the time elapsed since then. The
/// duration is opaque here, so nothing more is said of it.
#[verifier::external_body]
fn since_epoch(t: &std::time::SystemTime) -> (d: Option<core::time::Duration>) {
    match t.duration_since(std::time::UNIX_EPOCH) {
        Ok(d) => Some(d),
        Err(_) => None,
    }
}

/// std's `Duration::as_secs`: the whole seconds of `d`, which is opaque here,
/// so nothing is said of the result.
#[verifier::external_body]
fn whole_seconds(d: &core::time::Duration) -> (s: u64) {
    d.as_secs()
}

/// std's `Duration::subsec_nanos`: the nanoseconds of `d` past its whole
/// seconds, which std documents as always below one second.
#[verifier::external_body]
fn subsec_nanos(d: &core::time::Duration) -> (n: u32)
    ensures
        n < 1_000_000_000,
{
    d.subsec_nanos()
}

/// chrono's `DateTime::from_timestamp(secs, nanos)` (`None` for seconds out
/// of chrono's range, years -262143 to 262142), read through `timestamp`
/// and the `Datelike`/`Timelike` accessors. chrono computes the day as
/// `secs.div_euclid(86_400)` days after day 719 163 and the second of the day
/// as `secs.rem_euclid(86_400)`, and the round trip of `timestamp` and the
/// nanosecond is documented; its range keeps the day count within
/// ±100 000 000. The calendar fields are named by `utc_calendar` and have the
/// ranges chrono documents. Which seconds fall out of range is left unsaid.
#[verifier::external_body]
fn utc_from_timestamp(secs: i64, nanos: u32) -> (r: Option<UtcNow>)
    requires
        nanos < 1_000_000_000,
    ensures
        r matches Some(v) ==> {
            &&& v.timestamp == secs
            &&& v.moment.frac == nanos
            &&& v.moment.days == day_of_timestamp(secs as int)
            &&& v.moment.secs == secs % 86_400
            &&& -100_000_000 <= v.moment.days <= 100_000_000
            &&& v.calendar == utc_calendar(secs)
            &&& 1 <= v.calendar.month <= 12
            &&& 1 <= v.calendar.day <= 31
            &&& v.calendar.hour < 24
            &&& v.calendar.minute < 60
            &&& v.calendar.second < 60
        },
{
    let t = chrono::DateTime::from_timestamp(secs, nanos)?;
    Some(UtcNow {
        timestamp: t.timestamp(),
        moment: Moment { days: t.num_days_from_ce() as i64, secs: t.num_seconds_from_midnight(), frac: t.nanosecond() },
        calendar: CalendarTime { year: t.year(), month: t.month(), day: t.day(),
            hour: t.hour(), minute: t.minute(), second: t.second() },
    })
}

/// The current UTC time (what `chrono::Utc::now()` reads), or `None` where
/// `Utc::now()` would panic: the system clock reads before 1970, or beyond
/// chrono's range.
pub(crate) fn utc_now() -> (t: Option<UtcNow>)
    ensures
        t matches Some(v) ==> v.consistent(),
{
    let elapsed = since_epoch(&system_now())?;
    let secs = whole_seconds(&elapsed);
    let nanos = subsec_nanos(&elapsed);
    if secs > 9_223_372_036_854_775_807u64 {
        return None;
    }
    let v = utc_from_timestamp(secs as i64, nanos)?;
    assert(v.moment.frac == nanos);
    Some(v)
}

} // verus!
