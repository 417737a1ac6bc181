//! Per-user settings and the daily-reward rule: a user may claim the daily
//! reward once the stored `next_daily` moment has passed.

use vstd::prelude::*;
use crate::clock::UtcNow;
use crate::text::{decimal, push_u64};

verus! {

/// A calendar moment as chrono's `NaiveDateTime` holds it: the day counted
/// from 1 January of year 1, the second of that day and the nanosecond within
/// it (1 000 000 000 and above mark a leap second).
#[derive(Clone, Copy, Debug)]
pub struct Moment {
    pub days: i64,
    pub secs: u32,
    pub frac: u32,
}

impl Moment {
    pub open spec fn wf(self) -> bool {
        &&& self.secs < 86_400
        &&& self.frac < 2_000_000_000
        &&& -1_000_000_000 <= self.days <= 1_000_000_000
    }
}

/// Seconds from `now` to `until` as chrono's `(until - now).num_seconds()`
/// computes it: whole seconds, rounded toward zero, with a leap second of one
/// side counted when the second-of-day of the other side is past it.
pub open spec fn seconds_until(until: Moment, now: Moment) -> int {
    let leap_adjust: int = if until.secs > now.secs && now.frac >= 1_000_000_000 {
        1
    } else if until.secs < now.secs && until.frac >= 1_000_000_000 {
        -1
    } else {
        0
    };
    let secs: int = (until.days - now.days) * 86_400 + (until.secs - now.secs) + leap_adjust;
    let total: int = secs * 1_000_000_000 + (until.frac - now.frac);
    if total >= 0 {
        total / 1_000_000_000
    } else {
        -((-total) / 1_000_000_000)
    }
}

/// The settings row of one user.
#[derive(Clone, Debug)]
pub struct UserSettings {
    pub id: u64,
    pub banner_set: Option<String>,
    pub banner_list: Vec<String>,
    pub badge_set: Vec<String>,
    pub badge_list: Vec<String>,
    pub color: i32,
    pub money_count: i32,
    pub point_count: i32,
    pub reputation_count: i32,
    pub next_daily: Option<Moment>,
    pub next_reputation: Option<Moment>,
}

impl UserSettings {
    /// Every field holds its empty value: no banner, empty lists, zero counts, no cooldowns.
    pub open spec fn is_blank_except_id(self) -> bool {
        &&& self.banner_set is None
        &&& self.banner_list@.len() == 0
        &&& self.badge_set@.len() == 0
        &&& self.badge_list@.len() == 0
        &&& self.color == 0
        &&& self.money_count == 0
        &&& self.point_count == 0
        &&& self.reputation_count == 0
        &&& self.next_daily is None
        &&& self.next_reputation is None
    }

    /// The settings `fetch` hands out for a user without a stored row.
    pub fn for_missing_user(id: u64) -> (s: UserSettings)
        ensures
            s.id == id,
            s.is_blank_except_id(),
    {
        UserSettings { id, ..UserSettings::default() }
    }
}

impl Default for UserSettings {
    fn default() -> (s: UserSettings)
        ensures
            s.id == 0,
            s.is_blank_except_id(),
    {
        UserSettings {
            id: 0,
            banner_set: None,
            banner_list: Vec::new(),
            badge_set: Vec::new(),
            badge_list: Vec::new(),
            color: 0,
            money_count: 0,
            point_count: 0,
            reputation_count: 0,
            next_daily: None,
            next_reputation: None,
        }
    }
}

/// The money count the credits command reports for a stored `money_count`
/// (`None` when the user has no row or the lookup failed): the value
/// reinterpreted as unsigned, 0 without a value.
pub open spec fn money_count_value(stored: Option<i32>) -> u32 {
    match stored {
        Some(v) => if v >= 0 {
            v as u32
        } else {
            (v + 0x1_0000_0000) as u32
        },
        None => 0,
    }
}

/// See `money_count_value`.
pub fn money_count_from(stored: Option<i32>) -> (r: u32)
    ensures
        r == money_count_value(stored),
{
    match stored {
        Some(v) => {
            if v >= 0 {
                v as u32
            } else {
                (v as i64 + 0x1_0000_0000i64) as u32
            }
        },
        None => 0,
    }
}

/// What `try_daily` must do for a user, decided from their stored row.
pub enum DailyPlan {
    /// No row yet: create it with the reward.
    Insert,
    /// The cooldown is over (or was never set): grant the reward.
    Update,
    /// Still cooling down; the text tells how long remains.
    Cooldown(String),
}

/// The cooldown reply for `seconds` remaining (seconds > 0):
/// `On cooldown. Remaining time: h:m:s` with hours taken modulo 24.
pub open spec fn cooldown_text(seconds: int) -> Seq<char> {
    "On cooldown. Remaining time: "@ + decimal(((seconds / 3600) % 24) as nat) + ":"@
        + decimal(((seconds / 60) % 60) as nat) + ":"@ + decimal((seconds % 60) as nat)
}

/// The plan for a user whose row holds `next_daily` (`None`: no row; `Some(None)`:
/// no cooldown stored), at time `now`.
pub open spec fn daily_plan(next_daily: Option<Option<Moment>>, now: Moment) -> Option<Seq<char>> {
    match next_daily {
        Some(Some(t)) => if seconds_until(t, now) > 0 {
            Some(cooldown_text(seconds_until(t, now)))
        } else {
            None
        },
        _ => None,
    }
}

fn seconds_between(until: Moment, now: Moment) -> (s: i64)
    requires
        until.wf(),
        now.wf(),
    ensures
        s == seconds_until(until, now),
{
    let leap_adjust: i128 = if until.secs > now.secs && now.frac >= 1_000_000_000 {
        1
    } else if until.secs < now.secs && until.frac >= 1_000_000_000 {
        -1
    } else {
        0
    };
    let secs: i128 = (until.days as i128 - now.days as i128) * 86_400
        + (until.secs as i128 - now.secs as i128) + leap_adjust;
    let total: i128 = secs * 1_000_000_000 + (until.frac as i128 - now.frac as i128);
    let r: i128 = if total >= 0 {
        total / 1_000_000_000
    } else {
        -((-total) / 1_000_000_000)
    };
    r as i64
}

/// The cooldown reply for `seconds` remaining.
pub fn cooldown_message(seconds: i64) -> (m: String)
    requires
        seconds > 0,
    ensures
        m@ == cooldown_text(seconds as int),
{
    let hours: i64 = seconds / 3600;
    let minutes: i64 = seconds / 60;
    let mut m = String::new();
    m.append("On cooldown. Remaining time: ");
    push_u64(&mut m, (hours % 24) as u64);
    m.append(":");
    push_u64(&mut m, (minutes % 60) as u64);
    m.append(":");
    push_u64(&mut m, (seconds % 60) as u64);
    m
}

/// Decides what `try_daily` does for a user whose stored row holds `next_daily`
/// (`None` when the user has no row, `Some(None)` when no cooldown is stored)
/// at time `now`: insert a new row, grant the reward on the existing row, or
/// refuse while the cooldown has seconds left.
pub fn plan_daily(next_daily: Option<Option<Moment>>, now: Moment) -> (plan: DailyPlan)
    requires
        next_daily matches Some(Some(t)) ==> t.wf(),
        now.wf(),
    ensures
        next_daily is None <==> plan is Insert,
        plan matches DailyPlan::Cooldown(text) ==> daily_plan(next_daily, now) == Some(text@),
        plan is Update <==> (next_daily is Some && daily_plan(next_daily, now) is None),
{
    match next_daily {
        None => DailyPlan::Insert,
        Some(None) => DailyPlan::Update,
        Some(Some(t)) => {
            let seconds = seconds_between(t, now);
            if seconds > 0 {
                DailyPlan::Cooldown(cooldown_message(seconds))
            } else {
                DailyPlan::Update
            }
        },
    }
}

/// The plan of the simpler settings store, which keeps no cooldown: `lookup`
/// is `None` when reading the user's row failed, otherwise whether a row
/// exists. A missing row is created with the reward, an existing one is
/// granted it, and a failed read is answered with an error text.
pub fn plan_daily_unchecked(lookup: Option<bool>) -> (r: Result<DailyPlan, &'static str>)
    ensures
        match lookup {
            None => r matches Err(e) && e@ == "The data retrieval from the database failed."@,
            Some(false) => r matches Ok(DailyPlan::Insert),
            Some(true) => r matches Ok(DailyPlan::Update),
        },
{
    match lookup {
        None => Err("The data retrieval from the database failed."),
        Some(false) => Ok(DailyPlan::Insert),
        Some(true) => Ok(DailyPlan::Update),
    }
}

/// `plan_daily` at the current time: the moment it decides with is a
/// consistent reading of the clock, its day, second and nanosecond all taken
/// from that reading. The clock is read only when a cooldown is stored; the result is `None` exactly when it then cannot be read as a
/// UTC time (it reads before 1970 or beyond chrono's range).
pub fn plan_daily_now(next_daily: Option<Option<Moment>>) -> (plan: Option<DailyPlan>)
    requires
        next_daily matches Some(Some(t)) ==> t.wf(),
    ensures
        next_daily is None ==> plan matches Some(DailyPlan::Insert),
        next_daily == Some(None::<Moment>) ==> plan matches Some(DailyPlan::Update),
        next_daily matches Some(Some(_)) ==> match plan {
            None => true,
            Some(p) => exists|now: Moment|
                #![trigger daily_plan(next_daily, now)]
                now.wf() && now.frac < 1_000_000_000 && !(p is Insert)
                && (p matches DailyPlan::Cooldown(text) ==> daily_plan(next_daily, now) == Some(text@))
                && (p is Update <==> daily_plan(next_daily, now) is None),
        },
        next_daily matches Some(Some(_)) ==> match plan {
            None => true,
            Some(p) => exists|r: UtcNow|
                #![trigger r.consistent()]
                r.consistent() && !(p is Insert)
                && (p matches DailyPlan::Cooldown(text) ==> daily_plan(next_daily, r.moment) == Some(text@))
                && (p is Update <==> daily_plan(next_daily, r.moment) is None),
        },
{
    match next_daily {
        None => Some(DailyPlan::Insert),
        Some(None) => Some(DailyPlan::Update),
        Some(Some(t)) => {
            let reading = crate::clock::utc_now()?;
            let now = reading.moment;
            let plan = plan_daily(next_daily, now);
            assert(now.wf() && now.frac < 1_000_000_000 && !(plan is Insert)
                && (plan matches DailyPlan::Cooldown(text) ==> daily_plan(next_daily, now) == Some(text@))
                && (plan is Update <==> daily_plan(next_daily, now) is None));
            Some(plan)
        },
    }
}

/// Nanoseconds since the start of day 0 of a moment that is not a leap second.
pub open spec fn nanos_of(m: Moment) -> int {
    (m.days * 86_400 + m.secs) * 1_000_000_000 + m.frac
}

/// For moments that are not leap seconds, a claim is refused exactly while at
/// least one whole second remains until the stored moment; from then on it is granted.
pub proof fn lemma_cooldown_until_due(until: Moment, now: Moment)
    requires
        until.wf(),
        now.wf(),
        until.frac < 1_000_000_000,
        now.frac < 1_000_000_000,
    ensures
        daily_plan(Some(Some(until)), now) is Some <==> nanos_of(until) - nanos_of(now) >= 1_000_000_000,
{
    let total = nanos_of(until) - nanos_of(now);
    assert(seconds_until(until, now) == if total >= 0 {
        total / 1_000_000_000
    } else {
        -((-total) / 1_000_000_000)
    }) by (nonlinear_arith)
        requires
            until.secs < 86_400,
            now.secs < 86_400,
            until.frac < 1_000_000_000,
            now.frac < 1_000_000_000,
            total == nanos_of(until) - nanos_of(now),
    ;
    if total >= 1_000_000_000 {
        assert(total / 1_000_000_000 >= 1) by (nonlinear_arith)
            requires
                total >= 1_000_000_000,
        ;
    } else if total >= 0 {
        assert(total / 1_000_000_000 == 0) by (nonlinear_arith)
            requires
                0 <= total < 1_000_000_000,
        ;
    } else {
        assert((-total) / 1_000_000_000 >= 0) by (nonlinear_arith)
            requires
                total < 0,
        ;
    }
}

/// The moment one calendar day after `m`, as the database stores
/// `current_timestamp + interval '1 day'` for a claim made at `m`.
pub open spec fn one_day_after(m: Moment) -> Moment {
    Moment { days: (m.days + 1) as i64, ..m }
}

/// A user is rewarded at most once per day: after a claim at `first`, which
/// stores `one_day_after(first)`, every claim up to one second short of a day
/// later is refused. Times are as the clock and the database give them: no
/// leap seconds, days within chrono's range.
pub proof fn lemma_daily_once_per_day(first: Moment, later: Moment)
    requires
        first.wf(),
        later.wf(),
        first.days < 1_000_000_000,
        first.frac < 1_000_000_000,
        later.frac < 1_000_000_000,
        nanos_of(first) <= nanos_of(later) <= nanos_of(first) + 86_399_000_000_000,
    ensures
        one_day_after(first).wf(),
        daily_plan(Some(Some(one_day_after(first))), later) is Some,
{
    let until = one_day_after(first);
    assert(nanos_of(until) == nanos_of(first) + 86_400_000_000_000);
    lemma_cooldown_until_due(until, later);
}

/// The remaining time in a cooldown reply is always shown as hours below 24,
/// minutes below 60 and seconds below 60.
pub proof fn lemma_cooldown_fields_in_range(seconds: int)
    requires
        seconds > 0,
    ensures
        0 <= (seconds / 3600) % 24 < 24,
        0 <= (seconds / 60) % 60 < 60,
        0 <= seconds % 60 < 60,
{
}

} // verus!
