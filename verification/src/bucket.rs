//! Per-user rate limiting: a `Bucket` remembers, for every user, when they
//! last got through and how many tickets they spent in the current span.

use vstd::prelude::*;
use std::collections::HashMap;
use crate::clock::UtcNow;

verus! {

broadcast use vstd::std_specs::hash::group_hash_axioms;

/// Whether `x` is a value of `i64`.
pub open spec fn fits(x: int) -> bool {
    i64::MIN <= x <= i64::MAX
}

/// How often a user may get through: at least `delay` seconds between two
/// passes and, with `limit = Some((span, n))`, at most `n` passes per `span` seconds.
#[derive(Clone, Copy, Debug)]
pub struct Ratelimit {
    pub delay: i64,
    pub limit: Option<(i64, i32)>,
}

/// What a bucket remembers of one user.
#[derive(Clone, Copy, Debug)]
pub struct MemberRatelimit {
    pub last_time: i64,
    pub set_time: i64,
    pub tickets: i32,
}

impl Default for MemberRatelimit {
    fn default() -> (r: Self)
        ensures
            r == MemberRatelimit::fresh(),
    {
        MemberRatelimit { last_time: 0, set_time: 0, tickets: 0 }
    }
}

impl MemberRatelimit {
    /// The record of a user the bucket has not seen yet.
    pub open spec fn fresh() -> MemberRatelimit {
        MemberRatelimit { last_time: 0, set_time: 0, tickets: 0 }
    }
}

/// Why `take` gave no answer.
#[derive(Clone, Copy, Debug, PartialEq, Eq, Structural)]
pub enum TakeRefusal {
    /// The clock could not be read as a UTC time.
    NoClock,
    /// Taking the ticket would overflow an integer.
    Overflow,
}

/// A rate-limit bucket.
pub struct Bucket {
    pub ratelimit: Ratelimit,
    pub users: HashMap<u64, MemberRatelimit>,
}

impl Ratelimit {
    /// The span of the ticket limit (0 without one).
    pub open spec fn span(self) -> i64 {
        match self.limit {
            Some((span, _)) => span,
            None => 0,
        }
    }

    /// The tickets allowed per span (0 without a limit).
    pub open spec fn tickets_per_span(self) -> i32 {
        match self.limit {
            Some((_, n)) => n,
            None => 0,
        }
    }

    /// The member record after the span check of `take` at time `now`
    /// (a spent span is reset), or `None` when the span still blocks the user.
    pub open spec fn after_span_check(self, m: MemberRatelimit, now: i64) -> Option<MemberRatelimit> {
        match self.limit {
            Some((span, limit)) => if m.tickets + 1 > limit {
                if now < m.set_time + span {
                    None
                } else {
                    Some(MemberRatelimit { tickets: 0, set_time: now, ..m })
                }
            } else {
                Some(m)
            },
            None => Some(m),
        }
    }

    /// Seconds the user must still wait at `now` (0 when they get through now).
    pub open spec fn wait(self, m: MemberRatelimit, now: i64) -> int {
        match self.after_span_check(m, now) {
            None => match self.limit {
                Some((span, _)) => m.set_time + span - now,
                None => 0,
            },
            Some(m1) => if now < m1.last_time + self.delay {
                m1.last_time + self.delay - now
            } else {
                0
            },
        }
    }

    /// The member record once `take` at time `now` is done.
    pub open spec fn next(self, m: MemberRatelimit, now: i64) -> MemberRatelimit {
        match self.after_span_check(m, now) {
            None => m,
            Some(m1) => if now < m1.last_time + self.delay {
                m1
            } else {
                MemberRatelimit { tickets: (m1.tickets + 1) as i32, last_time: now, ..m1 }
            },
        }
    }

    /// Whether the delay check of `take` at `now` on the record `m` overflows
    /// an integer.
    pub open spec fn delay_panics(self, m: MemberRatelimit, now: i64) -> bool {
        ||| !fits(m.last_time + self.delay)
        ||| (now < m.last_time + self.delay && !fits(m.last_time + self.delay - now))
        ||| (now >= m.last_time + self.delay && m.tickets == i32::MAX)
    }

    /// Whether `take` at `now` overflows an integer (and so panics): when
    /// counting a ticket past `i32::MAX`, or when a time plus the span or the
    /// delay, or the wait, falls outside `i64`.
    pub open spec fn panics(self, m: MemberRatelimit, now: i64) -> bool {
        let span_panics = match self.limit {
            Some((span, limit)) => m.tickets == i32::MAX || (m.tickets + 1 > limit && (
                !fits(m.set_time + span) || (now < m.set_time + span && !fits(m.set_time + span - now)))),
            None => false,
        };
        span_panics || match self.after_span_check(m, now) {
            Some(m1) => self.delay_panics(m1, now),
            None => false,
        }
    }
}

impl Bucket {
    /// The record the bucket keeps for `user_id` (a fresh one if none yet).
    pub open spec fn member(self, user_id: u64) -> MemberRatelimit {
        if self.users@.contains_key(user_id) {
            self.users@[user_id]
        } else {
            MemberRatelimit::fresh()
        }
    }

    /// An empty bucket with the given rule.
    pub fn new(ratelimit: Ratelimit) -> (b: Bucket)
        ensures
            b.ratelimit == ratelimit,
            b.users@ == Map::<u64, MemberRatelimit>::empty(),
    {
        Bucket { ratelimit, users: HashMap::new() }
    }

    /// The record for `user_id`, a fresh one when the bucket has none.
    pub fn member_of(&self, user_id: u64) -> (m: MemberRatelimit)
        ensures
            m == self.member(user_id),
    {
        match self.users.get(&user_id) {
            Some(m) => *m,
            None => MemberRatelimit::default(),
        }
    }

    /// Takes a ticket for `user_id` at time `now` (seconds): returns 0 and
    /// records the pass when the user may go through, otherwise the number of
    /// seconds still to wait.
    pub fn take_at(&mut self, user_id: u64, now: i64) -> (wait: i64)
        requires
            !old(self).ratelimit.panics(old(self).member(user_id), now),
        ensures
            final(self).ratelimit == old(self).ratelimit,
            wait == old(self).ratelimit.wait(old(self).member(user_id), now),
            final(self).users@ == old(self).users@.insert(
                user_id,
                old(self).ratelimit.next(old(self).member(user_id), now),
            ),
    {
        let mut user = self.member_of(user_id);
        let delay = self.ratelimit.delay;
        if let Some((timespan, limit)) = self.ratelimit.limit {
            if user.tickets + 1 > limit {
                if now < user.set_time + timespan {
                    let w = (user.set_time + timespan) - now;
                    self.users.insert(user_id, user);
                    return w;
                } else {
                    user.tickets = 0;
                    user.set_time = now;
                }
            }
        }
        if now < user.last_time + delay {
            let w = (user.last_time + delay) - now;
            self.users.insert(user_id, user);
            w
        } else {
            user.tickets = user.tickets + 1;
            user.last_time = now;
            self.users.insert(user_id, user);
            0
        }
    }

    /// Whether `take_at(user_id, now)` would overflow an integer.
    pub fn take_panics(&self, user_id: u64, now: i64) -> (r: bool)
        ensures
            r == self.ratelimit.panics(self.member(user_id), now),
    {
        let m = self.member_of(user_id);
        let delay = self.ratelimit.delay as i128;
        let low = i64::MIN as i128;
        let high = i64::MAX as i128;
        let now_wide = now as i128;
        let mut m1 = m;
        match self.ratelimit.limit {
            Some((span, limit)) => {
                if m.tickets == i32::MAX {
                    return true;
                }
                if m.tickets + 1 > limit {
                    let end = m.set_time as i128 + span as i128;
                    if end < low || end > high {
                        return true;
                    }
                    if now_wide < end {
                        return end - now_wide < low || end - now_wide > high;
                    }
                    m1 = MemberRatelimit { tickets: 0, set_time: now, ..m };
                }
            },
            None => {},
        }
        let ready = m1.last_time as i128 + delay;
        if ready < low || ready > high {
            return true;
        }
        if now_wide < ready {
            ready - now_wide < low || ready - now_wide > high
        } else {
            m1.tickets == i32::MAX
        }
    }

    /// Takes a ticket for `user_id` at the current time, as `take_at` does,
    /// the time being the whole seconds since 1970 of one consistent clock
    /// reading.
    /// Leaves the bucket as it was and returns `Err(NoClock)` when the clock
    /// cannot be read as a UTC time, or `Err(Overflow)` when taking the ticket
    /// would overflow an integer.
    pub fn take(&mut self, user_id: u64) -> (wait: Result<i64, TakeRefusal>)
        ensures
            final(self).ratelimit == old(self).ratelimit,
            wait == Err::<i64, TakeRefusal>(TakeRefusal::NoClock) ==> final(self).users@ == old(self).users@,
            wait != Err::<i64, TakeRefusal>(TakeRefusal::NoClock) ==> exists|now: i64|
                0 <= now && #[trigger] Bucket::took(*old(self), *final(self), user_id, now, wait),
            wait != Err::<i64, TakeRefusal>(TakeRefusal::NoClock) ==> exists|r: UtcNow|
                #![trigger r.consistent()]
                r.consistent() && Bucket::took(*old(self), *final(self), user_id, r.timestamp, wait),
    {
        let now = match crate::clock::utc_now() {
            Some(t) => t.timestamp,
            None => return Err(TakeRefusal::NoClock),
        };
        if self.take_panics(user_id, now) {
            assert(Bucket::took(*old(self), *self, user_id, now, Err(TakeRefusal::Overflow)));
            Err(TakeRefusal::Overflow)
        } else {
            let w = self.take_at(user_id, now);
            assert(Bucket::took(*old(self), *self, user_id, now, Ok(w)));
            Ok(w)
        }
    }

    /// `after` and `wait` are what `take` leaves of `before` and returns when
    /// the clock reads `now`.
    pub open spec fn took(before: Bucket, after: Bucket, user_id: u64, now: i64, wait: Result<i64, TakeRefusal>) -> bool {
        let m = before.member(user_id);
        if before.ratelimit.panics(m, now) {
            wait == Err::<i64, TakeRefusal>(TakeRefusal::Overflow) && after.users@ == before.users@
        } else {
            &&& wait == Ok::<i64, TakeRefusal>(before.ratelimit.wait(m, now) as i64)
            &&& after.users@ == before.users@.insert(user_id, before.ratelimit.next(m, now))
        }
    }
}

/// A user who got through at `t` and asks again before `t + delay` is told to
/// wait exactly the rest of the delay.
pub proof fn lemma_delay_between_passes(rl: Ratelimit, m: MemberRatelimit, t: i64, t2: i64)
    requires
        rl.wait(m, t) == 0,
        rl.limit is None,
        t2 < t + rl.delay,
    ensures
        rl.wait(rl.next(m, t), t2) == t + rl.delay - t2,
        rl.wait(rl.next(m, t), t2) > 0,
{
}

/// With any rule, a delay included: a user who got through at `t` and asks
/// again before `t + delay` is told to wait.
pub proof fn lemma_pass_blocks_until_delay(rl: Ratelimit, m: MemberRatelimit, t: i64, t2: i64)
    requires
        rl.wait(m, t) == 0,
        t2 < t + rl.delay,
    ensures
        rl.wait(rl.next(m, t), t2) > 0,
        rl.next(m, t).last_time == t,
{
}

/// Within a span, a user only gets through while they have spent fewer than
/// `limit` tickets, and each pass spends one ticket of the same span: so no
/// more than `limit` passes fall in one span.
pub proof fn lemma_span_limit(rl: Ratelimit, m: MemberRatelimit, now: i64)
    requires
        rl.limit is Some,
        now < m.set_time + rl.span(),
        m.tickets < i32::MAX,
        rl.wait(m, now) == 0,
    ensures
        m.tickets < rl.tickets_per_span(),
        rl.next(m, now).tickets == m.tickets + 1,
        rl.next(m, now).set_time == m.set_time,
        rl.next(m, now).last_time == now,
{
}

/// A user who is told to wait is not charged a ticket and keeps their last pass.
pub proof fn lemma_refusal_spends_nothing(rl: Ratelimit, m: MemberRatelimit, now: i64)
    requires
        rl.wait(m, now) > 0,
    ensures
        rl.next(m, now).last_time == m.last_time,
        rl.next(m, now).tickets == 0 || rl.next(m, now).tickets == m.tickets,
{
}

/// The record `take` leaves after being asked at each of `times` in turn,
/// starting from the record `m`.
pub open spec fn after_takes(rl: Ratelimit, m: MemberRatelimit, times: Seq<i64>) -> MemberRatelimit
    decreases times.len(),
{
    if times.len() == 0 {
        m
    } else {
        rl.next(after_takes(rl, m, times.drop_last()), times.last())
    }
}

/// Whether the `i`-th of the takes at `times`, starting from `m`, lets the user through.
pub open spec fn passes_at(rl: Ratelimit, m: MemberRatelimit, times: Seq<i64>, i: int) -> bool {
    rl.wait(after_takes(rl, m, times.take(i)), times[i]) == 0
}

/// Whether the times never go backwards.
pub open spec fn nondecreasing(times: Seq<i64>) -> bool {
    forall|a: int, b: int| 0 <= a <= b < times.len() ==> times[a] <= times[b]
}

/// After a pass at `times[i]`, the record remembers a last pass no earlier than it.
proof fn lemma_last_pass_remembered(rl: Ratelimit, m: MemberRatelimit, times: Seq<i64>, i: int, k: int)
    requires
        nondecreasing(times),
        0 <= i < k <= times.len(),
        passes_at(rl, m, times, i),
    ensures
        after_takes(rl, m, times.take(k)).last_time >= times[i],
    decreases k,
{
    let prefix = times.take(k);
    assert(prefix.drop_last() =~= times.take(k - 1));
    assert(prefix.last() == times[k - 1]);
    if k > i + 1 {
        lemma_last_pass_remembered(rl, m, times, i, k - 1);
    }
}

/// Two passes of one user are at least `delay` seconds apart, with or without
/// a ticket limit, however many requests come between them: a user gets
/// through at most once in any window shorter than the delay.
pub proof fn lemma_passes_spaced_by_delay(rl: Ratelimit, m: MemberRatelimit, times: Seq<i64>, i: int, j: int)
    requires
        nondecreasing(times),
        0 <= i < j < times.len(),
        passes_at(rl, m, times, i),
        passes_at(rl, m, times, j),
    ensures
        times[j] >= times[i] + rl.delay,
{
    lemma_last_pass_remembered(rl, m, times, i, j);
}

/// With a delay alone, a user the bucket has not seen gets through as soon as
/// the clock reads at least the delay.
pub proof fn lemma_first_take_passes(rl: Ratelimit, now: i64)
    requires
        rl.limit is None,
        now >= rl.delay,
    ensures
        rl.wait(MemberRatelimit::fresh(), now) == 0,
        rl.next(MemberRatelimit::fresh(), now).last_time == now,
{
}

} // verus!
