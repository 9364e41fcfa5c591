//! The schedule behind every interval: when it is due, and how it moves on
//! once it has been found due.
use vstd::prelude::*;

use crate::time::{
    checked_delivery_time, delivery_spec, until_spec, Moment, Span, CLOCK_END, MAX_NANOS, TEN_YEARS_NANOS,
};

verus! {

/// The abstract state of a schedule: the point at which it is next due, and
/// for a repeating schedule its period.
pub struct Plan {
    pub delivery: int,
    pub period: Option<int>,
}

impl Plan {
    /// What is left before the plan is due, seen at `now`.
    pub open spec fn remaining(self, now: int) -> int {
        until_spec(self.delivery, now)
    }

    /// Whether the plan is due at `now`.
    pub open spec fn is_due(self, now: int) -> bool {
        self.remaining(now) == 0
    }

    /// The plan moved on by one period; a single-shot plan stays as it is.
    pub open spec fn advance(self) -> Plan {
        match self.period {
            Some(p) => Plan { delivery: delivery_spec(self.delivery, p), period: self.period },
            None => self,
        }
    }

    /// The plan after it has been looked at, at `now`: moved on by one period
    /// where it was found due.
    pub open spec fn observe(self, now: int) -> Plan {
        if self.is_due(now) {
            self.advance()
        } else {
            self
        }
    }

    /// The plan that something scheduled at `now` for `dur` starts with.
    pub open spec fn start(now: int, dur: int, repeating: bool) -> Plan {
        Plan {
            delivery: delivery_spec(now, dur),
            period: if repeating {
                Some(dur)
            } else {
                None
            },
        }
    }
}

/// The point at which a caller returns from the last of `n` waits on `p`,
/// the first begun at `t`, each begun as soon as the one before returned and
/// each blocking for exactly what was left.
pub open spec fn finish_waits(p: Plan, t: int, n: nat) -> int
    decreases n,
{
    if n == 0 {
        t
    } else {
        finish_waits(p.advance(), t + p.remaining(t), (n - 1) as nat)
    }
}

/// A single-shot interval made at `now0` for `d` is not due before `d` has
/// passed, is due at every point from then on, and is never changed by
/// being looked at. Where `now0 + d` lies past the end of the clock, it is
/// due ten years after `now0`.
pub proof fn lemma_once_due_after_delay(now0: int, d: int, t: int)
    requires
        0 <= now0 <= CLOCK_END,
        0 <= d <= MAX_NANOS,
    ensures
        now0 <= t < now0 + d && now0 + d <= CLOCK_END ==> !Plan::start(now0, d, false).is_due(t),
        t >= now0 + d ==> Plan::start(now0, d, false).is_due(t),
        Plan::start(now0, d, false).observe(t) == Plan::start(now0, d, false),
        now0 + d > CLOCK_END && now0 + TEN_YEARS_NANOS <= CLOCK_END ==> Plan::start(
            now0,
            d,
            false,
        ).delivery == now0 + TEN_YEARS_NANOS,
{
}

/// What is left before a plan is due never grows as time passes, never
/// falls below zero, and is zero from the due point on. Looking at a
/// single-shot plan leaves it as it was, so later looks see the same plan.
pub proof fn lemma_remaining_shrinks(p: Plan, t1: int, t2: int)
    requires
        t1 <= t2,
    ensures
        0 <= p.remaining(t2) <= p.remaining(t1),
        t2 >= p.delivery ==> p.remaining(t2) == 0,
        p.period is None ==> p.observe(t1) == p,
{
}

/// A wait begun at `now` that blocks for what is left returns no earlier
/// than the due point, and at once where the plan was already due. On a
/// single-shot plan made at `now0` for `d`, within the clock, what is left
/// is `d` less the time passed since `now0`; and the wait leaves the plan
/// as it was, so a second wait after it returns at once.
pub proof fn lemma_wait_reaches_due_point(p: Plan, now: int, now0: int, d: int)
    requires
        0 <= now0 <= now,
        0 <= d,
        now0 + d <= CLOCK_END,
        p == Plan::start(now0, d, false),
    ensures
        now + p.remaining(now) >= p.delivery,
        now >= p.delivery ==> p.remaining(now) == 0,
        p.remaining(now) == if now - now0 < d {
            d - (now - now0)
        } else {
            0
        },
        p.advance() == p,
        p.advance().remaining(now + p.remaining(now)) == 0,
{
}

/// Back-to-back waits on a repeating plan with period `per` and due point
/// `p.delivery`: the `m`-th returns no earlier than `m - 1` periods past that
/// point, while the schedule stays within the clock.
pub proof fn lemma_waits_catch_up(p: Plan, per: int, t: int, m: nat)
    requires
        p.period == Some(per),
        0 <= per,
        m >= 1,
        p.delivery + m * per <= CLOCK_END,
    ensures
        finish_waits(p, t, m) >= p.delivery + (m - 1) * per,
    decreases m,
{
    assert(p.delivery + per <= CLOCK_END) by (nonlinear_arith)
        requires
            p.delivery + m * per <= CLOCK_END,
            m >= 1,
            per >= 0,
    ;
    let q = p.advance();
    let t1 = t + p.remaining(t);
    assert(q.delivery == p.delivery + per);
    assert(finish_waits(p, t, m) == finish_waits(q, t1, (m - 1) as nat));
    if m == 1 {
        assert(finish_waits(q, t1, 0) == t1);
    } else {
        let m1 = (m - 1) as nat;
        assert(q.delivery + m1 * per == p.delivery + m * per) by (nonlinear_arith)
            requires
                q.delivery == p.delivery + per,
                m1 == m - 1,
        ;
        lemma_waits_catch_up(q, per, t1, m1);
        assert(q.delivery + (m1 - 1) * per == p.delivery + (m - 1) * per) by (nonlinear_arith)
            requires
                q.delivery == p.delivery + per,
                m1 == m - 1,
        ;
    }
}

/// `n` back-to-back waits on a repeating interval made at `now0` with period
/// `per`, the first begun no later than one period after `now0`, take at
/// least `n` periods less one: missed time is caught up in a burst, never
/// more. (They end no earlier than `n` periods after `now0`.)
pub proof fn lemma_repeat_waits_take_periods(now0: int, per: int, t: int, n: nat)
    requires
        0 <= now0 <= t <= now0 + per,
        0 <= per,
        now0 + (n + 1) * per <= CLOCK_END,
    ensures
        finish_waits(Plan::start(now0, per, true), t, n) >= now0 + n * per,
        finish_waits(Plan::start(now0, per, true), t, n) - t >= n * per - per,
{
    let p = Plan::start(now0, per, true);
    assert(now0 + per <= CLOCK_END) by (nonlinear_arith)
        requires
            now0 + (n + 1) * per <= CLOCK_END,
            per >= 0,
    ;
    assert(p.delivery == now0 + per);
    if n >= 1 {
        assert(p.delivery + n * per == now0 + (n + 1) * per) by (nonlinear_arith)
            requires
                p.delivery == now0 + per,
        ;
        lemma_waits_catch_up(p, per, t, n);
        assert(p.delivery + (n - 1) * per == now0 + n * per) by (nonlinear_arith)
            requires
                p.delivery == now0 + per,
        ;
    }
}

/// When an interval is due, as a value of its own: due once, or due again
/// one period after each time it was found due.
#[derive(Clone, Copy, Debug, PartialEq, Eq, Structural)]
pub enum Schedule {
    /// Due once, at `delivery`, and from then on.
    Once { delivery: Moment },
    /// Due at `delivery`, which moves on by `period` each time it is found due.
    Repeat { delivery: Moment, period: Span },
}

impl View for Schedule {
    type V = Plan;

    open spec fn view(&self) -> Plan {
        match *self {
            Schedule::Once { delivery } => Plan { delivery: delivery@ as int, period: None },
            Schedule::Repeat { delivery, period } => Plan {
                delivery: delivery@ as int,
                period: Some(period@ as int),
            },
        }
    }
}

impl Schedule {
    /// A schedule made at `now` that is due once, `dur` later.
    pub fn once_at(now: Moment, dur: Span) -> (r: Schedule)
        ensures
            r@ == Plan::start(now@ as int, dur@ as int, false),
    {
        Schedule::Once { delivery: checked_delivery_time(now, dur) }
    }

    /// A schedule made at `now` that is due every `period`, first `period`
    /// after `now`.
    pub fn repeat_at(now: Moment, period: Span) -> (r: Schedule)
        ensures
            r@ == Plan::start(now@ as int, period@ as int, true),
    {
        Schedule::Repeat { delivery: checked_delivery_time(now, period), period }
    }

    /// The point at which the schedule is next due.
    pub fn delivery_time(&self) -> (r: Moment)
        ensures
            r@ == self@.delivery,
    {
        match *self {
            Schedule::Once { delivery } => delivery,
            Schedule::Repeat { delivery, .. } => delivery,
        }
    }

    /// Moves a repeating schedule on by one period; a single-shot one is
    /// left as it is.
    fn advance(&mut self)
        ensures
            final(self)@ == old(self)@.advance(),
    {
        match self {
            Schedule::Once { .. } => {},
            Schedule::Repeat { delivery, period } => {
                *delivery = checked_delivery_time(*delivery, *period);
            },
        }
    }

    /// What is left before the schedule is due, seen at `now`: zero once it
    /// is due. A repeating schedule found due moves on by one period.
    pub fn remaining_at(&mut self, now: Moment) -> (r: Span)
        ensures
            r@ == old(self)@.remaining(now@ as int),
            final(self)@ == old(self)@.observe(now@ as int),
    {
        let r = self.delivery_time().saturating_since(now);
        if r.is_zero() {
            self.advance();
        }
        r
    }

    /// Whether the schedule is due at `now`. A repeating schedule found due
    /// moves on by one period.
    pub fn expired_at(&mut self, now: Moment) -> (r: bool)
        ensures
            r == old(self)@.is_due(now@ as int),
            final(self)@ == old(self)@.observe(now@ as int),
    {
        self.remaining_at(now).is_zero()
    }

    /// Starts a wait at `now`: returns how long the caller has to block for
    /// the schedule to be due, and moves a repeating schedule on by exactly
    /// one period, whether or not it was already due.
    pub fn wait_at(&mut self, now: Moment) -> (r: Span)
        ensures
            r@ == old(self)@.remaining(now@ as int),
            final(self)@ == old(self)@.advance(),
    {
        let r = self.delivery_time().saturating_since(now);
        self.advance();
        r
    }
}

} // verus!
