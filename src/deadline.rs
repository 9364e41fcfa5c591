//! The [`Deadline`]: an interval on the monotonic clock, due once or
//! periodically.
use vstd::prelude::*;

use crate::clock::Clock;
use crate::interval::{Plan, Schedule};
use crate::time::{Moment, Span, CLOCK_END};

verus! {

/// A deadline that is due once, or again after each period.
///
/// Its points in time are counted from the moment it was made.
#[derive(Clone, Copy, Debug)]
pub struct Deadline {
    clock: Clock,
    schedule: Schedule,
}

impl View for Deadline {
    type V = Plan;

    closed spec fn view(&self) -> Plan {
        self.schedule@
    }
}

impl Deadline {
    /// A deadline that is due once, `dur` after now.
    pub fn once(dur: Span) -> (r: Deadline)
        ensures
            r@ == Plan::start(0, dur@ as int, false),
    {
        Deadline { clock: Clock::start(), schedule: Schedule::once_at(Moment::origin(), dur) }
    }

    /// A deadline that is due every `dur`, first `dur` after now.
    pub fn repeat(dur: Span) -> (r: Deadline)
        ensures
            r@ == Plan::start(0, dur@ as int, true),
    {
        Deadline { clock: Clock::start(), schedule: Schedule::repeat_at(Moment::origin(), dur) }
    }

    /// The schedule of the deadline, with its points counted from the
    /// moment the deadline was made.
    pub fn schedule(&self) -> (r: Schedule)
        ensures
            r@ == self@,
    {
        self.schedule
    }

    /// Whether the deadline has expired. A periodic deadline found expired
    /// moves on by one period.
    pub fn expired(&mut self) -> (r: bool)
        ensures
            exists|now: int|
                0 <= now <= CLOCK_END
                    && r == old(self)@.is_due(now)
                    && final(self)@ == old(self)@.observe(now),
    {
        let now = self.clock.now();
        let r = self.schedule.expired_at(now);
        assert(r == old(self)@.is_due(now@ as int) && self@ == old(self)@.observe(now@ as int));
        r
    }

    /// What is left before the deadline expires; zero once it has. A periodic
    /// deadline found expired moves on by one period.
    pub fn remaining_duration(&mut self) -> (r: Span)
        ensures
            exists|now: int|
                0 <= now <= CLOCK_END
                    && r@ == old(self)@.remaining(now)
                    && final(self)@ == old(self)@.observe(now),
    {
        let now = self.clock.now();
        let r = self.schedule.remaining_at(now);
        assert(r@ == old(self)@.remaining(now@ as int) && self@ == old(self)@.observe(now@ as int));
        r
    }

    /// Blocks through `sleep` until the deadline expires: `sleep` is called
    /// once, with what is left at the time of the call. A periodic deadline
    /// then moves on by exactly one period.
    pub fn wait<F: FnOnce(Span)>(&mut self, sleep: F)
        requires
            forall|s: Span| sleep.requires((s,)),
        ensures
            final(self)@ == old(self)@.advance(),
            exists|s: Span, now: int|
                0 <= now <= CLOCK_END && s@ == old(self)@.remaining(now) && sleep.ensures((s,), ()),
    {
        let now = self.clock.now();
        let left = self.schedule.wait_at(now);
        sleep(left);
    }
}

} // verus!
