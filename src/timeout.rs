//! The [`Timeout`]: the same interval as [`Deadline`], under a second name.
use vstd::prelude::*;

use crate::deadline::Deadline;
use crate::interval::{Plan, Schedule};
use crate::time::{Span, CLOCK_END};

verus! {

/// A timeout that is due once, or again after each period.
///
/// It behaves as a [`Deadline`] made from the same duration.
#[derive(Clone, Copy, Debug)]
pub struct Timeout {
    deadline: Deadline,
}

impl View for Timeout {
    type V = Plan;

    closed spec fn view(&self) -> Plan {
        self.deadline@
    }
}

impl Timeout {
    /// A timeout that is due once, `dur` after now.
    pub fn once(dur: Span) -> (r: Timeout)
        ensures
            r@ == Plan::start(0, dur@ as int, false),
    {
        Timeout { deadline: Deadline::once(dur) }
    }

    /// A timeout that is due every `dur`, first `dur` after now.
    pub fn repeat(dur: Span) -> (r: Timeout)
        ensures
            r@ == Plan::start(0, dur@ as int, true),
    {
        Timeout { deadline: Deadline::repeat(dur) }
    }

    /// The schedule of the timeout, with its points counted from the moment
    /// the timeout was made.
    pub fn schedule(&self) -> (r: Schedule)
        ensures
            r@ == self@,
    {
        self.deadline.schedule()
    }

    /// Whether the timeout has expired. A periodic timeout found expired
    /// moves on by one period.
    pub fn expired(&mut self) -> (r: bool)
        ensures
            exists|now: int|
                0 <= now <= CLOCK_END
                    && r == old(self)@.is_due(now)
                    && final(self)@ == old(self)@.observe(now),
    {
        let r = self.deadline.expired();
        assert(exists|now: int|
            0 <= now <= CLOCK_END
                && r == old(self)@.is_due(now)
                && self@ == old(self)@.observe(now));
        r
    }

    /// What is left before the timeout expires; zero once it has. A periodic
    /// timeout found expired moves on by one period.
    pub fn remaining_duration(&mut self) -> (r: Span)
        ensures
            exists|now: int|
                0 <= now <= CLOCK_END
                    && r@ == old(self)@.remaining(now)
                    && final(self)@ == old(self)@.observe(now),
    {
        let r = self.deadline.remaining_duration();
        assert(exists|now: int|
            0 <= now <= CLOCK_END
                && r@ == old(self)@.remaining(now)
                && self@ == old(self)@.observe(now));
        r
    }

    /// Blocks through `sleep` until the timeout expires: `sleep` is called
    /// once, with what is left at the time of the call. A periodic timeout
    /// then moves on by exactly one period.
    pub fn wait<F: FnOnce(Span)>(&mut self, sleep: F)
        requires
            forall|s: Span| sleep.requires((s,)),
        ensures
            final(self)@ == old(self)@.advance(),
            exists|s: Span, now: int|
                0 <= now <= CLOCK_END && s@ == old(self)@.remaining(now) && sleep.ensures((s,), ()),
    {
        self.deadline.wait(sleep)
    }
}

} // verus!
