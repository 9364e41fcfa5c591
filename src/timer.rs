//! The [`Timer`] and its [`Watcher`]s: a tick telegraph over one shared
//! atomic flag.
use vstd::prelude::*;

use crate::deadline::Deadline;
use crate::flag::SharedFlag;
use crate::interval::Plan;
use crate::time::{Span, CLOCK_END};

verus! {

/// A timer that ticks every period.
///
/// Where ticks were missed it bursts, ticking without blocking, until it has
/// caught up with its schedule.
pub struct Timer {
    state: SharedFlag,
    deadline: Deadline,
}

impl View for Timer {
    type V = Plan;

    closed spec fn view(&self) -> Plan {
        self.deadline@
    }
}

impl Timer {
    /// The value of the timer's flag. The timer is the flag's only writer,
    /// so this is what every watcher of it reads.
    pub closed spec fn flag(&self) -> bool {
        self.state.written()
    }

    /// Which flag the timer writes.
    pub closed spec fn flag_id(&self) -> int {
        self.state.id()
    }

    /// A timer that ticks every `delay`, first `delay` after now, with a
    /// fresh flag that holds `false`.
    pub fn new(delay: Span) -> (r: Timer)
        ensures
            r@ == Plan::start(0, delay@ as int, true),
            r.flag() == false,
    {
        Timer { state: SharedFlag::new(), deadline: Deadline::repeat(delay) }
    }

    /// A new watcher of this timer's flag, whose baseline is the flag as it
    /// is now. As the timer alone flips the flag, and cannot while it is
    /// borrowed here, its own record of the flag is that value.
    pub fn watcher(&self) -> (r: Watcher)
        ensures
            r.flag_id() == self.flag_id(),
            r@ == self.flag(),
    {
        let state = self.state.share();
        let prev_state = self.state.last_written();
        Watcher { state, prev_state }
    }

    /// Blocks through `sleep` until the next tick is due, then flips the
    /// shared flag, so that every watcher of this timer can see the tick.
    /// `sleep` is called once, with what is left at the time of the call,
    /// and the schedule moves on by exactly one period.
    pub fn tick<F: FnOnce(Span)>(&mut self, sleep: F)
        requires
            forall|s: Span| sleep.requires((s,)),
        ensures
            final(self)@ == old(self)@.advance(),
            final(self).flag() == !old(self).flag(),
            final(self).flag_id() == old(self).flag_id(),
            exists|s: Span, now: int|
                0 <= now <= CLOCK_END && s@ == old(self)@.remaining(now) && sleep.ensures((s,), ()),
    {
        self.deadline.wait(sleep);
        self.state.toggle();
    }
}

/// Whether a watcher whose baseline is `baseline` detects a tick when it
/// reads `current` from the shared flag.
pub open spec fn detects(baseline: bool, current: bool) -> bool {
    baseline != current
}

/// The shared flag after `k` ticks, starting from `initial`.
pub open spec fn flag_after(initial: bool, k: nat) -> bool
    decreases k,
{
    if k == 0 {
        initial
    } else {
        !flag_after(initial, (k - 1) as nat)
    }
}

/// Only the parity of the ticks survives: a watcher whose baseline is the
/// flag before `k` ticks, polled once after them, detects a tick exactly
/// where `k` is odd; and the flag of a new timer, after `k` ticks, holds
/// whether `k` is odd.
pub proof fn lemma_parity(baseline: bool, k: nat)
    ensures
        detects(baseline, flag_after(baseline, k)) == (k % 2 == 1),
        flag_after(false, k) == (k % 2 == 1),
    decreases k,
{
    if k > 0 {
        lemma_parity(baseline, (k - 1) as nat);
        lemma_parity(false, (k - 1) as nat);
    }
}

/// Two watchers that both saw the flag after `j` ticks of a timer that
/// started at `initial` (one made by the timer, one cloned from it) each
/// detect the next tick, whichever polls first, and each detects it once:
/// after the poll its baseline is the new flag, which a second poll does not
/// report again.
pub proof fn lemma_each_tick_detected_once(initial: bool, j: nat, first: bool, second: bool)
    requires
        first == flag_after(initial, j),
        second == flag_after(initial, j),
    ensures
        detects(first, flag_after(initial, j + 1)),
        detects(second, flag_after(initial, j + 1)),
        !detects(flag_after(initial, j + 1), flag_after(initial, j + 1)),
{
}

/// A handle on a [`Timer`]'s flag that tells, without blocking, whether the
/// timer has ticked since the handle last looked.
///
/// A clone reads the flag afresh for its own baseline: it behaves as a
/// watcher made by [`Timer::watcher`] at the time of the clone.
pub struct Watcher {
    state: SharedFlag,
    prev_state: bool,
}

impl View for Watcher {
    type V = bool;

    /// The value of the flag that the watcher saw last.
    closed spec fn view(&self) -> bool {
        self.prev_state
    }
}

impl Watcher {
    /// Which flag the watcher reads.
    pub closed spec fn flag_id(&self) -> int {
        self.state.id()
    }

    /// A watcher of `state`, whose baseline is read from the flag now.
    fn new(state: SharedFlag) -> (r: Watcher)
        ensures
            r.flag_id() == state.id(),
    {
        let prev_state = state.value();
        Watcher { state, prev_state }
    }

    /// Takes `current` as the value of the shared flag: reports a tick
    /// where it differs from the baseline, which then becomes `current`.
    pub fn observe(&mut self, current: bool) -> (r: bool)
        ensures
            r == detects(old(self)@, current),
            final(self)@ == current,
            final(self).flag_id() == old(self).flag_id(),
    {
        if current != self.prev_state {
            self.prev_state = current;
            true
        } else {
            false
        }
    }

    /// Whether the timer has ticked since this watcher last detected a tick
    /// (or since it was made): true where the flag no longer holds the
    /// baseline, which then follows the flag.
    pub fn has_ticked(&mut self) -> (r: bool)
        ensures
            exists|current: bool| r == detects(old(self)@, current) && final(self)@ == current,
            final(self).flag_id() == old(self).flag_id(),
    {
        let current = self.state.value();
        self.observe(current)
    }
}

impl Clone for Watcher {
    /// A watcher of the same flag, whose baseline is read from the flag
    /// afresh, not copied from `self`: where the timer ticks during the
    /// clone, the new baseline may be either value.
    fn clone(&self) -> (r: Watcher)
        ensures
            r.flag_id() == self.flag_id(),
    {
        Watcher::new(self.state.share())
    }
}

} // verus!
