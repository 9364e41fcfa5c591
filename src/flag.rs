//! The one boolean that a [`Timer`](crate::Timer) shares with its
//! [`Watcher`](crate::Watcher)s.
use vstd::prelude::*;

use std::sync::atomic::{AtomicBool, Ordering};
use std::sync::Arc;

verus! {

/// A handle on one boolean shared between threads.
///
/// A single handle writes the flag, and only ever flips it; any number of
/// handles read it. Each handle records what the flag holds after its own
/// flips: for the one handle that writes, that is the flag's value.
pub struct SharedFlag {
    cell: Arc<AtomicBool>,
    written: bool,
    id: Ghost<int>,
}

impl SharedFlag {
    /// Which flag this handle is on: handles on the same flag have the same
    /// identity.
    pub closed spec fn id(&self) -> int {
        self.id@
    }

    /// What the flag holds after this handle's own flips, starting from the
    /// value it held when the handle was made.
    pub closed spec fn written(&self) -> bool {
        self.written
    }

    /// A fresh flag, which holds `false`.
    pub fn new() -> (r: SharedFlag)
        ensures
            r.written() == false,
    {
        let cell = Arc::new(AtomicBool::new(false));
        SharedFlag { cell, written: false, id: Ghost(arbitrary()) }
    }

    /// A second handle on the same flag, which records what this one does.
    pub fn share(&self) -> (r: SharedFlag)
        ensures
            r.id() == self.id(),
            r.written() == self.written(),
    {
        SharedFlag { cell: Arc::clone(&self.cell), written: self.written, id: self.id }
    }

    /// What the flag holds after this handle's own flips.
    pub fn last_written(&self) -> (r: bool)
        ensures
            r == self.written(),
    {
        self.written
    }

    /// Flips the flag, publishing what happened before the flip to the
    /// readers that see the new value.
    pub fn toggle(&mut self)
        ensures
            final(self).written() == !old(self).written(),
            final(self).id() == old(self).id(),
    {
        self.cell.fetch_xor(true, Ordering::Release);
        self.written = !self.written;
    }

    /// The value of the flag, read after everything that came before the
    /// flip that wrote it. Another thread may flip it at any time, so
    /// nothing is known of the result.
    pub fn value(&self) -> (r: bool) {
        self.cell.load(Ordering::Acquire)
    }
}

} // verus!
