//! Registration slot for at most one waiting task per direction.
//!
//! The scheduler is modeled by the `woken` flag: waking a registered waiter
//! clears the registration and raises `woken`; the harness consumes the flag
//! when it re-polls the task.

use vstd::prelude::*;

verus! {

/// Holds at most one waiting task handle.
#[derive(Clone, Copy, Debug, PartialEq, Eq, Structural)]
pub struct WakerRegistration {
    /// A task is waiting to be woken.
    pub registered: bool,
    /// A wake was delivered and the scheduler has not re-polled yet.
    pub woken: bool,
}

/// The slot after a wake: a registered waiter is released and its wake
/// recorded; otherwise nothing happens.
pub open spec fn wake1(w: WakerRegistration) -> WakerRegistration {
    if w.registered {
        WakerRegistration { registered: false, woken: true }
    } else {
        w
    }
}

impl WakerRegistration {
    /// An empty slot.
    pub fn new() -> (r: Self)
        ensures
            !r.registered,
            !r.woken,
    {
        WakerRegistration { registered: false, woken: false }
    }

    /// Register the current task as the waiter, replacing any previous one.
    pub fn register(&mut self)
        ensures
            final(self).registered,
            final(self).woken == old(self).woken,
    {
        self.registered = true;
    }

    /// Wake the registered waiter, if any, and clear the registration.
    pub fn wake(&mut self)
        ensures
            *final(self) == wake1(*old(self)),
    {
        if self.registered {
            self.registered = false;
            self.woken = true;
        }
    }

    /// Scheduler side: consume a delivered wake, reporting whether there was
    /// one.
    pub fn take_woken(&mut self) -> (r: bool)
        ensures
            r == old(self).woken,
            !final(self).woken,
            final(self).registered == old(self).registered,
    {
        let r = self.woken;
        self.woken = false;
        r
    }
}

} // verus!
