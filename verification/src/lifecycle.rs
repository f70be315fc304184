//! The lifecycle guard: a single running flag with acquire/release semantics
//! that admits at most one concurrent proxy session and reports contention
//! instead of blocking or queuing.

use vstd::prelude::*;

verus! {

/// The running flag guarding the single proxy instance.
///
/// Its view is the flag itself: `true` while a session is considered running.
/// A fresh guard starts out released, matching a process that has not yet
/// started the engine.
pub struct LifecycleGuard {
    running: bool,
}

impl View for LifecycleGuard {
    type V = bool;

    closed spec fn view(&self) -> bool {
        self.running
    }
}

impl LifecycleGuard {
    /// A guard in the released state: no session is running.
    pub fn new() -> (guard: LifecycleGuard)
        ensures
            !guard@,
    {
        LifecycleGuard { running: false }
    }

    /// Attempt to take the flag for a new session.
    ///
    /// Returns `true` (acquired) exactly when the flag was clear; if a
    /// session was already running the call changes nothing and returns
    /// `false`.  Either way the flag is set afterwards.
    pub fn try_acquire(&mut self) -> (acquired: bool)
        ensures
            acquired == !old(self)@,
            final(self)@,
    {
        if self.running {
            false
        } else {
            self.running = true;
            true
        }
    }

    /// Release the flag unconditionally: no session is running afterwards.
    pub fn release(&mut self)
        ensures
            !final(self)@,
    {
        self.running = false;
    }

    /// Non-mutating read of the flag.
    pub fn is_running(&self) -> (running: bool)
        ensures
            running == self@,
    {
        self.running
    }
}

} // verus!
