//! Mutual exclusion between capture sessions: one at a time.

use vstd::prelude::*;

verus! {

/// Signal given to a trigger that arrives while a session is in flight. It is
/// not a failure: the trigger simply does nothing.
#[derive(Clone, Copy, Debug, PartialEq, Eq, Structural)]
pub struct LockBusy;

/// What an attempt to begin comes to, by whether the lock is held: the lock
/// is held afterwards either way, and the attempt succeeds exactly when it
/// was not held before.
pub open spec fn contended(held: bool) -> (bool, Result<(), LockBusy>) {
    if held {
        (true, Err(LockBusy))
    } else {
        (true, Ok(()))
    }
}

/// Of two attempts on an idle lock, in whichever order they are served,
/// exactly one succeeds: the first. The second is told that the lock is busy
/// and leaves it as the first left it.
pub proof fn lemma_exactly_one_winner()
    ensures
        contended(false).1 is Ok,
        contended(contended(false).0).1 == Err::<(), LockBusy>(LockBusy),
        contended(contended(false).0).0 == contended(false).0,
{
}

/// A two-state flag: idle, or capturing.
#[derive(Debug)]
pub struct CaptureLock {
    capturing: bool,
}

impl CaptureLock {
    /// Whether a session currently holds the lock.
    pub closed spec fn held(&self) -> bool {
        self.capturing
    }

    /// A lock in the idle state.
    pub fn new() -> (lock: CaptureLock)
        ensures
            !lock.held(),
    {
        CaptureLock { capturing: false }
    }

    /// Reads the state without changing it.
    pub fn is_held(&self) -> (held: bool)
        ensures
            held == self.held(),
    {
        self.capturing
    }

    /// Moves from idle to capturing. Succeeds exactly when the lock was idle;
    /// a busy lock is left as it was.
    pub fn try_begin(&mut self) -> (outcome: Result<(), LockBusy>)
        ensures
            (final(self).held(), outcome) == contended(old(self).held()),
            outcome.is_ok() == !old(self).held(),
            outcome.is_err() ==> *final(self) == *old(self),
    {
        if self.capturing {
            Err(LockBusy)
        } else {
            self.capturing = true;
            Ok(())
        }
    }

    /// Returns the lock to idle, whatever state it was in.
    pub fn end(&mut self)
        ensures
            !final(self).held(),
    {
        self.capturing = false;
    }
}

} // verus!
