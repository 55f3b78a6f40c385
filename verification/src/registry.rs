//! The process registry: one guarded slot that holds the handle of the
//! running backend child, or nothing. Launching fills the slot once;
//! a close request empties it best-effort. The caller owns the actual
//! lock and the actual OS handle; it reports here whether the lock was
//! acquired and carries out the action this module decides on.

use vstd::prelude::*;

verus! {

/// What a shutdown attempt decided.
#[derive(Clone, Copy, Debug, PartialEq, Eq)]
pub enum ShutdownAction {
    /// The lock was held and a child was present: terminate that process.
    Kill(u64),
    /// The lock was held but the slot was already empty: nothing to do.
    NoProcess,
    /// The lock could not be acquired: give up rather than block.
    Skipped,
}

/// The slot after a shutdown attempt: emptied when the lock was acquired,
/// untouched when it was not.
pub open spec fn shutdown_next(slot: Option<u64>, lock_acquired: bool) -> Option<u64> {
    if lock_acquired {
        None
    } else {
        slot
    }
}

/// The action a shutdown attempt takes: kill the present child if the lock
/// was acquired, otherwise nothing.
pub open spec fn shutdown_decision(slot: Option<u64>, lock_acquired: bool) -> ShutdownAction {
    if !lock_acquired {
        ShutdownAction::Skipped
    } else {
        match slot {
            Some(h) => ShutdownAction::Kill(h),
            None => ShutdownAction::NoProcess,
        }
    }
}

/// The single slot tracking the backend child process.
pub struct Registry {
    slot: Option<u64>,
}

impl View for Registry {
    type V = Option<u64>;

    closed spec fn view(&self) -> Option<u64> {
        self.slot
    }
}

impl Registry {
    /// A fresh registry tracks no process.
    pub fn new() -> (r: Registry)
        ensures
            r@ is None,
    {
        Registry { slot: None }
    }

    /// The handle currently tracked, if any.
    pub fn current(&self) -> (r: Option<u64>)
        ensures
            r == self@,
    {
        self.slot
    }

    /// Store the handle of a freshly launched child, replacing any
    /// previous value.
    pub fn register(&mut self, handle: u64)
        ensures
            final(self)@ == Some(handle),
    {
        self.slot = Some(handle);
    }

    /// Attempt a best-effort shutdown. `lock_acquired` reports whether the
    /// caller won the non-blocking acquire of the lock guarding this slot;
    /// without it nothing is touched, so a close request never waits.
    pub fn shutdown(&mut self, lock_acquired: bool) -> (r: ShutdownAction)
        ensures
            final(self)@ == shutdown_next(old(self)@, lock_acquired),
            r == shutdown_decision(old(self)@, lock_acquired),
    {
        if !lock_acquired {
            return ShutdownAction::Skipped;
        }
        match self.slot {
            Some(h) => {
                self.slot = None;
                ShutdownAction::Kill(h)
            },
            None => ShutdownAction::NoProcess,
        }
    }
}

/// Shutting down happens exactly once: with the lock held, the first attempt
/// on a registered handle kills exactly that process and empties the slot,
/// and a second attempt finds nothing to kill and changes nothing.
pub proof fn lemma_shutdown_exactly_once(handle: u64)
    ensures
        shutdown_next(Some(handle), true) is None,
        shutdown_decision(Some(handle), true) == ShutdownAction::Kill(handle),
        shutdown_next(shutdown_next(Some(handle), true), true) is None,
        shutdown_decision(shutdown_next(Some(handle), true), true) == ShutdownAction::NoProcess,
{
}

/// A shutdown attempt that loses the lock is a silent skip: the slot is
/// unchanged and no process is killed, whatever the slot held.
pub proof fn lemma_contended_shutdown_skips(slot: Option<u64>)
    ensures
        shutdown_next(slot, false) == slot,
        shutdown_decision(slot, false) == ShutdownAction::Skipped,
        shutdown_decision(slot, false) !is Kill,
{
}

} // verus!
