//! A one-word spin lock and its escalating backoff schedule.

use std::sync::atomic::AtomicBool;
use std::sync::atomic::Ordering;
use vstd::prelude::*;

verus! {

/// What a waiter does after a failed attempt to take the lock.
#[derive(Clone, Copy, Debug, PartialEq, Eq, Structural)]
pub enum Backoff {
    /// Retry at once.
    Busy,
    /// Issue a CPU pause hint, then retry.
    Pause,
    /// Give the processor to another thread, then retry.
    Yield,
}

/// The step that the schedule prescribes after `failed` unsuccessful attempts.
pub open spec fn backoff_spec(failed: nat) -> Backoff {
    if failed <= 3 {
        Backoff::Busy
    } else if failed <= 15 {
        Backoff::Pause
    } else {
        Backoff::Yield
    }
}

/// Mutual exclusion over a single atomic word; the all-zero word is "unlocked".
pub struct SpinLock(AtomicBool);

impl SpinLock {
    /// A lock in the unlocked state.
    pub fn new() -> (lock: SpinLock) {
        SpinLock(AtomicBool::new(false))
    }

    /// One attempt to take the lock: an atomic swap-to-true with acquire
    /// ordering. Returns `true` when the lock was free and is now held by the
    /// caller. Whether it succeeds depends on the other holders, so nothing
    /// is promised of the outcome.
    pub fn try_lock(&self) -> (acquired: bool) {
        !self.0.swap(true, Ordering::Acquire)
    }

    /// Releases the lock with release ordering.
    pub fn unlock(&self) {
        self.0.store(false, Ordering::Release);
    }

    /// The wait step after `failed` unsuccessful attempts: busy for the first
    /// four, a pause hint up to the sixteenth, a yield from then on.
    pub fn backoff(failed: u32) -> (step: Backoff)
        ensures
            step == backoff_spec(failed as nat),
    {
        if failed <= 3 {
            Backoff::Busy
        } else if failed <= 15 {
            Backoff::Pause
        } else {
            Backoff::Yield
        }
    }
}

} // verus!
