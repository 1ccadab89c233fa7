//! The decisions behind lazy, rate-limited attachment to the shared region.
//!
//! Producers run long before a collector may exist. Each of them asks for the
//! region; until one open succeeds, at most one open is attempted per
//! `RETRY_INTERVAL`. The caller owns the clock and the operating system: it
//! asks `next_step` what to do, performs the open when told to, and reports
//! the outcome to `record`.

use crate::shmem::Duration;
use crate::shmem::Time;
use vstd::prelude::*;

verus! {

/// Least time between two attempts to open the region: ten seconds.
pub const RETRY_INTERVAL: Duration = 10_000_000_000;

/// What a producer that asks for the region does next.
#[derive(Clone, Copy, Debug, PartialEq, Eq, Structural)]
pub enum AttachStep {
    /// The region is open: use it.
    Attached,
    /// Try to open the region now.
    Attempt,
    /// The last attempt failed too recently: go without the region.
    Throttled,
}

/// The attachment as contracts speak of it.
pub struct AttachmentView {
    /// Whether an open has succeeded.
    pub ready: bool,
    /// When the last failed attempt was made, if any was.
    pub last_check: Option<Time>,
}

impl AttachmentView {
    /// Whether an attempt is allowed at `now`: none has failed yet, or the
    /// last failure lies at least `RETRY_INTERVAL` back. A clock that reads
    /// earlier than the last failure counts as no time passed.
    pub open spec fn due(self, now: Time) -> bool {
        match self.last_check {
            None => true,
            Some(last) => now - last >= RETRY_INTERVAL,
        }
    }

    /// The step taken at `now`.
    pub open spec fn step(self, now: Time) -> AttachStep {
        if self.ready {
            AttachStep::Attached
        } else if self.due(now) {
            AttachStep::Attempt
        } else {
            AttachStep::Throttled
        }
    }

    /// The state after an attempt made at `now` that ended as `opened` says.
    pub open spec fn recorded(self, now: Time, opened: bool) -> AttachmentView {
        if opened {
            AttachmentView { ready: true, last_check: self.last_check }
        } else {
            AttachmentView { ready: self.ready, last_check: Some(now) }
        }
    }
}

/// Whether the region is open, and when opening it last failed.
pub struct Attachment {
    ready: bool,
    last_check: Option<Time>,
}

impl View for Attachment {
    type V = AttachmentView;

    closed spec fn view(&self) -> AttachmentView {
        AttachmentView { ready: self.ready, last_check: self.last_check }
    }
}

impl Attachment {
    /// Not attached, and no attempt made yet.
    pub fn new() -> (state: Attachment)
        ensures
            state@ == (AttachmentView { ready: false, last_check: None }),
    {
        Attachment { ready: false, last_check: None }
    }

    /// Whether the region is open. This is all that a caller which must not
    /// block or allocate consults.
    pub fn is_ready(&self) -> (ready: bool)
        ensures
            ready == self@.ready,
    {
        self.ready
    }

    /// When the last failed attempt was made.
    pub fn last_check(&self) -> (last: Option<Time>)
        ensures
            last == self@.last_check,
    {
        self.last_check
    }

    /// Decides what a producer that asks for the region at `now` does.
    pub fn next_step(&self, now: Time) -> (step: AttachStep)
        ensures
            step == self@.step(now),
    {
        if self.ready {
            AttachStep::Attached
        } else {
            match self.last_check {
                None => AttachStep::Attempt,
                Some(last) => {
                    if now >= last && now - last >= RETRY_INTERVAL {
                        AttachStep::Attempt
                    } else {
                        AttachStep::Throttled
                    }
                },
            }
        }
    }

    /// Records how the attempt made at `now` ended: a success attaches for
    /// good, a failure starts the waiting time anew.
    pub fn record(&mut self, now: Time, opened: bool)
        ensures
            final(self)@ == old(self)@.recorded(now, opened),
    {
        if opened {
            self.ready = true;
        } else {
            self.last_check = Some(now);
        }
    }
}

/// After a first attempt has failed at `failed_at`, a producer that asks
/// again sooner than `RETRY_INTERVAL` later is turned away without an
/// attempt, and one that asks at that time or later makes the next attempt.
pub proof fn lemma_retry_waits(failed_at: Time, now: Time)
    ensures
        ({
            let fresh = AttachmentView { ready: false, last_check: None };
            let failed = fresh.recorded(failed_at, false);
            &&& fresh.step(failed_at) == AttachStep::Attempt
            &&& now - failed_at < RETRY_INTERVAL ==> failed.step(now) == AttachStep::Throttled
            &&& now - failed_at >= RETRY_INTERVAL ==> failed.step(now) == AttachStep::Attempt
        }),
{
}

/// Once an attempt has succeeded, every later request finds the region,
/// whatever the clock reads and whatever is recorded afterwards.
pub proof fn lemma_attached_for_good(state: AttachmentView, at: Time, now: Time, later: Time, opened: bool)
    ensures
        state.recorded(at, true).step(now) == AttachStep::Attached,
        state.recorded(at, true).recorded(later, opened).step(now) == AttachStep::Attached,
{
}

} // verus!
