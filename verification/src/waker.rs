//! The bridge between the engine's waker and the worker's executor: a
//! flag that remembers a wake, and the note that an outer waker waits.

use vstd::prelude::*;

verus! {

/// The state that the engine's waker and the driver's future share.
#[derive(Clone, Copy, Debug, PartialEq, Eq, Structural)]
pub struct ExecutionPollState {
    /// Whether the engine has woken the driver.
    pub complete: bool,
    /// Whether the driver's future has left a waker of the executor.
    pub waker_registered: bool,
}

impl ExecutionPollState {
    /// The state after the engine's waker was called.
    pub open spec fn woken(self) -> Self {
        ExecutionPollState { complete: true, waker_registered: self.waker_registered }
    }

    /// The state after the driver's future was polled.
    pub open spec fn polled(self) -> Self {
        if self.complete {
            self
        } else {
            ExecutionPollState { complete: false, waker_registered: true }
        }
    }

    /// The state before anything happened: no wake, no waker.
    pub fn new() -> (state: Self)
        ensures
            !state.complete,
            !state.waker_registered,
    {
        ExecutionPollState { complete: false, waker_registered: false }
    }

    /// The engine's waker was called: the wake is remembered, and it is
    /// passed on to the executor's waker if one was left. That waker
    /// stays, so that a later wake finds it again.
    pub fn wake_by_ref(&mut self) -> (forward: bool)
        ensures
            *final(self) == old(self).woken(),
            forward == old(self).waker_registered,
    {
        self.complete = true;
        self.waker_registered
    }

    /// The driver's future was polled: it is ready once the engine has
    /// woken the driver; until then the executor's waker is left behind.
    pub fn poll(&mut self) -> (ready: bool)
        ensures
            *final(self) == old(self).polled(),
            ready == old(self).complete,
    {
        if self.complete {
            true
        } else {
            self.waker_registered = true;
            false
        }
    }

    /// A wake that comes before the future is polled is not lost: the
    /// next poll, and every poll after it, finds the future ready.
    pub proof fn lemma_wake_is_kept(self)
        ensures
            self.woken().complete,
            self.woken().polled() == self.woken(),
    {
    }

    /// Waking twice is waking once.
    pub proof fn lemma_wake_idempotent(self)
        ensures
            self.woken().woken() == self.woken(),
    {
    }

    /// Once the future was polled without a wake, the next wake is passed
    /// on to the executor.
    pub proof fn lemma_wake_after_poll_is_forwarded(self)
        requires
            !self.complete,
        ensures
            self.polled().waker_registered,
            self.polled().woken().complete,
    {
    }
}

} // verus!
