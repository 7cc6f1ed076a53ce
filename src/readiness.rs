//! Waiting for the shared store: a bounded number of polls, each followed
//! by a fixed pause, then a distinct "not ready" failure.

use vstd::prelude::*;

verus! {

/// Polls allowed to an ordinary command: ten seconds at one poll per pause.
pub const COMMAND_WAIT_POLLS: u32 = 100;

/// Polls allowed to an import, which waits longer.
pub const IMPORT_WAIT_POLLS: u32 = 300;

/// The pause between two polls, in milliseconds.
pub const POLL_PAUSE_MS: u64 = 100;

/// What to do after a poll of the store.
#[derive(Debug, Clone, Copy, PartialEq, Eq, Structural)]
pub enum PollDecision {
    /// The store is ready: use it.
    Proceed,
    /// Not ready yet: pause, then poll again.
    Wait,
    /// Not ready within the bound: fail with the "not ready" condition.
    GiveUp,
}

/// Counts the polls of one wait for the store.
#[derive(Debug, Clone, Copy)]
pub struct ReadinessGate {
    attempts: u32,
    max_attempts: u32,
}

impl ReadinessGate {
    /// Polls that found the store not ready so far.
    pub closed spec fn attempts(&self) -> nat {
        self.attempts as nat
    }

    /// The most polls this wait allows.
    pub closed spec fn max_attempts(&self) -> nat {
        self.max_attempts as nat
    }

    /// A gate never counts past its bound.
    pub open spec fn wf(&self) -> bool {
        self.attempts() <= self.max_attempts()
    }

    /// A gate that has polled nothing yet and allows `max_attempts` polls.
    pub fn new(max_attempts: u32) -> (r: ReadinessGate)
        ensures
            r.wf(),
            r.attempts() == 0,
            r.max_attempts() == max_attempts,
    {
        ReadinessGate { attempts: 0, max_attempts }
    }

    /// Records one poll: a ready store is used at once; otherwise the poll
    /// is counted, and the wait ends when the count reaches the bound.
    pub fn poll(&mut self, ready: bool) -> (r: PollDecision)
        requires
            old(self).wf(),
        ensures
            final(self).wf(),
            final(self).max_attempts() == old(self).max_attempts(),
            ready ==> r == PollDecision::Proceed && final(self).attempts() == old(self).attempts(),
            !ready && old(self).attempts() < old(self).max_attempts() ==> final(self).attempts()
                == old(self).attempts() + 1,
            !ready && old(self).attempts() >= old(self).max_attempts() ==> final(self).attempts()
                == old(self).attempts(),
            !ready ==> (r == PollDecision::GiveUp <==> final(self).attempts()
                >= final(self).max_attempts()),
            !ready ==> (r == PollDecision::Wait <==> final(self).attempts()
                < final(self).max_attempts()),
    {
        if ready {
            return PollDecision::Proceed;
        }
        if self.attempts < self.max_attempts {
            self.attempts = self.attempts + 1;
        }
        if self.attempts >= self.max_attempts {
            PollDecision::GiveUp
        } else {
            PollDecision::Wait
        }
    }

    /// Polls that found the store not ready so far.
    pub fn attempts_made(&self) -> (r: u32)
        ensures
            r == self.attempts(),
    {
        self.attempts
    }
}

/// The message of a wait that gave up.
pub fn not_ready_message() -> (r: String)
    ensures
        r@ == "Database not initialized. Please wait a moment and try again."@,
{
    String::from_str("Database not initialized. Please wait a moment and try again.")
}

} // verus!
