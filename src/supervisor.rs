//! The decisions of the connection supervisor: exponential backoff between
//! connection attempts, and a hard reset of the link after repeated failures.

use vstd::prelude::*;

verus! {

/// First delay, and the delay after a clean attempt, in seconds.
pub const INITIAL_BACKOFF_SECS: u64 = 2;

/// Largest delay, in seconds.
pub const MAX_BACKOFF_SECS: u64 = 30;

/// Delay after a hard reset, in seconds.
pub const RESET_BACKOFF_SECS: u64 = 3;

/// Consecutive failures that call for a hard reset.
pub const FAILURES_BEFORE_RESET: u32 = 3;

/// The backoff state of the top-level reconnect loop.
#[derive(Debug, Clone, Copy, PartialEq, Eq, Structural)]
pub struct ReconnectPolicy {
    /// The delay after the next attempt, in seconds.
    pub backoff_secs: u64,
    /// Consecutive failed attempts.
    pub failures: u32,
}

/// The state before an attempt, and whether the link is to be reset first:
/// after enough consecutive failures it is, the count starts over and the
/// backoff goes to its reset value.
pub open spec fn before_attempt_spec(p: ReconnectPolicy) -> (ReconnectPolicy, bool) {
    if p.failures >= FAILURES_BEFORE_RESET {
        (ReconnectPolicy { backoff_secs: RESET_BACKOFF_SECS, failures: 0 }, true)
    } else {
        (p, false)
    }
}

/// The state after an attempt, and the delay to wait before the next: a
/// clean attempt resets the backoff and the failures, a failed one counts;
/// the delay is the backoff so set, and the backoff then doubles up to its
/// ceiling.
pub open spec fn after_attempt_spec(p: ReconnectPolicy, ok: bool) -> (ReconnectPolicy, u64) {
    let q = if ok {
        ReconnectPolicy { backoff_secs: INITIAL_BACKOFF_SECS, failures: 0 }
    } else {
        ReconnectPolicy {
            backoff_secs: p.backoff_secs,
            failures: if p.failures < u32::MAX { (p.failures + 1) as u32 } else { p.failures },
        }
    };
    let doubled = if q.backoff_secs >= MAX_BACKOFF_SECS / 2 {
        MAX_BACKOFF_SECS
    } else {
        (q.backoff_secs * 2) as u64
    };
    (ReconnectPolicy { backoff_secs: doubled, ..q }, q.backoff_secs)
}

impl ReconnectPolicy {
    /// The backoff stays between its first value and its ceiling.
    pub open spec fn inv(&self) -> bool {
        INITIAL_BACKOFF_SECS <= self.backoff_secs <= MAX_BACKOFF_SECS
    }

    /// The state of a fresh loop.
    pub fn new() -> (r: Self)
        ensures
            r.inv(),
            r.backoff_secs == INITIAL_BACKOFF_SECS,
            r.failures == 0,
    {
        ReconnectPolicy { backoff_secs: INITIAL_BACKOFF_SECS, failures: 0 }
    }

    /// Called before each attempt: whether to reset the link first.
    pub fn before_attempt(&mut self) -> (reset: bool)
        requires
            old(self).inv(),
        ensures
            final(self).inv(),
            (*final(self), reset) == before_attempt_spec(*old(self)),
    {
        if self.failures >= FAILURES_BEFORE_RESET {
            self.failures = 0;
            self.backoff_secs = RESET_BACKOFF_SECS;
            true
        } else {
            false
        }
    }

    /// Called after each attempt with whether it ended cleanly: the delay to
    /// wait before the next one, in seconds.
    pub fn after_attempt(&mut self, ok: bool) -> (delay_secs: u64)
        requires
            old(self).inv(),
        ensures
            final(self).inv(),
            INITIAL_BACKOFF_SECS <= delay_secs <= MAX_BACKOFF_SECS,
            (*final(self), delay_secs) == after_attempt_spec(*old(self), ok),
    {
        if ok {
            self.backoff_secs = INITIAL_BACKOFF_SECS;
            self.failures = 0;
        } else if self.failures < u32::MAX {
            self.failures = self.failures + 1;
        }
        let delay = self.backoff_secs;
        self.backoff_secs = if delay >= MAX_BACKOFF_SECS / 2 {
            MAX_BACKOFF_SECS
        } else {
            delay * 2
        };
        delay
    }
}

/// Starting afresh, three failed attempts in a row make the supervisor reset
/// the link before the fourth, with the backoff set back to its reset value
/// and the failures counted from zero; the first two attempts are made
/// without a reset.
pub proof fn lemma_reset_after_three_failures()
    ensures
        ({
            let fresh = ReconnectPolicy { backoff_secs: INITIAL_BACKOFF_SECS, failures: 0 };
            let b1 = before_attempt_spec(fresh);
            let a1 = after_attempt_spec(b1.0, false);
            let b2 = before_attempt_spec(a1.0);
            let a2 = after_attempt_spec(b2.0, false);
            let b3 = before_attempt_spec(a2.0);
            let a3 = after_attempt_spec(b3.0, false);
            let b4 = before_attempt_spec(a3.0);
            &&& !b1.1 && !b2.1 && !b3.1
            &&& b4.1
            &&& b4.0.backoff_secs == RESET_BACKOFF_SECS
            &&& b4.0.failures == 0
        }),
{
}

/// In general: a reset happens before an attempt exactly when the failures
/// since the last reset or clean attempt have reached the threshold, and it
/// leaves the backoff at its reset value.
pub proof fn lemma_reset_iff_threshold(p: ReconnectPolicy)
    ensures
        before_attempt_spec(p).1 <==> p.failures >= FAILURES_BEFORE_RESET,
        before_attempt_spec(p).1 ==> before_attempt_spec(p).0.backoff_secs == RESET_BACKOFF_SECS
            && before_attempt_spec(p).0.failures == 0,
{
}

} // verus!
