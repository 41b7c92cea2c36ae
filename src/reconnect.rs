//! The reconnect policy: bounded attempts at acquiring a connection, with a
//! fixed delay between them, counted afresh for each acquisition.
use vstd::prelude::*;

use crate::json::{decimal, push_decimal};

verus! {

/// The delay between two attempts, in milliseconds.
pub const RETRY_DELAY_MS: u64 = 100;

/// What to do next while acquiring a connection.
#[derive(Debug, Clone, Copy, PartialEq, Eq, Structural)]
pub enum AcquireStep {
    /// Try to connect now; then report the outcome.
    Attempt,
    /// Wait `RETRY_DELAY_MS`, then try to connect; then report the outcome.
    RetryAfterDelay,
    /// A connection was acquired.
    Acquired,
    /// Give up after this many failed attempts.
    GiveUp(usize),
}

/// Bounded attempts at acquiring a connection.
pub struct ReconnectPolicy {
    max_attempts: usize,
    failures: usize,
}

/// The diagnostic of an acquisition that gave up.
pub open spec fn exhausted_text(attempts: usize) -> Seq<char> {
    "try to connect over "@ + decimal(attempts as nat) + " times"@
}

impl ReconnectPolicy {
    /// The number of attempts an acquisition may make.
    pub closed spec fn max_attempts(&self) -> usize {
        self.max_attempts
    }

    /// Failed attempts of the acquisition in progress.
    pub closed spec fn failures(&self) -> usize {
        self.failures
    }

    /// At most `max_attempts` attempts fail in an acquisition.
    pub closed spec fn wf(&self) -> bool {
        self.failures <= self.max_attempts
    }

    pub fn new(max_attempts: usize) -> (r: Self)
        ensures
            r.wf(),
            r.max_attempts() == max_attempts,
            r.failures() == 0,
    {
        ReconnectPolicy { max_attempts, failures: 0 }
    }

    /// Begins an acquisition: no attempt has failed yet. A policy that
    /// allows no attempt gives up at once.
    pub fn begin(&mut self) -> (r: AcquireStep)
        ensures
            final(self).wf(),
            final(self).max_attempts() == old(self).max_attempts(),
            final(self).failures() == 0,
            r == if old(self).max_attempts() > 0 {
                AcquireStep::Attempt
            } else {
                AcquireStep::GiveUp(0)
            },
    {
        self.failures = 0;
        if self.max_attempts > 0 {
            AcquireStep::Attempt
        } else {
            AcquireStep::GiveUp(0)
        }
    }

    /// Takes the outcome of an attempt: a success ends the acquisition and
    /// resets the count; a failure is counted, and the policy gives up once
    /// `max_attempts` attempts have failed.
    pub fn on_outcome(&mut self, connected: bool) -> (r: AcquireStep)
        requires
            old(self).wf(),
            old(self).failures() < old(self).max_attempts(),
        ensures
            final(self).wf(),
            final(self).max_attempts() == old(self).max_attempts(),
            connected ==> r == AcquireStep::Acquired && final(self).failures() == 0,
            !connected ==> {
                &&& final(self).failures() == old(self).failures() + 1
                &&& r == if final(self).failures() < final(self).max_attempts() {
                    AcquireStep::RetryAfterDelay
                } else {
                    AcquireStep::GiveUp(final(self).max_attempts())
                }
            },
    {
        if connected {
            self.failures = 0;
            AcquireStep::Acquired
        } else {
            self.failures = self.failures + 1;
            if self.failures < self.max_attempts {
                AcquireStep::RetryAfterDelay
            } else {
                AcquireStep::GiveUp(self.failures)
            }
        }
    }

    /// True when another attempt may be made.
    pub fn may_attempt(&self) -> (r: bool)
        ensures
            r == (self.failures() < self.max_attempts()),
    {
        self.failures < self.max_attempts
    }
}

/// The diagnostic of an acquisition that gave up after `attempts` attempts.
pub fn exhausted_message(attempts: usize) -> (r: String)
    ensures
        r@ == exhausted_text(attempts),
{
    let mut out = String::new();
    out.append("try to connect over ");
    push_decimal(&mut out, attempts as u64);
    out.append(" times");
    assert(out@ =~= exhausted_text(attempts));
    out
}

} // verus!
