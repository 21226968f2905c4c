//! Bounded retry with exponential backoff.
//!
//! The policy is oblivious to the operation it wraps: attempts are
//! numbered from 1; a failure of attempt `k` before the last is
//! followed by a sleep of `base * 2^(k-1)` (no jitter, no cap) and a
//! fresh attempt; success returns immediately; after the last failure
//! only the most recent error survives, as `RequestExhausted`.  The
//! sleeping and the re-invocation are the caller's; every decision -
//! when to retry, how long to wait, what to surface - is made here.

use vstd::arithmetic::power2::{lemma2_to64, lemma_pow2_strictly_increases, pow2};
use vstd::arithmetic::mul::lemma_mul_inequality;
use vstd::bits::lemma_u64_shl_is_mul;
use vstd::prelude::*;

use crate::errors::LogQueryError;

verus! {

/// Retry policy configuration.
pub struct RetryPolicy {
    pub max_attempts: u32,
    pub base_delay_ms: u64,
}

impl RetryPolicy {
    /// A policy of `max_attempts` attempts with a one-second base delay.
    pub fn new(max_attempts: u32) -> (r: RetryPolicy)
        ensures
            r.max_attempts == max_attempts,
            r.base_delay_ms == 1000,
    {
        RetryPolicy { max_attempts, base_delay_ms: 1000 }
    }

    /// The sleep after a failure of attempt `attempt`: base times
    /// 2^(attempt-1).
    pub open spec fn spec_backoff_ms(self, attempt: u32) -> int
        recommends
            1 <= attempt,
    {
        self.base_delay_ms * pow2((attempt - 1) as nat)
    }

    /// Computes the backoff sleep, in milliseconds.
    pub fn backoff_delay_ms(&self, attempt: u32) -> (r: u64)
        requires
            1 <= attempt,
            self.spec_backoff_ms(attempt) <= u64::MAX,
        ensures
            r == self.spec_backoff_ms(attempt),
    {
        if self.base_delay_ms == 0 {
            return 0;
        }
        let shift = attempt - 1;
        proof {
            lemma2_to64();
            if shift >= 64 {
                if shift > 64 {
                    lemma_pow2_strictly_increases(64, shift as nat);
                }
                lemma_mul_inequality(
                    1,
                    self.base_delay_ms as int,
                    pow2(shift as nat) as int,
                );
                assert(false);
            }
            lemma_u64_shl_is_mul(self.base_delay_ms, shift as u64);
        }
        self.base_delay_ms << (shift as u64)
    }
}

impl Default for RetryPolicy {
    /// Three attempts, one-second base delay.
    fn default() -> (r: RetryPolicy)
        ensures
            r.max_attempts == 3,
            r.base_delay_ms == 1000,
    {
        RetryPolicy::new(3)
    }
}

/// What follows a failed attempt: a further attempt after the backoff
/// sleep, or giving up.
pub enum RetryDecision {
    RetryAfter { delay_ms: u64 },
    Exhausted,
}

/// The state of one execution under a retry policy: the attempt about
/// to run (numbered from 1) and the most recent failure.  Intermediate
/// failures are discarded.
pub struct RetryRun {
    pub policy: RetryPolicy,
    pub attempt: u32,
    pub last_error: Option<LogQueryError>,
}

impl RetryRun {
    /// Begins an execution: attempt 1, no failure observed.
    pub fn start(policy: RetryPolicy) -> (r: RetryRun)
        ensures
            r.policy == policy,
            r.attempt == 1,
            r.last_error is None,
    {
        RetryRun { policy, attempt: 1, last_error: None }
    }

    /// The number of the attempt about to run.
    pub fn current_attempt(&self) -> (r: u32)
        ensures
            r == self.attempt,
    {
        self.attempt
    }

    /// Records the failure of the current attempt and decides what
    /// follows: before the last attempt, a retry after the exponential
    /// backoff sleep; at or past it, exhaustion.  Only this failure is
    /// kept.
    pub fn on_failure(&mut self, e: LogQueryError) -> (d: RetryDecision)
        requires
            1 <= old(self).attempt,
            old(self).attempt < old(self).policy.max_attempts ==> old(self).policy.spec_backoff_ms(
                old(self).attempt,
            ) <= u64::MAX,
        ensures
            final(self).policy == old(self).policy,
            final(self).last_error == Some(e),
            old(self).attempt < old(self).policy.max_attempts ==> (d matches
                RetryDecision::RetryAfter { delay_ms }
                && delay_ms == old(self).policy.spec_backoff_ms(old(self).attempt)
                && final(self).attempt == old(self).attempt + 1),
            old(self).attempt >= old(self).policy.max_attempts ==> (d is Exhausted
                && final(self).attempt == old(self).attempt),
    {
        if self.attempt < self.policy.max_attempts {
            let delay_ms = self.policy.backoff_delay_ms(self.attempt);
            self.attempt = self.attempt + 1;
            self.last_error = Some(e);
            RetryDecision::RetryAfter { delay_ms }
        } else {
            self.last_error = Some(e);
            RetryDecision::Exhausted
        }
    }

    /// The terminal error after exhaustion, surfacing the last failure.
    pub fn into_exhausted_error(self) -> (r: LogQueryError)
        requires
            self.last_error is Some,
        ensures
            r matches LogQueryError::RequestExhausted { last } && *last == self.last_error->0,
    {
        match self.last_error {
            Some(e) => LogQueryError::RequestExhausted { last: Box::new(e) },
            None => unreached(),
        }
    }
}

} // verus!
