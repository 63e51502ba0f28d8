//! The bounded retry policy around fetches.
//!
//! A fetch is retried a small fixed number of times with a constant delay;
//! exhausting the attempts turns the failure into a skipped tick, never
//! into a torn-down loop. The policy wraps exactly the fetch operation —
//! neither the connection probe nor a notify call is retried by it.

use vstd::prelude::*;

verus! {

/// How many times a failed fetch is retried, and how long to wait between
/// two attempts.
#[derive(Clone, Copy, Debug, PartialEq, Eq, Structural)]
pub struct RetryPolicy {
    /// Retries allowed after the first attempt.
    pub max_retries: u64,
    /// Constant delay between attempts, in milliseconds.
    pub delay_millis: u64,
}

impl Default for RetryPolicy {
    /// Three retries at one-second spacing.
    fn default() -> (r: RetryPolicy)
        ensures
            r.max_retries == 3,
            r.delay_millis == 1000,
    {
        RetryPolicy { max_retries: 3, delay_millis: 1000 }
    }
}

impl RetryPolicy {
    /// Whether a fetch that has already failed `failed_attempts` times is
    /// tried once more. Every run of the policy makes at most
    /// `max_retries + 1` attempts in all: from `max_retries` failures on,
    /// this says stop.
    pub fn should_retry(&self, failed_attempts: u64) -> (r: bool)
        ensures
            r == (failed_attempts < self.max_retries),
    {
        failed_attempts < self.max_retries
    }

    /// The constant delay to sleep before the next attempt.
    pub fn delay(&self) -> (r: u64)
        ensures
            r == self.delay_millis,
    {
        self.delay_millis
    }
}

} // verus!
