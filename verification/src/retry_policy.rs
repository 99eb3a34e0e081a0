//! Retry policies: how often a request may be attempted, and how long to
//! wait between attempts.

use vstd::prelude::*;
use crate::status::{is_client_error, status_is_client_error};

verus! {

/// The longest pause between two attempts, in seconds.
pub const MAX_BACKOFF_SECS: u64 = 64;

/// How often a request may be attempted.
#[derive(Copy, Clone, Debug, PartialEq, Eq, Structural)]
pub enum RetryPolicy {
    /// One attempt, whatever comes of it.
    Once,
    /// As many attempts as the number says, with a growing pause before each
    /// but the first.
    RetryUpTo(u32),
    /// One attempt, like `Once`; says at the call site that retrying is not
    /// wanted.
    NoRetry,
}

/// What a policy decides before an attempt.
#[derive(Copy, Clone, Debug, PartialEq, Eq, Structural)]
pub enum Outcome {
    /// Make no further attempt.
    Stop,
    /// Make an attempt, after a pause of so many seconds if one is given.
    Continue(Option<u64>),
}

/// The pause before an attempt that follows `attempts` earlier ones: two
/// seconds after the first, doubled after each further one, and never more
/// than [`MAX_BACKOFF_SECS`].
pub open spec fn backoff_secs(attempts: nat) -> nat
    decreases attempts,
{
    if attempts == 0 {
        1
    } else if 2 * backoff_secs((attempts - 1) as nat) >= MAX_BACKOFF_SECS {
        MAX_BACKOFF_SECS as nat
    } else {
        2 * backoff_secs((attempts - 1) as nat)
    }
}

/// The pause never exceeds [`MAX_BACKOFF_SECS`] and is at least a second.
pub proof fn lemma_backoff_bounded(attempts: nat)
    ensures
        1 <= backoff_secs(attempts) <= MAX_BACKOFF_SECS,
    decreases attempts,
{
    if attempts > 0 {
        lemma_backoff_bounded((attempts - 1) as nat);
    }
}

/// A later attempt never waits less than an earlier one.
pub proof fn lemma_backoff_monotonic(earlier: nat, later: nat)
    requires
        earlier <= later,
    ensures
        backoff_secs(earlier) <= backoff_secs(later),
    decreases later,
{
    if earlier < later {
        lemma_backoff_monotonic(earlier, (later - 1) as nat);
        lemma_backoff_bounded((later - 1) as nat);
    }
}

/// Computes [`backoff_secs`].
pub fn calculate_backoff(attempts: u32) -> (secs: u64)
    ensures
        secs == backoff_secs(attempts as nat),
{
    let mut secs: u64 = 1;
    let mut done: u32 = 0;
    while done < attempts && secs < MAX_BACKOFF_SECS
        invariant
            done <= attempts,
            secs == backoff_secs(done as nat),
            secs <= MAX_BACKOFF_SECS,
        decreases attempts - done,
    {
        if secs >= MAX_BACKOFF_SECS / 2 {
            secs = MAX_BACKOFF_SECS;
        } else {
            secs = secs * 2;
        }
        done = done + 1;
    }
    proof {
        if done < attempts {
            lemma_backoff_monotonic(done as nat, attempts as nat);
            lemma_backoff_bounded(attempts as nat);
        }
    }
    secs
}

impl RetryPolicy {
    /// The number of attempts that the policy allows at most.
    pub open spec fn max_attempts(self) -> nat {
        match self {
            RetryPolicy::Once => 1,
            RetryPolicy::RetryUpTo(n) => n as nat,
            RetryPolicy::NoRetry => 1,
        }
    }

    /// The decision before an attempt, given what the last attempt showed:
    /// its HTTP status and retry hint, where a response came, and the number
    /// of attempts made so far.
    ///
    /// A hint of `false` stops everything. `Once` and `NoRetry` allow the
    /// first attempt and no other. `RetryUpTo(n)` stops on a client error,
    /// which no retry will mend, and otherwise allows attempts while fewer
    /// than `n` were made, each but the first after a pause of
    /// [`backoff_secs`].
    pub open spec fn decision(self, status: Option<u16>, should_retry: Option<bool>, attempts: u32) -> Outcome {
        if should_retry == Some(false) {
            Outcome::Stop
        } else {
            match self {
                RetryPolicy::RetryUpTo(n) => {
                    if status is Some && is_client_error(status->Some_0) {
                        Outcome::Stop
                    } else if attempts >= n {
                        Outcome::Stop
                    } else if attempts == 0 {
                        Outcome::Continue(None)
                    } else {
                        Outcome::Continue(Some(backoff_secs(attempts as nat) as u64))
                    }
                },
                _ => {
                    if attempts == 0 {
                        Outcome::Continue(None)
                    } else {
                        Outcome::Stop
                    }
                },
            }
        }
    }

    /// Decides whether another attempt is to be made: see
    /// [`RetryPolicy::decision`].
    pub fn test(&self, status: Option<u16>, should_retry: Option<bool>, attempts: u32) -> (outcome: Outcome)
        ensures
            outcome == self.decision(status, should_retry, attempts),
    {
        if let Some(false) = should_retry {
            return Outcome::Stop;
        }
        match self {
            RetryPolicy::Once | RetryPolicy::NoRetry => {
                if attempts == 0 {
                    Outcome::Continue(None)
                } else {
                    Outcome::Stop
                }
            },
            RetryPolicy::RetryUpTo(n) => {
                let client_error = match status {
                    Some(code) => status_is_client_error(code),
                    None => false,
                };
                if client_error {
                    Outcome::Stop
                } else if attempts < *n {
                    if attempts == 0 {
                        Outcome::Continue(None)
                    } else {
                        Outcome::Continue(Some(calculate_backoff(attempts)))
                    }
                } else {
                    Outcome::Stop
                }
            },
        }
    }
}

/// No policy allows more attempts than its maximum, and none allows one
/// after a hint not to retry.
pub proof fn lemma_decision_bounded(policy: RetryPolicy, status: Option<u16>, should_retry: Option<bool>, attempts: u32)
    ensures
        policy.decision(status, should_retry, attempts) is Continue ==> attempts < policy.max_attempts(),
        should_retry == Some(false) ==> policy.decision(status, should_retry, attempts) is Stop,
{
}

} // verus!
