//! Retry policies: a time-bounded default, a fixed-timeout variant, and a
//! no-retry strategy. A policy maps (attempt, elapsed) to an allow/deny
//! decision plus a wait.

use vstd::prelude::*;

use vstd::arithmetic::power::{lemma1_pow, lemma_pow_increases, pow};

verus! {

/// The default ceiling on total retry time, in milliseconds.
pub const DEFAULT_RETRY_TIMEOUT_MS: u64 = 5000;

/// The base of the attempt-indexed backoff, in milliseconds.
pub const INITIAL_RETRY_BACKOFF_MILLISECONDS: u64 = 1;

/// What a retry decision is computed from: the number of attempts made
/// so far and the wall-clock time since the first attempt.
#[derive(Clone, Copy, Debug, PartialEq, Eq, Structural)]
pub struct RetryParams {
    pub attempt: usize,
    pub time_from_start_ms: u64,
}

/// A retry decision: whether another attempt is allowed, and how long to
/// wait before it.
#[derive(Clone, Copy, Debug, PartialEq, Eq, Structural)]
pub struct RetryDecision {
    pub allow_retry: bool,
    pub wait_timeout_ms: u64,
}

/// A retry policy. `wait_duration` must compute exactly the decision its
/// specification names.
pub trait Retry {
    spec fn spec_decision(&self, params: RetryParams) -> RetryDecision;

    fn wait_duration(&self, params: RetryParams) -> (r: RetryDecision)
        ensures
            r == self.spec_decision(params),
    ;
}

/// Base-to-the-power-exponent, in `u64` range.
fn pow_u64(base: u64, exp: usize) -> (r: u64)
    requires
        base >= 1,
        pow(base as int, exp as nat) <= u64::MAX,
    ensures
        r as int == pow(base as int, exp as nat),
{
    let mut acc: u64 = 1;
    let mut i: usize = 0;
    proof {
        vstd::arithmetic::power::lemma_pow0(base as int);
    }
    while i < exp
        invariant
            base >= 1,
            0 <= i <= exp,
            pow(base as int, exp as nat) <= u64::MAX,
            acc as int == pow(base as int, i as nat),
        decreases exp - i,
    {
        proof {
            lemma_pow_increases(base as nat, (i + 1) as nat, exp as nat);
            assert(pow(base as int, (i + 1) as nat) == pow(base as int, i as nat) * (
            base as int)) by {
                vstd::arithmetic::power::lemma_pow_adds(base as int, i as nat, 1nat);
                lemma1_pow(1nat);
                assert(pow(base as int, 1nat) == base as int) by {
                    vstd::arithmetic::power::lemma_pow1(base as int);
                };
            };
        }
        acc = acc * base;
        i = i + 1;
    }
    acc
}

/// The wait before the next attempt: the backoff base to the power of
/// the attempt count, and none at all before a first retry decision.
pub open spec fn spec_backoff_ms(attempt: usize) -> int {
    if attempt > 0 {
        pow(INITIAL_RETRY_BACKOFF_MILLISECONDS as int, attempt as nat)
    } else {
        0
    }
}

/// Retries until a configured wall-clock ceiling: a retry is allowed
/// while the elapsed time plus the computed wait stays under the
/// timeout.
#[derive(Clone, Copy, Debug, PartialEq, Eq, Structural)]
pub struct TimeoutRetrier {
    pub timeout_ms: u64,
}

impl Default for TimeoutRetrier {
    /// The default retrier: the default retry-time ceiling.
    fn default() -> (r: Self)
        ensures
            r.timeout_ms == DEFAULT_RETRY_TIMEOUT_MS,
    {
        Self { timeout_ms: DEFAULT_RETRY_TIMEOUT_MS }
    }
}

impl Retry for TimeoutRetrier {
    open spec fn spec_decision(&self, params: RetryParams) -> RetryDecision {
        if params.time_from_start_ms < self.timeout_ms {
            RetryDecision {
                allow_retry: params.time_from_start_ms + spec_backoff_ms(params.attempt)
                    < self.timeout_ms,
                wait_timeout_ms: spec_backoff_ms(params.attempt) as u64,
            }
        } else {
            RetryDecision { allow_retry: false, wait_timeout_ms: 0 }
        }
    }

    fn wait_duration(&self, params: RetryParams) -> (r: RetryDecision) {
        proof {
            lemma1_pow(params.attempt as nat);
        }
        let mut res = RetryDecision { allow_retry: false, wait_timeout_ms: 0 };
        if params.time_from_start_ms < self.timeout_ms {
            if params.attempt > 0 {
                res.wait_timeout_ms = pow_u64(
                    INITIAL_RETRY_BACKOFF_MILLISECONDS,
                    params.attempt,
                );
            }
            res.allow_retry = (params.time_from_start_ms as u128 + res.wait_timeout_ms as u128)
                < self.timeout_ms as u128;
        }
        res
    }
}

/// Denies every retry.
#[derive(Clone, Copy, Debug, PartialEq, Eq, Structural)]
pub struct NoRetrier {}

impl Retry for NoRetrier {
    open spec fn spec_decision(&self, params: RetryParams) -> RetryDecision {
        RetryDecision { allow_retry: false, wait_timeout_ms: 0 }
    }

    fn wait_duration(&self, params: RetryParams) -> (r: RetryDecision) {
        RetryDecision { allow_retry: false, wait_timeout_ms: 0 }
    }
}

} // verus!
