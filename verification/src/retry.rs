//! Retrying rate-limited operations with exponential backoff, as a state machine: the caller
//! makes each attempt and reports its outcome; the machine says whether to wait and retry.

use vstd::prelude::*;
use vstd::arithmetic::power2::{pow2, lemma_pow2_unfold, lemma_pow2_strictly_increases};
use crate::types::RetryConfig;

verus! {

pub open spec fn min_int(a: int, b: int) -> int {
    if a <= b { a } else { b }
}

/// The wait before retry number `retries + 1` after a rate limit that asked for `retry_after`
/// seconds: the smaller of the exponential backoff (capped at the configured maximum) and the
/// linear backoff of 30 seconds per retry.
pub open spec fn backoff_delay_spec(config: RetryConfig, retries: nat, retry_after: nat) -> int {
    min_int(
        min_int(retry_after + config.base_delay * pow2(retries), config.max_delay as int),
        (retry_after + retries * 30) as int,
    )
}

/// The inputs for which the backoff arithmetic stays within `u64`.
pub open spec fn backoff_fits(config: RetryConfig, retries: nat, retry_after: nat) -> bool {
    &&& pow2(retries) <= u64::MAX
    &&& config.base_delay * pow2(retries) <= u64::MAX
    &&& retry_after + config.base_delay * pow2(retries) <= u64::MAX
    &&& retry_after + retries * 30 <= u64::MAX
}

fn pow2_u64(e: u32) -> (res: u64)
    requires
        pow2(e as nat) <= u64::MAX,
    ensures
        res == pow2(e as nat),
{
    let mut p: u64 = 1;
    let mut k: u32 = 0;
    proof {
        reveal(vstd::arithmetic::power::pow);
    }
    while k < e
        invariant
            k <= e,
            p == pow2(k as nat),
            pow2(e as nat) <= u64::MAX,
        decreases e - k,
    {
        proof {
            lemma_pow2_unfold((k + 1) as nat);
            if k + 1 < e {
                lemma_pow2_strictly_increases((k + 1) as nat, e as nat);
            }
        }
        p = p * 2;
        k = k + 1;
    }
    p
}

/// The wait, in seconds, before the next retry.
pub fn backoff_delay(config: &RetryConfig, retries: u32, retry_after: u64) -> (res: u64)
    requires
        backoff_fits(*config, retries as nat, retry_after as nat),
    ensures
        res == backoff_delay_spec(*config, retries as nat, retry_after as nat),
        res <= config.max_delay,
        res <= retry_after + retries * 30,
{
    let p = pow2_u64(retries);
    assert(config.base_delay * p <= u64::MAX);
    let base_backoff = config.base_delay * p;
    let exponential = retry_after + base_backoff;
    let capped = if exponential < config.max_delay { exponential } else { config.max_delay };
    let linear = retry_after + (retries as u64) * 30;
    if capped < linear { capped } else { linear }
}

/// How one attempt of the operation ended.
#[derive(Debug, Clone, Copy, PartialEq, Eq)]
pub enum AttemptOutcome {
    /// The operation succeeded.
    Succeeded,
    /// The operation was rate limited; the service asked to wait this many seconds.
    RateLimited { retry_after: u64 },
    /// The operation failed for another reason.
    Failed,
}

/// What the caller does next.
#[derive(Debug, Clone, Copy, PartialEq, Eq)]
pub enum RetryAction {
    /// Return the result, with the number of retries made and the seconds spent waiting;
    /// `rate_limit_ended` says whether a rate limit was seen before (and has now ended).
    Finish { attempts_made: u32, total_retry_time: u64, rate_limit_ended: bool },
    /// Return the error of the attempt.
    Fail,
    /// Return a rate-limit error with this `retry_after`: no retry is left.
    GiveUp { retry_after: u64 },
    /// Wait this many seconds, then make the next attempt.
    Wait { delay: u64 },
}

/// The progress of a retried operation.
#[derive(Debug, Clone, Copy, PartialEq, Eq)]
pub struct RetryState {
    pub retries: u32,
    pub total_retry_time: u64,
    pub rate_limited: bool,
}

/// The inputs for which a step can be taken without overflow.
pub open spec fn step_fits(config: RetryConfig, state: RetryState, outcome: AttemptOutcome) -> bool {
    match outcome {
        AttemptOutcome::RateLimited { retry_after } =>
            (config.enabled && state.retries < config.max_retries) ==> {
                &&& backoff_fits(config, state.retries as nat, retry_after as nat)
                &&& state.total_retry_time + backoff_delay_spec(config, state.retries as nat, retry_after as nat)
                    <= u64::MAX
            },
        _ => true,
    }
}

/// One step of the retry machine: the state after an attempt's outcome, and what to do. A
/// success finishes with the counts so far; another error fails at once; a rate limit gives up
/// when retries are disabled or used up, and otherwise waits for the backoff delay and counts
/// one more retry.
pub open spec fn retry_step_spec(config: RetryConfig, state: RetryState, outcome: AttemptOutcome) -> (RetryState, RetryAction) {
    match outcome {
        AttemptOutcome::Succeeded => (state, RetryAction::Finish {
            attempts_made: state.retries,
            total_retry_time: state.total_retry_time,
            rate_limit_ended: state.rate_limited,
        }),
        AttemptOutcome::Failed => (state, RetryAction::Fail),
        AttemptOutcome::RateLimited { retry_after } => if !config.enabled || state.retries >= config.max_retries {
            (RetryState { rate_limited: true, ..state }, RetryAction::GiveUp { retry_after })
        } else {
            let d = backoff_delay_spec(config, state.retries as nat, retry_after as nat);
            (RetryState {
                retries: (state.retries + 1) as u32,
                total_retry_time: (state.total_retry_time + d) as u64,
                rate_limited: true,
            }, RetryAction::Wait { delay: d as u64 })
        },
    }
}

impl RetryState {
    /// No retry made yet.
    pub fn new() -> (res: Self)
        ensures
            res == (RetryState { retries: 0, total_retry_time: 0, rate_limited: false }),
    {
        RetryState { retries: 0, total_retry_time: 0, rate_limited: false }
    }

    /// Takes the outcome of an attempt and says what to do; after `Wait` the state counts one
    /// more retry and the time waited.
    pub fn step(&mut self, config: &RetryConfig, outcome: AttemptOutcome) -> (action: RetryAction)
        requires
            step_fits(*config, *old(self), outcome),
        ensures
            (*final(self), action) == retry_step_spec(*config, *old(self), outcome),
    {
        match outcome {
            AttemptOutcome::Succeeded => RetryAction::Finish {
                attempts_made: self.retries,
                total_retry_time: self.total_retry_time,
                rate_limit_ended: self.rate_limited,
            },
            AttemptOutcome::Failed => RetryAction::Fail,
            AttemptOutcome::RateLimited { retry_after } => {
                self.rate_limited = true;
                if !config.enabled || self.retries >= config.max_retries {
                    RetryAction::GiveUp { retry_after }
                } else {
                    let delay = backoff_delay(config, self.retries, retry_after);
                    self.retries = self.retries + 1;
                    self.total_retry_time = self.total_retry_time + delay;
                    RetryAction::Wait { delay }
                }
            },
        }
    }
}

} // verus!
