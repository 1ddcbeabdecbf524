//! Bounded retry schedule.
//!
//! Fallible venue calls are repeated with a fixed delay between attempts, up
//! to a caller-specified attempt cap, and the final failure is surfaced when
//! the cap is exhausted.  The schedule itself is pure: `retry_decision` says
//! what to do after one observed attempt, and `run_retry` says what a whole
//! run does for a given sequence of attempt outcomes.

use vstd::prelude::*;
use vstd::string::StrSliceExecFns;

verus! {

/// Whether a posted market order succeeded: an empty or absent error
/// message denotes success, and any non-empty message is a retryable
/// failure.
pub fn market_order_succeeded(error_msg: &Option<String>) -> (r: bool)
    ensures
        r <==> match error_msg {
            Option::None => true,
            Option::Some(m) => m@.len() == 0,
        },
{
    match error_msg {
        Option::None => true,
        Option::Some(m) => m.as_str().unicode_len() == 0,
    }
}

/// How often and how many times a fallible operation is repeated.
#[derive(Clone, Copy, PartialEq, Eq, Structural, Debug)]
pub struct RetryPolicy {
    /// Total number of attempts allowed, including the first.
    pub max_attempts: usize,
    /// Fixed pause between consecutive attempts, in milliseconds.
    pub delay_millis: u64,
}

/// What to do after one attempt of a fallible operation.
#[derive(Clone, Copy, PartialEq, Eq, Structural, Debug)]
pub enum RetryDecision {
    /// The attempt succeeded: stop and return its result.
    Succeeded,
    /// The attempt failed but attempts remain: pause for the fixed delay,
    /// then try again.
    RetryAfterDelay,
    /// The attempt failed and the cap is reached: surface the failure.
    Exhausted,
}

/// Decide what follows an attempt: `succeeded` reports the attempt itself,
/// `failures` counts failed attempts so far including this one.
pub fn retry_decision(succeeded: bool, failures: usize, max_attempts: usize) -> (r: RetryDecision)
    ensures
        succeeded ==> r == RetryDecision::Succeeded,
        !succeeded && failures >= max_attempts ==> r == RetryDecision::Exhausted,
        !succeeded && failures < max_attempts ==> r == RetryDecision::RetryAfterDelay,
{
    if succeeded {
        RetryDecision::Succeeded
    } else if failures >= max_attempts {
        RetryDecision::Exhausted
    } else {
        RetryDecision::RetryAfterDelay
    }
}

/// What a completed retry run did: whether it ended in success, how many
/// attempts it made, and how many inter-attempt pauses it took.
#[derive(Clone, Copy, PartialEq, Eq, Structural, Debug)]
pub struct RetryOutcome {
    pub succeeded: bool,
    pub attempts: usize,
    pub sleeps: usize,
}

/// Replay the retry schedule against a recorded sequence of attempt
/// outcomes: `outcomes[i]` tells whether attempt `i + 1` would succeed.  The
/// run stops at the first success, or after `max_attempts` failures; one
/// pause is taken after every failure except the one that exhausts the cap.
pub fn run_retry(outcomes: &Vec<bool>, max_attempts: usize) -> (r: RetryOutcome)
    requires
        1 <= max_attempts,
        max_attempts <= outcomes@.len(),
    ensures
        r.succeeded == exists|i: int| 0 <= i < max_attempts && outcomes@[i],
        r.succeeded ==> {
            &&& 1 <= r.attempts <= max_attempts
            &&& outcomes@[r.attempts - 1]
            &&& forall|i: int| 0 <= i < r.attempts - 1 ==> !outcomes@[i]
            &&& r.sleeps == r.attempts - 1
        },
        !r.succeeded ==> r.attempts == max_attempts && r.sleeps == max_attempts - 1,
{
    let mut k: usize = 0;
    let mut sleeps: usize = 0;
    loop
        invariant
            0 <= k < max_attempts,
            max_attempts <= outcomes@.len(),
            sleeps == k,
            forall|i: int| 0 <= i < k ==> !outcomes@[i],
        decreases max_attempts - k,
    {
        let ok = outcomes[k];
        if ok {
            return RetryOutcome { succeeded: true, attempts: k + 1, sleeps };
        }
        if k + 1 >= max_attempts {
            return RetryOutcome { succeeded: false, attempts: max_attempts, sleeps };
        }
        sleeps = sleeps + 1;
        k = k + 1;
    }
}

} // verus!
