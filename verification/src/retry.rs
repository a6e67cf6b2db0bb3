//! The decision core of a retry driver. The driver itself performs the
//! attempts and the waiting — outside work — and consults this table after
//! each attempt: the policy is to stop on the first success, and after a
//! failure to wait out the delay before either retrying or, when no attempts
//! remain, handing back everything recorded.

use vstd::prelude::*;

verus! {

/// What the driver does after seeing one attempt's outcome.
#[derive(Debug, Clone, Copy, PartialEq, Eq, Structural)]
pub enum RetryStep {
    /// The attempt succeeded: stop at once and return the recorded outcomes.
    Stop,
    /// The attempt failed and attempts remain: wait out the delay, try again.
    SleepAndRetry,
    /// The attempt failed and it was the last one: wait out the delay, then
    /// return the recorded outcomes.
    SleepAndStop,
}

/// The retry policy for the attempt with 0-based index `attempt` out of
/// `max_retries`, given whether it succeeded.
pub fn retry_decision(attempt: u32, max_retries: u32, succeeded: bool) -> (r: RetryStep)
    requires
        attempt < max_retries,
    ensures
        succeeded ==> r == RetryStep::Stop,
        !succeeded && attempt + 1 < max_retries ==> r == RetryStep::SleepAndRetry,
        !succeeded && attempt + 1 == max_retries ==> r == RetryStep::SleepAndStop,
{
    if succeeded {
        RetryStep::Stop
    } else if attempt + 1 < max_retries {
        RetryStep::SleepAndRetry
    } else {
        RetryStep::SleepAndStop
    }
}

} // verus!
