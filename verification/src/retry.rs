//! Bounded retries with a fixed delay, as used when the node connects to
//! its container runtime and when an image is pulled outside a slot.

use vstd::prelude::*;

verus! {

/// How often the node tries to reach its container runtime at startup.
pub const CONNECT_ATTEMPTS: u32 = 5;

/// Milliseconds between two attempts.
pub const RETRY_DELAY_MS: u64 = 5000;

/// What follows an attempt.
#[derive(Debug, Clone, Copy, PartialEq, Eq, Structural)]
pub enum RetryStep {
    /// The attempt succeeded.
    Done,
    /// Wait, then try again.
    RetryAfter { millis: u64 },
    /// The last attempt has failed; its error is the result.
    GiveUp,
}

/// What follows attempt number `attempt` (counted from one) of at most
/// `max_attempts`.
pub open spec fn next_step(attempt: u32, max_attempts: u32, succeeded: bool) -> RetryStep {
    if succeeded {
        RetryStep::Done
    } else if attempt < max_attempts {
        RetryStep::RetryAfter { millis: RETRY_DELAY_MS }
    } else {
        RetryStep::GiveUp
    }
}

/// Decides what follows an attempt.
pub fn after_attempt(attempt: u32, max_attempts: u32, succeeded: bool) -> (r: RetryStep)
    ensures
        r == next_step(attempt, max_attempts, succeeded),
{
    if succeeded {
        RetryStep::Done
    } else if attempt < max_attempts {
        RetryStep::RetryAfter { millis: RETRY_DELAY_MS }
    } else {
        RetryStep::GiveUp
    }
}

/// Decides what follows an attempt to reach the container runtime: the
/// node gives up, for good, after the fifth.
pub fn after_connect_attempt(attempt: u32, connected: bool) -> (r: RetryStep)
    ensures
        r == next_step(attempt, CONNECT_ATTEMPTS, connected),
{
    after_attempt(attempt, CONNECT_ATTEMPTS, connected)
}

/// Whether anything is tried at all: with no attempt allowed the work
/// fails before it begins.
pub fn may_begin(max_attempts: u32) -> (r: bool)
    ensures
        r == (max_attempts >= 1),
{
    max_attempts >= 1
}

/// The number of attempts made is bounded: once `max_attempts` attempts
/// have been made, a failure ends the work.
pub proof fn law_retries_bounded(attempt: u32, max_attempts: u32)
    requires
        attempt >= max_attempts,
    ensures
        next_step(attempt, max_attempts, false) == RetryStep::GiveUp,
        next_step(attempt, max_attempts, true) == RetryStep::Done,
{
}

} // verus!
