//! The decisions of the readiness poll for the analysis backend: after each
//! connection attempt, whether to stop or wait, and for how long.
use vstd::prelude::*;

verus! {

/// The longest wait between two attempts, in milliseconds.
pub const MAX_DELAY_MS: u64 = 5000;

/// What to do after a connection attempt.
#[derive(Debug, Clone, Copy, PartialEq, Eq, Structural)]
pub enum ProbeAction {
    /// The backend answered: it is ready.
    Ready,
    /// Wait this many milliseconds, then try again.
    Wait(u64),
    /// The last attempt failed: give up.
    GiveUp,
}

/// The wait after `delay`: twice as long, but never over the cap.
pub open spec fn doubled_capped(delay: int) -> int {
    if 2 * delay < MAX_DELAY_MS as int { 2 * delay } else { MAX_DELAY_MS as int }
}

/// The wait that follows a wait of `delay` milliseconds.
pub fn next_delay(delay: u64) -> (r: u64)
    ensures
        r as int == doubled_capped(delay as int),
{
    if delay >= MAX_DELAY_MS / 2 {
        MAX_DELAY_MS
    } else {
        delay * 2
    }
}

/// The decision after attempt number `attempt` (counted from one) of
/// `max_attempts`, which did or did not connect, with `delay` the current wait.
pub fn after_attempt(attempt: u32, max_attempts: u32, connected: bool, delay: u64) -> (r: ProbeAction)
    ensures
        connected ==> r == ProbeAction::Ready,
        !connected && attempt < max_attempts ==> r == ProbeAction::Wait(delay),
        !connected && attempt >= max_attempts ==> r == ProbeAction::GiveUp,
{
    if connected {
        ProbeAction::Ready
    } else if attempt < max_attempts {
        ProbeAction::Wait(delay)
    } else {
        ProbeAction::GiveUp
    }
}

/// The waits never exceed the cap once they are at or under it.
pub proof fn lemma_delay_stays_capped(delay: int)
    requires
        0 <= delay <= MAX_DELAY_MS as int,
    ensures
        0 <= doubled_capped(delay) <= MAX_DELAY_MS as int,
        delay <= doubled_capped(delay),
{
}

} // verus!
