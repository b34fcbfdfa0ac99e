//! Waiting for a condition with a limit on the time.
//!
//! The wait itself sleeps and reads the clock, which is done outside this
//! crate. What to do after each look at the condition is decided here.

use vstd::prelude::*;

verus! {

/// Why a wait ended without its condition.
#[derive(Debug, Clone, Copy, PartialEq, Eq, Structural)]
pub enum WaitError {
    /// The condition did not come to hold in the time allowed.
    Timeout,
}

/// How long a wait sleeps between two looks at its condition, in
/// milliseconds.
pub const POLL_INTERVAL_MS: u64 = 1;

/// What a wait does after a look at its condition.
#[derive(Debug, Clone, Copy, PartialEq, Eq, Structural)]
pub enum WaitStep {
    /// The condition holds: the wait ends well.
    Done,
    /// The time is up, or the clock cannot be read: the wait ends with a
    /// timeout.
    TimedOut,
    /// The wait sleeps for `POLL_INTERVAL_MS` and looks again.
    Sleep,
}

/// What a wait does after a look at its condition: `satisfied` says
/// whether the condition holds, `waited` how long the wait has lasted in
/// nanoseconds, if the clock could tell, and `max_wait` how long it may
/// last.
pub open spec fn spec_wait_step(satisfied: bool, waited: Option<u128>, max_wait: u128) -> WaitStep {
    if satisfied {
        WaitStep::Done
    } else {
        match waited {
            Some(t) => if t > max_wait {
                WaitStep::TimedOut
            } else {
                WaitStep::Sleep
            },
            None => WaitStep::TimedOut,
        }
    }
}

/// Decides what a wait does after a look at its condition. A condition
/// that holds ends the wait, however long it took; one that does not lets
/// the wait go on until more than `max_wait` has passed.
#[verifier::when_used_as_spec(spec_wait_step)]
pub fn wait_step(satisfied: bool, waited: Option<u128>, max_wait: u128) -> (step: WaitStep)
    ensures
        step == spec_wait_step(satisfied, waited, max_wait),
{
    if satisfied {
        return WaitStep::Done;
    }
    match waited {
        Some(t) => {
            if t > max_wait {
                WaitStep::TimedOut
            } else {
                WaitStep::Sleep
            }
        },
        None => WaitStep::TimedOut,
    }
}

/// What a wait that has ended returns.
pub fn wait_result(step: WaitStep) -> (r: Result<(), WaitError>)
    requires
        step != WaitStep::Sleep,
    ensures
        step == WaitStep::Done ==> r is Ok,
        step == WaitStep::TimedOut ==> r == Err::<(), WaitError>(WaitError::Timeout),
{
    match step {
        WaitStep::Done => Ok(()),
        _ => Err(WaitError::Timeout),
    }
}

} // verus!
