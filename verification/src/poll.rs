//! Polling decisions: when to return, give up, or wait and probe again, and
//! how long the next wait is.
//!
//! Durations are counted in nanoseconds.

use vstd::prelude::*;

verus! {

/// The longest duration there is (`Duration::MAX`), in nanoseconds.
pub const DURATION_MAX_NANOS: u128 = 18446744073709551615999999999;

/// The wait after one of `delay`: twice as long (saturating at the longest
/// duration), but no longer than `max_delay`.
pub open spec fn backoff(delay: int, max_delay: int) -> int {
    let doubled = if 2 * delay > DURATION_MAX_NANOS { DURATION_MAX_NANOS as int } else { 2 * delay };
    if doubled <= max_delay { doubled } else { max_delay }
}

/// The wait that follows a wait of `delay` nanoseconds.
pub fn next_delay(delay: u128, max_delay: u128) -> (r: u128)
    requires
        delay <= DURATION_MAX_NANOS,
        max_delay <= DURATION_MAX_NANOS,
    ensures
        r == backoff(delay as int, max_delay as int),
{
    let doubled = if delay > DURATION_MAX_NANOS / 2 { DURATION_MAX_NANOS } else { 2 * delay };
    if doubled <= max_delay {
        doubled
    } else {
        max_delay
    }
}

/// Waits never grow past `max_delay`, and never shrink while below it.
pub proof fn lemma_backoff_bounded(delay: int, max_delay: int)
    requires
        0 <= delay <= DURATION_MAX_NANOS,
        0 <= max_delay <= DURATION_MAX_NANOS,
    ensures
        backoff(delay, max_delay) <= max_delay,
        delay <= max_delay ==> delay <= backoff(delay, max_delay),
{
}

/// Each wait doubles the one before while that stays within `max_delay`;
/// past it, the wait is `max_delay`.
pub proof fn lemma_backoff_doubles(delay: int, max_delay: int)
    requires
        0 <= delay <= DURATION_MAX_NANOS,
        0 <= max_delay <= DURATION_MAX_NANOS,
    ensures
        2 * delay <= max_delay ==> backoff(delay, max_delay) == 2 * delay,
        2 * delay > max_delay ==> backoff(delay, max_delay) == max_delay,
{
}

/// What a polling loop does after one probe.
#[derive(Clone, Copy, Debug, PartialEq, Eq, Structural)]
pub enum PollAction {
    /// Stop and hand back what the probe returned.
    Return,
    /// Stop with a timeout error.
    TimedOut,
    /// Sleep for the current delay, then probe again.
    Sleep,
}

/// After a probe of a state that becomes true once (an article turning
/// public, an upload finishing): stop once it holds, give up once the time
/// budget is spent, else wait.
pub open spec fn poll_until(ready: bool, budget_spent: bool) -> PollAction {
    if ready {
        PollAction::Return
    } else if budget_spent {
        PollAction::TimedOut
    } else {
        PollAction::Sleep
    }
}

/// Decides what follows a probe that checks for a state.
pub fn after_state_probe(ready: bool, budget_spent: bool) -> (r: PollAction)
    ensures
        r == poll_until(ready, budget_spent),
{
    if ready {
        PollAction::Return
    } else if budget_spent {
        PollAction::TimedOut
    } else {
        PollAction::Sleep
    }
}

/// A probe that finds the awaited state ends the poll with its result,
/// whatever the time budget; the poll times out only when the state is not
/// there and the budget is spent, and otherwise waits and probes again.
pub proof fn lemma_ready_state_always_returns(ready: bool, budget_spent: bool)
    ensures
        ready ==> poll_until(ready, budget_spent) == PollAction::Return,
        poll_until(ready, budget_spent) == PollAction::TimedOut <==> !ready && budget_spent,
        poll_until(ready, budget_spent) == PollAction::Sleep <==> !ready && !budget_spent,
{
}

/// How a fetch that waits for a resource to appear ended.
#[derive(Clone, Copy, Debug, PartialEq, Eq, Structural)]
pub enum FetchOutcome {
    /// The resource came back.
    Found,
    /// The service answered HTTP 404.
    NotFound,
    /// Any other failure.
    Failed,
}

/// After fetching a resource that may not exist yet: a found resource or a
/// failure other than 404 ends the loop; a 404 leads to another wait while
/// time is left, and ends it otherwise with the 404 error.
pub open spec fn poll_for_resource(outcome: FetchOutcome, budget_spent: bool) -> PollAction {
    match outcome {
        FetchOutcome::Found => PollAction::Return,
        FetchOutcome::Failed => PollAction::Return,
        FetchOutcome::NotFound => if budget_spent {
            PollAction::Return
        } else {
            PollAction::Sleep
        },
    }
}

/// A found resource and any failure other than 404 end the wait at once,
/// whatever the budget; only a 404 with time left leads to another wait, and
/// the wait never ends in a timeout of its own.
pub proof fn lemma_resource_wait_ends(outcome: FetchOutcome, budget_spent: bool)
    ensures
        outcome != FetchOutcome::NotFound ==> poll_for_resource(outcome, budget_spent) == PollAction::Return,
        poll_for_resource(outcome, budget_spent) == PollAction::Sleep <==> outcome == FetchOutcome::NotFound
            && !budget_spent,
        poll_for_resource(outcome, budget_spent) != PollAction::TimedOut,
{
}

/// Decides what follows a fetch of a resource that may not exist yet.
pub fn after_resource_fetch(outcome: FetchOutcome, budget_spent: bool) -> (r: PollAction)
    ensures
        r == poll_for_resource(outcome, budget_spent),
{
    match outcome {
        FetchOutcome::Found => PollAction::Return,
        FetchOutcome::Failed => PollAction::Return,
        FetchOutcome::NotFound => if budget_spent {
            PollAction::Return
        } else {
            PollAction::Sleep
        },
    }
}

} // verus!
