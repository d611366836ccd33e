use vstd::prelude::*;

verus! {

/// Where a worker stands in its cycle.
#[derive(Clone, Copy, Debug, PartialEq, Eq, Structural)]
pub enum RunState {
    /// The worker may not proceed until it is enabled again.
    Paused,
    /// The worker proceeds with its work without delay.
    Running,
    /// The worker waits for its sleep duration before proceeding.
    Sleeping,
}

/// The transition of the run-state machine, evaluated once per advance.
pub open spec fn next_run_state(current: RunState, paused: bool, has_sleep_duration: bool) -> RunState {
    match current {
        RunState::Running => if paused {
            RunState::Paused
        } else if has_sleep_duration {
            RunState::Sleeping
        } else {
            RunState::Running
        },
        RunState::Paused | RunState::Sleeping => if paused {
            RunState::Paused
        } else {
            RunState::Running
        },
    }
}

/// Computes the state that follows `current` given the pause flag and
/// whether a sleep duration is configured.
pub fn next_state(current: RunState, paused: bool, has_sleep_duration: bool) -> (r: RunState)
    ensures
        r == next_run_state(current, paused, has_sleep_duration),
{
    match current {
        RunState::Running => {
            if paused {
                RunState::Paused
            } else if has_sleep_duration {
                RunState::Sleeping
            } else {
                RunState::Running
            }
        },
        RunState::Paused | RunState::Sleeping => {
            if paused {
                RunState::Paused
            } else {
                RunState::Running
            }
        },
    }
}

/// Every row of the transition table: a paused worker always ends up
/// `Paused`; an unpaused one ends up `Sleeping` only when it was `Running`
/// with a sleep duration configured, and `Running` otherwise.
pub proof fn lemma_transition_table(current: RunState, paused: bool, has_sleep_duration: bool)
    ensures
        paused ==> next_run_state(current, paused, has_sleep_duration) == RunState::Paused,
        !paused && current == RunState::Running && has_sleep_duration
            ==> next_run_state(current, paused, has_sleep_duration) == RunState::Sleeping,
        !paused && !(current == RunState::Running && has_sleep_duration)
            ==> next_run_state(current, paused, has_sleep_duration) == RunState::Running,
{
}

} // verus!
