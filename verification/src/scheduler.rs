//! The frame scheduler's control state: the loop either keeps running or
//! terminates, and it terminates exactly on a quit request or on loss.

use vstd::prelude::*;

verus! {

/// The two control states of the fixed-rate frame loop.
#[derive(Clone, Copy, Debug, PartialEq, Eq, Structural)]
pub enum LoopState {
    Running,
    Terminated,
}

/// The scheduler's transition for one completed tick: the loop terminates on
/// a quit request or when the evaluator reports loss, and keeps running
/// otherwise.
pub fn next_state(quit_requested: bool, alive: bool) -> (s: LoopState)
    ensures
        s == (if quit_requested || !alive {
            LoopState::Terminated
        } else {
            LoopState::Running
        }),
{
    if quit_requested || !alive {
        LoopState::Terminated
    } else {
        LoopState::Running
    }
}

} // verus!
