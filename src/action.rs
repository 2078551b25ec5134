use vstd::prelude::*;

verus! {

/// The effect applied to a target that a policy blocks.
#[derive(Clone, Copy, Debug, PartialEq, Eq, Structural)]
pub enum AppBlockAction {
    /// Terminate the process behind the target.
    Close,
    /// Minimize (or hide) the target, leaving the process running.
    MinimizeWindow,
}

/// The outcome of one evaluation pass of the desktop engine.
#[derive(Clone, Copy, Debug, PartialEq, Eq, Structural)]
pub enum BlockDecision {
    NoAction,
    /// Apply the action to the snapshot's window.
    Act(AppBlockAction),
}

} // verus!
