use vstd::prelude::*;
use crate::action::BlockDecision;
use crate::policy::BlockerSpec;

verus! {

/// Blocking is not enforced on Linux: every pass decides to do nothing.
#[derive(Debug)]
pub struct LinuxBlocker;

impl LinuxBlocker {
    pub fn perform_block<S: BlockerSpec>(spec: &S) -> (r: BlockDecision)
        ensures
            r == BlockDecision::NoAction,
    {
        BlockDecision::NoAction
    }
}

} // verus!
