use vstd::prelude::*;
use crate::action::AppBlockAction;
use crate::policy::FrontmostAppBlockerSpec;

verus! {

/// System applications that a policy can close by name.
#[derive(Clone, Copy, Debug, PartialEq, Eq, Structural)]
pub enum SystemApp {
    Terminal,
    ActivityMonitor,
    SystemSettings,
}

impl SystemApp {
    pub open spec fn spec_process_name(self) -> Seq<char> {
        match self {
            SystemApp::Terminal => "Terminal"@,
            SystemApp::ActivityMonitor => "Activity Monitor"@,
            SystemApp::SystemSettings => "System Settings"@,
        }
    }

    /// The process name under which the application runs.
    pub fn process_name(&self) -> (r: &'static str)
        ensures
            r@ == self.spec_process_name(),
    {
        match self {
            SystemApp::Terminal => "Terminal",
            SystemApp::ActivityMonitor => "Activity Monitor",
            SystemApp::SystemSettings => "System Settings",
        }
    }
}

/// One effect of an evaluation pass on a system with one frontmost application.
#[derive(Clone, Copy, Debug, PartialEq, Eq, Structural)]
pub enum MacosDecision {
    /// Apply the action to the frontmost application: closing terminates it,
    /// minimizing hides it.
    Frontmost(AppBlockAction),
    /// Terminate the application if it is running; do nothing otherwise.
    CloseRunning(SystemApp),
}

/// The policy as plain values, read once per evaluation pass.
#[derive(Clone, Copy, Debug)]
pub struct FrontmostPolicy {
    pub app_block_action: AppBlockAction,
    pub block_terminal: bool,
    pub block_task_manager: bool,
    pub block_system_settings: bool,
}

/// The effects of one pass, in order: the frontmost application (when the policy
/// blocks it), then the terminal, the activity monitor and the system settings,
/// each when its toggle is on. The checks are independent of one another.
pub open spec fn frontmost_plan(p: FrontmostPolicy, frontmost_blocked: bool) -> Seq<MacosDecision> {
    (if frontmost_blocked { seq![MacosDecision::Frontmost(p.app_block_action)] } else { seq![] })
        + (if p.block_terminal { seq![MacosDecision::CloseRunning(SystemApp::Terminal)] } else { seq![] })
        + (if p.block_task_manager { seq![MacosDecision::CloseRunning(SystemApp::ActivityMonitor)] } else { seq![] })
        + (if p.block_system_settings { seq![MacosDecision::CloseRunning(SystemApp::SystemSettings)] } else { seq![] })
}

/// The request to close the system settings when they run.
pub fn close_system_settings() -> (r: MacosDecision)
    ensures
        r == MacosDecision::CloseRunning(SystemApp::SystemSettings),
{
    MacosDecision::CloseRunning(SystemApp::SystemSettings)
}

/// The request to close the terminal when it runs.
pub fn close_terminal() -> (r: MacosDecision)
    ensures
        r == MacosDecision::CloseRunning(SystemApp::Terminal),
{
    MacosDecision::CloseRunning(SystemApp::Terminal)
}

/// The request to close the activity monitor when it runs.
pub fn close_activity_monitor() -> (r: MacosDecision)
    ensures
        r == MacosDecision::CloseRunning(SystemApp::ActivityMonitor),
{
    MacosDecision::CloseRunning(SystemApp::ActivityMonitor)
}

/// The process to terminate for a by-name close: the named one when it runs,
/// none otherwise. The result also tells whether a close took place.
pub fn close_running<'a>(name: &'a str, running: bool) -> (r: Option<&'a str>)
    ensures
        running ==> r == Some(name),
        !running ==> r is None,
{
    if running {
        Some(name)
    } else {
        None
    }
}

#[derive(Debug)]
pub struct MacosBlocker;

impl MacosBlocker {
    /// Reads the toggles and the action of a policy.
    fn read_policy<S: FrontmostAppBlockerSpec>(spec: &S) -> (r: FrontmostPolicy) {
        FrontmostPolicy {
            app_block_action: spec.app_block_action(),
            block_terminal: spec.should_block_terminal(),
            block_task_manager: spec.should_block_task_manager(),
            block_system_settings: spec.should_block_system_settings(),
        }
    }

    /// The engine on plain values: `frontmost_blocked` is whether the policy
    /// blocks the frontmost application (false when there is none, or when its
    /// bundle identifier could not be resolved).
    pub fn evaluate(policy: &FrontmostPolicy, frontmost_blocked: bool) -> (r: Vec<MacosDecision>)
        ensures
            r@ == frontmost_plan(*policy, frontmost_blocked),
    {
        let mut r: Vec<MacosDecision> = Vec::new();
        if frontmost_blocked {
            r.push(MacosDecision::Frontmost(policy.app_block_action));
        }
        if policy.block_terminal {
            r.push(close_terminal());
        }
        if policy.block_task_manager {
            r.push(close_activity_monitor());
        }
        if policy.block_system_settings {
            r.push(close_system_settings());
        }
        assert(r@ =~= frontmost_plan(*policy, frontmost_blocked));
        r
    }

    /// One pass on the frontmost application, identified by its bundle
    /// identifier when that could be resolved. The policy is asked about the
    /// bundle identifier only when there is one.
    pub fn perform_block<S: FrontmostAppBlockerSpec>(spec: &S, frontmost_bundle_id: Option<&str>) -> (r: Vec<MacosDecision>)
        ensures
            exists|p: FrontmostPolicy, b: bool| r@ == frontmost_plan(p, b),
            frontmost_bundle_id is None ==> exists|p: FrontmostPolicy| r@ == frontmost_plan(p, false),
    {
        let policy = Self::read_policy(spec);
        let blocked = match frontmost_bundle_id {
            Some(id) => spec.should_block_bundle_id(id),
            None => false,
        };
        Self::evaluate(&policy, blocked)
    }
}

/// When the policy blocks the frontmost application and closes what it blocks,
/// that application is terminated exactly once in a pass: the first effect, and
/// no other effect concerns it.
pub proof fn lemma_frontmost_terminated_once(p: FrontmostPolicy)
    requires
        p.app_block_action == AppBlockAction::Close,
    ensures
        frontmost_plan(p, true)[0] == MacosDecision::Frontmost(AppBlockAction::Close),
        forall|i: int| 1 <= i < frontmost_plan(p, true).len() ==> (#[trigger] frontmost_plan(p, true)[i]) is CloseRunning,
{
}

} // verus!
