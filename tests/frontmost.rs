use app_blocker::action::AppBlockAction;
use app_blocker::macos::{
    close_activity_monitor, close_running, close_system_settings, close_terminal, FrontmostPolicy, MacosBlocker, MacosDecision,
    SystemApp,
};
use app_blocker::policy::{BlockerSpec, FrontmostAppBlockerSpec};

struct Policy {
    terminal: bool,
    task_manager: bool,
    settings: bool,
    action: AppBlockAction,
}

impl BlockerSpec for Policy {
    fn app_block_action(&self) -> AppBlockAction {
        self.action
    }
    fn escape_block_action(&self) -> AppBlockAction {
        AppBlockAction::Close
    }
    fn should_block_task_manager(&self) -> bool {
        self.task_manager
    }
    fn should_block_terminal(&self) -> bool {
        self.terminal
    }
    fn should_block_system_settings(&self) -> bool {
        self.settings
    }
}

impl FrontmostAppBlockerSpec for Policy {
    fn should_block_bundle_id(&self, bundle_id: &str) -> bool {
        bundle_id == "com.example.game"
    }
}

#[test]
fn blocked_frontmost_app_is_terminated_once() {
    let policy = Policy { terminal: false, task_manager: false, settings: false, action: AppBlockAction::Close };
    let r = MacosBlocker::perform_block(&policy, Some("com.example.game"));
    assert_eq!(r, vec![MacosDecision::Frontmost(AppBlockAction::Close)]);
    let terminations = r.iter().filter(|d| **d == MacosDecision::Frontmost(AppBlockAction::Close)).count();
    assert_eq!(terminations, 1);
}

#[test]
fn independent_checks_all_fire() {
    let policy = Policy { terminal: true, task_manager: true, settings: true, action: AppBlockAction::MinimizeWindow };
    let r = MacosBlocker::perform_block(&policy, Some("com.example.game"));
    assert_eq!(
        r,
        vec![
            MacosDecision::Frontmost(AppBlockAction::MinimizeWindow),
            MacosDecision::CloseRunning(SystemApp::Terminal),
            MacosDecision::CloseRunning(SystemApp::ActivityMonitor),
            MacosDecision::CloseRunning(SystemApp::SystemSettings),
        ]
    );
    let r = MacosBlocker::perform_block(&policy, Some("com.example.editor"));
    assert_eq!(r.len(), 3);
    let r = MacosBlocker::perform_block(&policy, None);
    assert_eq!(r.len(), 3);
}

#[test]
fn frontmost_evaluate_on_plain_values() {
    let policy = FrontmostPolicy {
        app_block_action: AppBlockAction::Close,
        block_terminal: false,
        block_task_manager: true,
        block_system_settings: false,
    };
    assert_eq!(MacosBlocker::evaluate(&policy, false), vec![MacosDecision::CloseRunning(SystemApp::ActivityMonitor)]);
}

#[test]
fn close_requests_name_their_application() {
    assert_eq!(close_terminal(), MacosDecision::CloseRunning(SystemApp::Terminal));
    assert_eq!(close_activity_monitor(), MacosDecision::CloseRunning(SystemApp::ActivityMonitor));
    assert_eq!(close_system_settings(), MacosDecision::CloseRunning(SystemApp::SystemSettings));
    assert_eq!(SystemApp::Terminal.process_name(), "Terminal");
    assert_eq!(SystemApp::ActivityMonitor.process_name(), "Activity Monitor");
    assert_eq!(SystemApp::SystemSettings.process_name(), "System Settings");
}

#[test]
fn close_running_targets_only_running_processes() {
    assert_eq!(close_running("Terminal", true), Some("Terminal"));
    assert_eq!(close_running("Terminal", false), None);
}
