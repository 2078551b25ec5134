use vstd::prelude::*;
use crate::action::AppBlockAction;

verus! {

/// A blocking policy: which system surfaces are restricted and what to do with
/// what the policy blocks. Hosts implement it; the engines only consult it.
pub trait BlockerSpec {
    /// The action applied to an application that the policy blocks.
    fn app_block_action(&self) -> AppBlockAction;

    /// The action applied when the user reaches a protected system surface.
    fn escape_block_action(&self) -> AppBlockAction;

    /// Whether the task manager (or activity monitor) is blocked.
    fn should_block_task_manager(&self) -> bool;

    /// Whether terminal applications are blocked.
    fn should_block_terminal(&self) -> bool;

    /// Whether system settings are blocked.
    fn should_block_system_settings(&self) -> bool;
}

/// The capabilities that a policy offers on a windowed desktop system.
pub trait DesktopBlockerSpec: BlockerSpec {
    /// Whether the window of `process_name`, titled `title`, whose executable
    /// lives at `path` (when known), is blocked.
    fn should_block_window(&self, process_name: &str, title: &str, path: Option<&str>) -> bool;

    /// Whether the shell's sign-out context menu is blocked.
    fn should_block_sign_out_buttons(&self) -> bool;

    /// Whether the generic installer is blocked.
    fn should_block_installers(&self) -> bool;
}

/// The capabilities that a policy offers on a system with one frontmost application.
pub trait FrontmostAppBlockerSpec: BlockerSpec {
    /// Whether the application with this bundle identifier is blocked.
    fn should_block_bundle_id(&self, bundle_id: &str) -> bool;
}

} // verus!
