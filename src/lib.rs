use vstd::prelude::*;

pub mod action;
pub mod linux;
pub mod macos;
pub mod plist;
pub mod policy;
pub mod text;
pub mod windows;

use crate::action::BlockDecision;
use crate::policy::DesktopBlockerSpec;
use crate::windows::{desktop_decision, is_context_menu, is_whitelisted_name, text_view, DesktopPolicy, WindowSnapshot, WindowsBlocker};

verus! {

/// One pass of the desktop engine on the foreground window.
pub fn perform_block<S: DesktopBlockerSpec>(spec: &S, snapshot: &WindowSnapshot) -> (r: BlockDecision)
    ensures
        exists|p: DesktopPolicy, b: bool|
            r == desktop_decision(p, text_view(snapshot.process_name), snapshot.title@, b),
        snapshot.process_name is None ==> r == BlockDecision::NoAction,
        snapshot.process_name matches Some(n) && is_whitelisted_name(n@) && !is_context_menu(n@, snapshot.title@)
            ==> r == BlockDecision::NoAction,
{
    WindowsBlocker::perform_block(spec, snapshot)
}

} // verus!
