use vstd::prelude::*;
use crate::action::{AppBlockAction, BlockDecision};
use crate::policy::DesktopBlockerSpec;
use crate::text::{ascii_lower_code, eq_ignore_ascii_case, folded, lowercase, text_eq, text_eq_ignore_ascii_case};

verus! {

/// The desktop policy as plain values, read once per evaluation pass.
#[derive(Clone, Copy, Debug)]
pub struct DesktopPolicy {
    pub block_sign_out_buttons: bool,
    pub block_task_manager: bool,
    pub block_terminal: bool,
    pub block_system_settings: bool,
    pub block_installers: bool,
    pub app_block_action: AppBlockAction,
    pub escape_block_action: AppBlockAction,
}

/// What the host observed of the foreground window in one poll.
#[derive(Debug)]
pub struct WindowSnapshot {
    /// Executable name of the owning process, when it could be resolved.
    pub process_name: Option<String>,
    pub title: String,
    /// Executable path of the owning process, when it could be resolved.
    pub path: Option<String>,
    pub visible: bool,
}

/// An operation for the window controller to carry out.
#[derive(Clone, Copy, Debug, PartialEq, Eq, Structural)]
pub enum WindowCommand {
    /// Terminate the process that owns the window.
    Terminate,
    /// Minimize the window.
    Minimize,
}

pub open spec fn text_view(o: Option<String>) -> Option<Seq<char>> {
    match o {
        Some(x) => Some(x@),
        None => None,
    }
}

pub open spec fn is_task_manager_name(n: Seq<char>) -> bool {
    eq_ignore_ascii_case("taskmgr.exe"@, n)
}

pub open spec fn is_installer_name(n: Seq<char>) -> bool {
    eq_ignore_ascii_case("msiexec.exe"@, n)
}

pub open spec fn is_terminal_name(n: Seq<char>) -> bool {
    ||| n == "windowsterminal.exe"@
    ||| n == "powershell.exe"@
    ||| n == "cmd.exe"@
    ||| n == "conhost.exe"@
}

pub open spec fn is_system_settings_name(n: Seq<char>) -> bool {
    ||| n == "systemsettings.exe"@
    ||| n == "regedit.exe"@
    ||| n == "control.exe"@
    ||| n == "mmc.exe"@
    ||| n == "startmenuexperiencehost.exe"@
    ||| n == "csrss.exe"@
}

/// Shell processes that are never blocked.
pub open spec fn is_whitelisted_name(n: Seq<char>) -> bool {
    ||| n == "lockapp.exe"@
    ||| n == "shellhostexperience.exe"@
    ||| n == "mmtoastnotifier.exe"@
    ||| n == "explorer.exe"@
    ||| n == "searchhost.exe"@
    ||| n == "windowsinternal.composableshell.experiences.textinput.inputapp.exe"@
}

/// An untitled window of the shell: its context menu, which offers sign-out.
pub open spec fn is_context_menu(n: Seq<char>, title: Seq<char>) -> bool {
    n == "explorer.exe"@ && title.len() == 0
}

/// Rules one to six, in order: the decision they reach, or `None` when none applies.
pub open spec fn escape_rule(p: DesktopPolicy, n: Seq<char>, title: Seq<char>) -> Option<BlockDecision> {
    if p.block_sign_out_buttons && is_context_menu(n, title) {
        Some(BlockDecision::Act(AppBlockAction::Close))
    } else if is_whitelisted_name(n) {
        Some(BlockDecision::NoAction)
    } else if p.block_task_manager && is_task_manager_name(n) {
        Some(BlockDecision::Act(p.escape_block_action))
    } else if p.block_terminal && is_terminal_name(n) {
        Some(BlockDecision::Act(p.escape_block_action))
    } else if p.block_system_settings && is_system_settings_name(n) {
        Some(BlockDecision::Act(p.escape_block_action))
    } else if p.block_installers && is_installer_name(n) {
        Some(BlockDecision::Act(p.escape_block_action))
    } else {
        None
    }
}

/// The decision of the desktop engine, where `window_blocked` is what the
/// policy says of the window when the last rule is reached.
pub open spec fn desktop_decision(
    p: DesktopPolicy,
    name: Option<Seq<char>>,
    title: Seq<char>,
    window_blocked: bool,
) -> BlockDecision {
    match name {
        None => BlockDecision::NoAction,
        Some(n) => match escape_rule(p, n, title) {
            Some(d) => d,
            None => if window_blocked {
                BlockDecision::Act(p.app_block_action)
            } else {
                BlockDecision::NoAction
            },
        },
    }
}

fn is_illegal_context_menu(process_name: &str, title: &str) -> (r: bool)
    ensures
        r == is_context_menu(process_name@, title@),
{
    text_eq(process_name, "explorer.exe") && title.unicode_len() == 0
}

fn is_task_manager(process_name: &str) -> (r: bool)
    ensures
        r == is_task_manager_name(process_name@),
{
    text_eq_ignore_ascii_case("taskmgr.exe", process_name)
}

fn is_installer(process_name: &str) -> (r: bool)
    ensures
        r == is_installer_name(process_name@),
{
    text_eq_ignore_ascii_case("msiexec.exe", process_name)
}

fn is_terminal_app(process_name: &str) -> (r: bool)
    ensures
        r == is_terminal_name(process_name@),
{
    text_eq(process_name, "windowsterminal.exe") || text_eq(process_name, "powershell.exe")
        || text_eq(process_name, "cmd.exe") || text_eq(process_name, "conhost.exe")
}

fn is_system_settings_app(process_name: &str) -> (r: bool)
    ensures
        r == is_system_settings_name(process_name@),
{
    text_eq(process_name, "systemsettings.exe") || text_eq(process_name, "regedit.exe")
        || text_eq(process_name, "control.exe") || text_eq(process_name, "mmc.exe")
        || text_eq(process_name, "startmenuexperiencehost.exe") || text_eq(process_name, "csrss.exe")
}

fn is_whitelisted_system_app(process_name: &str) -> (r: bool)
    ensures
        r == is_whitelisted_name(process_name@),
{
    text_eq(process_name, "lockapp.exe") || text_eq(process_name, "shellhostexperience.exe")
        || text_eq(process_name, "mmtoastnotifier.exe") || text_eq(process_name, "explorer.exe")
        || text_eq(process_name, "searchhost.exe")
        || text_eq(process_name, "windowsinternal.composableshell.experiences.textinput.inputapp.exe")
}

/// The command that carries out `action` on a window whose visibility is `visible`.
/// Closing terminates the owning process; minimizing touches only a visible window.
pub fn execute_action(action: AppBlockAction, visible: bool) -> (r: Option<WindowCommand>)
    ensures
        action == AppBlockAction::Close ==> r == Some(WindowCommand::Terminate),
        action == AppBlockAction::MinimizeWindow ==> r == minimize_if_visible_spec(visible),
{
    match action {
        AppBlockAction::Close => Some(WindowCommand::Terminate),
        AppBlockAction::MinimizeWindow => minimize_if_visible(visible),
    }
}

pub open spec fn minimize_if_visible_spec(visible: bool) -> Option<WindowCommand> {
    if visible {
        Some(WindowCommand::Minimize)
    } else {
        None
    }
}

/// Minimizes a window only when it is visible; a hidden window is left alone.
pub fn minimize_if_visible(visible: bool) -> (r: Option<WindowCommand>)
    ensures
        r == minimize_if_visible_spec(visible),
        !visible ==> r is None,
{
    if visible {
        Some(WindowCommand::Minimize)
    } else {
        None
    }
}

/// The process that hosts the windows of store applications.
pub open spec fn store_host_name() -> Seq<char> {
    "applicationframehost.exe"@
}

/// The first child, from index `i` on, that is not the store host itself.
pub open spec fn first_hosted(children: Seq<String>, i: int) -> Option<int>
    decreases children.len() - i,
{
    if i < 0 || i >= children.len() {
        None
    } else if folded(children[i]@) != store_host_name() {
        Some(i)
    } else {
        first_hosted(children, i + 1)
    }
}

/// The name under which a window's process is judged: a window of the store
/// host stands for the first of its children's processes that is something
/// else; any other process stands for itself.
pub open spec fn resolved_process_name(exe_name: Seq<char>, children: Seq<String>) -> Seq<char> {
    if eq_ignore_ascii_case(exe_name, store_host_name()) {
        match first_hosted(children, 0) {
            Some(i) => children[i]@,
            None => exe_name,
        }
    } else {
        exe_name
    }
}

/// Resolves the process name of a window from the executable name of its
/// process and, for the store host, the process names of its child windows in
/// enumeration order.
pub fn resolve_process_name(exe_name: &str, children: &Vec<String>) -> (r: String)
    ensures
        r@ == resolved_process_name(exe_name@, children@),
{
    if !text_eq_ignore_ascii_case(exe_name, "applicationframehost.exe") {
        return exe_name.to_owned();
    }
    let mut i: usize = 0;
    while i < children.len()
        invariant
            i <= children@.len(),
            eq_ignore_ascii_case(exe_name@, store_host_name()),
            first_hosted(children@, 0) == first_hosted(children@, i as int),
        decreases children@.len() - i,
    {
        let lowered = lowercase(children[i].as_str());
        if !text_eq(lowered.as_str(), "applicationframehost.exe") {
            assert(first_hosted(children@, i as int) == Some(i as int));
            return children[i].clone();
        }
        i = i + 1;
    }
    exe_name.to_owned()
}

/// `value` without its trailing NUL characters.
pub fn trim_null_char(value: &str) -> (r: &str)
    ensures
        r@ == value@.subrange(0, r@.len() as int),
        forall|i: int| r@.len() <= i < value@.len() ==> value@[i] == '\0',
        r@.len() == 0 || r@.last() != '\0',
{
    let n = value.unicode_len();
    let mut k: usize = n;
    while k > 0
        invariant
            k <= n == value@.len(),
            forall|i: int| k <= i < n ==> value@[i] == '\0',
        ensures
            k <= n,
            forall|i: int| k <= i < n ==> value@[i] == '\0',
            k == 0 || value@[k - 1] != '\0',
        decreases k,
    {
        if value.get_char(k - 1) != '\0' {
            break;
        }
        k = k - 1;
    }
    value.substring_char(0, k)
}

#[derive(Debug)]
pub struct WindowsBlocker;

impl WindowsBlocker {
    /// Rules one to six of the desktop engine, in order.
    pub fn escape_decision(policy: &DesktopPolicy, process_name: &str, title: &str) -> (r: Option<BlockDecision>)
        ensures
            r == escape_rule(*policy, process_name@, title@),
    {
        if policy.block_sign_out_buttons && is_illegal_context_menu(process_name, title) {
            return Some(BlockDecision::Act(AppBlockAction::Close));
        }
        if is_whitelisted_system_app(process_name) {
            return Some(BlockDecision::NoAction);
        }
        if policy.block_task_manager && is_task_manager(process_name) {
            return Some(BlockDecision::Act(policy.escape_block_action));
        }
        if policy.block_terminal && is_terminal_app(process_name) {
            return Some(BlockDecision::Act(policy.escape_block_action));
        }
        if policy.block_system_settings && is_system_settings_app(process_name) {
            return Some(BlockDecision::Act(policy.escape_block_action));
        }
        if policy.block_installers && is_installer(process_name) {
            return Some(BlockDecision::Act(policy.escape_block_action));
        }
        None
    }

    /// Reads the toggles and actions of a policy.
    fn read_policy<S: DesktopBlockerSpec>(spec: &S) -> (r: DesktopPolicy) {
        DesktopPolicy {
            block_sign_out_buttons: spec.should_block_sign_out_buttons(),
            block_task_manager: spec.should_block_task_manager(),
            block_terminal: spec.should_block_terminal(),
            block_system_settings: spec.should_block_system_settings(),
            block_installers: spec.should_block_installers(),
            app_block_action: spec.app_block_action(),
            escape_block_action: spec.escape_block_action(),
        }
    }

    /// One pass of the desktop engine on the foreground window. The policy's
    /// window rule is consulted only when rules one to six do not decide.
    pub fn perform_block<S: DesktopBlockerSpec>(spec: &S, snapshot: &WindowSnapshot) -> (r: BlockDecision)
        ensures
            exists|p: DesktopPolicy, b: bool|
                r == desktop_decision(p, text_view(snapshot.process_name), snapshot.title@, b),
            snapshot.process_name is None ==> r == BlockDecision::NoAction,
            snapshot.process_name matches Some(n) && is_whitelisted_name(n@) && !is_context_menu(n@, snapshot.title@)
                ==> r == BlockDecision::NoAction,
    {
        let name = match &snapshot.process_name {
            None => return BlockDecision::NoAction,
            Some(name) => name,
        };
        let policy = Self::read_policy(spec);
        let ghost mut consulted = false;
        let r = match Self::escape_decision(&policy, name.as_str(), snapshot.title.as_str()) {
            Some(d) => d,
            None => {
                let path = match &snapshot.path {
                    Some(x) => Some(x.as_str()),
                    None => None,
                };
                let blocked = spec.should_block_window(name.as_str(), snapshot.title.as_str(), path);
                proof {
                    consulted = blocked;
                }
                Self::window_rule(&policy, blocked)
            },
        };
        proof {
            assert(r == desktop_decision(policy, text_view(snapshot.process_name), snapshot.title@, consulted));
            if is_whitelisted_name(name@) && !is_context_menu(name@, snapshot.title@) {
                lemma_whitelist_precedence(policy, name@, snapshot.title@, consulted);
            }
        }
        r
    }

    /// The last rule: the policy's answer about the window decides.
    pub fn window_rule(policy: &DesktopPolicy, window_blocked: bool) -> (r: BlockDecision)
        ensures
            r == (if window_blocked {
                BlockDecision::Act(policy.app_block_action)
            } else {
                BlockDecision::NoAction
            }),
    {
        if window_blocked {
            BlockDecision::Act(policy.app_block_action)
        } else {
            BlockDecision::NoAction
        }
    }

    /// The desktop engine on plain values: `window_blocked` is what the policy
    /// says of the window, consulted only when no earlier rule applies.
    pub fn evaluate(policy: &DesktopPolicy, snapshot: &WindowSnapshot, window_blocked: bool) -> (r: BlockDecision)
        ensures
            r == desktop_decision(*policy, text_view(snapshot.process_name), snapshot.title@, window_blocked),
    {
        match &snapshot.process_name {
            None => BlockDecision::NoAction,
            Some(name) => match Self::escape_decision(policy, name.as_str(), snapshot.title.as_str()) {
                Some(d) => d,
                None => Self::window_rule(policy, window_blocked),
            },
        }
    }
}

/// A whitelisted process never meets an action, whatever the policy enables,
/// unless it is the shell's untitled context menu and sign-out is blocked.
pub proof fn lemma_whitelist_precedence(p: DesktopPolicy, n: Seq<char>, title: Seq<char>, window_blocked: bool)
    requires
        is_whitelisted_name(n),
        !(p.block_sign_out_buttons && is_context_menu(n, title)),
    ensures
        desktop_decision(p, Some(n), title, window_blocked) == BlockDecision::NoAction,
{
}

/// The task manager is not a whitelisted process.
proof fn lemma_task_manager_not_whitelisted(n: Seq<char>)
    requires
        is_task_manager_name(n),
    ensures
        !is_whitelisted_name(n),
        !is_context_menu(n, Seq::empty()),
{
    reveal_strlit("taskmgr.exe");
    reveal_strlit("lockapp.exe");
    reveal_strlit("shellhostexperience.exe");
    reveal_strlit("mmtoastnotifier.exe");
    reveal_strlit("explorer.exe");
    reveal_strlit("searchhost.exe");
    reveal_strlit("windowsinternal.composableshell.experiences.textinput.inputapp.exe");
    assert(ascii_lower_code("taskmgr.exe"@[0]) == ascii_lower_code(n[0]));
}

/// When the task manager is blocked and the process is the task manager, the
/// escape action is taken: the policy's window rule is never reached, whatever
/// it would say.
pub proof fn lemma_task_manager_precedes_window_rule(
    p: DesktopPolicy,
    n: Seq<char>,
    title: Seq<char>,
    window_blocked: bool,
)
    requires
        p.block_task_manager,
        is_task_manager_name(n),
    ensures
        escape_rule(p, n, title) == Some(BlockDecision::Act(p.escape_block_action)),
        desktop_decision(p, Some(n), title, window_blocked) == BlockDecision::Act(p.escape_block_action),
{
    lemma_task_manager_not_whitelisted(n);
}

} // verus!
