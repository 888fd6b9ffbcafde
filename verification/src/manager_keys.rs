//! What a key press means in the manager outside a form, the questions it
//! asks before acting, and the lines it reports on the history.
use vstd::prelude::*;
use crate::manager_form::{ActivePage, ConfirmAction, ConfirmState};
use crate::manager_install::{pick, pick_text, InstalledInstance};
use crate::manager_service::{service_label, BuildProfile};
use crate::text::{concat2, concat3, push_all};

verus! {

/// A key press as the manager's pages read it.
#[derive(Debug, Clone, Copy, PartialEq, Eq, Structural)]
pub enum MainKey {
    /// `c` with Control and no other modifier.
    CtrlC,
    /// Any other character key, whatever the modifiers.
    Char(char),
    Up,
    Down,
    Left,
    Right,
    Tab,
    BackTab,
    Enter,
    Esc,
    Other,
}

/// What a key press asks the manager to do.
#[derive(Debug, Clone, Copy, PartialEq, Eq, Structural)]
pub enum ManagerCommand {
    Quit,
    PreviousPage,
    NextPage,
    ShowPage(ActivePage),
    /// The key goes to the open dialog.
    ToModal,
    PreviousInstance,
    NextInstance,
    ToggleLanguage,
    CheckUpdates,
    ConfirmUpdate,
    OpenInitialize,
    OpenInstall,
    OpenConfigure,
    StartInstance,
    StopInstance,
    StartAllInstances,
    StopAllInstances,
    ConfirmUninstallSelected,
    RefreshLauncher,
    ConfirmRemoveLauncher,
    ConfirmUninstallAll,
    PreviousService,
    NextService,
    ToggleProfile,
    GenerateConfig,
    Build,
    StartService,
    StopService,
    RestartService,
    StartAllServices,
    StopAllServices,
    Nothing,
}

/// The keys of the page of installed instances.
pub open spec fn spec_installed_command(key: MainKey) -> ManagerCommand {
    match key {
        MainKey::Up | MainKey::Char('k') => ManagerCommand::PreviousInstance,
        MainKey::Down | MainKey::Char('j') => ManagerCommand::NextInstance,
        MainKey::Char('t') => ManagerCommand::ToggleLanguage,
        MainKey::Char('c') => ManagerCommand::CheckUpdates,
        MainKey::Char('u') => ManagerCommand::ConfirmUpdate,
        MainKey::Char('i') => ManagerCommand::OpenInitialize,
        MainKey::Char('n') => ManagerCommand::OpenInstall,
        MainKey::Char('e') => ManagerCommand::OpenConfigure,
        MainKey::Char('s') => ManagerCommand::StartInstance,
        MainKey::Char('x') => ManagerCommand::StopInstance,
        MainKey::Char('a') => ManagerCommand::StartAllInstances,
        MainKey::Char('z') => ManagerCommand::StopAllInstances,
        MainKey::Char('d') => ManagerCommand::ConfirmUninstallSelected,
        MainKey::Char('m') => ManagerCommand::RefreshLauncher,
        MainKey::Char('r') => ManagerCommand::ConfirmRemoveLauncher,
        MainKey::Char('w') => ManagerCommand::ConfirmUninstallAll,
        _ => ManagerCommand::Nothing,
    }
}

/// The keys of the page of workspace services.
pub open spec fn spec_workspace_command(key: MainKey) -> ManagerCommand {
    match key {
        MainKey::Up | MainKey::Char('k') => ManagerCommand::PreviousService,
        MainKey::Down | MainKey::Char('j') => ManagerCommand::NextService,
        MainKey::Char('p') => ManagerCommand::ToggleProfile,
        MainKey::Char('g') => ManagerCommand::GenerateConfig,
        MainKey::Char('b') => ManagerCommand::Build,
        MainKey::Char('s') => ManagerCommand::StartService,
        MainKey::Char('x') => ManagerCommand::StopService,
        MainKey::Char('r') => ManagerCommand::RestartService,
        MainKey::Char('a') => ManagerCommand::StartAllServices,
        MainKey::Char('z') => ManagerCommand::StopAllServices,
        _ => ManagerCommand::Nothing,
    }
}

/// What a key means: Control-C always quits; with a dialog open every other
/// key goes to it; otherwise `q` quits, the arrows, `h` and `l` and Tab move
/// between pages, the digits pick one, and the page in view reads the rest.
pub open spec fn spec_main_command(key: MainKey, modal_open: bool, page: ActivePage) -> ManagerCommand {
    if key == MainKey::CtrlC {
        ManagerCommand::Quit
    } else if modal_open {
        ManagerCommand::ToModal
    } else {
        match key {
            MainKey::Char('q') => ManagerCommand::Quit,
            MainKey::Left | MainKey::BackTab | MainKey::Char('h') => ManagerCommand::PreviousPage,
            MainKey::Right | MainKey::Tab | MainKey::Char('l') => ManagerCommand::NextPage,
            MainKey::Char('1') => ManagerCommand::ShowPage(ActivePage::Installed),
            MainKey::Char('2') => ManagerCommand::ShowPage(ActivePage::Workspace),
            MainKey::Char('3') => ManagerCommand::ShowPage(ActivePage::Output),
            _ => match page {
                ActivePage::Installed => spec_installed_command(key),
                ActivePage::Workspace => spec_workspace_command(key),
                ActivePage::Output => ManagerCommand::Nothing,
            },
        }
    }
}

fn installed_command(key: MainKey) -> (r: ManagerCommand)
    ensures
        r == spec_installed_command(key),
{
    match key {
        MainKey::Up | MainKey::Char('k') => ManagerCommand::PreviousInstance,
        MainKey::Down | MainKey::Char('j') => ManagerCommand::NextInstance,
        MainKey::Char('t') => ManagerCommand::ToggleLanguage,
        MainKey::Char('c') => ManagerCommand::CheckUpdates,
        MainKey::Char('u') => ManagerCommand::ConfirmUpdate,
        MainKey::Char('i') => ManagerCommand::OpenInitialize,
        MainKey::Char('n') => ManagerCommand::OpenInstall,
        MainKey::Char('e') => ManagerCommand::OpenConfigure,
        MainKey::Char('s') => ManagerCommand::StartInstance,
        MainKey::Char('x') => ManagerCommand::StopInstance,
        MainKey::Char('a') => ManagerCommand::StartAllInstances,
        MainKey::Char('z') => ManagerCommand::StopAllInstances,
        MainKey::Char('d') => ManagerCommand::ConfirmUninstallSelected,
        MainKey::Char('m') => ManagerCommand::RefreshLauncher,
        MainKey::Char('r') => ManagerCommand::ConfirmRemoveLauncher,
        MainKey::Char('w') => ManagerCommand::ConfirmUninstallAll,
        _ => ManagerCommand::Nothing,
    }
}

fn workspace_command(key: MainKey) -> (r: ManagerCommand)
    ensures
        r == spec_workspace_command(key),
{
    match key {
        MainKey::Up | MainKey::Char('k') => ManagerCommand::PreviousService,
        MainKey::Down | MainKey::Char('j') => ManagerCommand::NextService,
        MainKey::Char('p') => ManagerCommand::ToggleProfile,
        MainKey::Char('g') => ManagerCommand::GenerateConfig,
        MainKey::Char('b') => ManagerCommand::Build,
        MainKey::Char('s') => ManagerCommand::StartService,
        MainKey::Char('x') => ManagerCommand::StopService,
        MainKey::Char('r') => ManagerCommand::RestartService,
        MainKey::Char('a') => ManagerCommand::StartAllServices,
        MainKey::Char('z') => ManagerCommand::StopAllServices,
        _ => ManagerCommand::Nothing,
    }
}

/// What a key press asks the manager to do (`handle_key`).
pub fn main_command(key: MainKey, modal_open: bool, page: ActivePage) -> (r: ManagerCommand)
    ensures
        r == spec_main_command(key, modal_open, page),
{
    if key == MainKey::CtrlC {
        return ManagerCommand::Quit;
    }
    if modal_open {
        return ManagerCommand::ToModal;
    }
    match key {
        MainKey::Char('q') => ManagerCommand::Quit,
        MainKey::Left | MainKey::BackTab | MainKey::Char('h') => ManagerCommand::PreviousPage,
        MainKey::Right | MainKey::Tab | MainKey::Char('l') => ManagerCommand::NextPage,
        MainKey::Char('1') => ManagerCommand::ShowPage(ActivePage::Installed),
        MainKey::Char('2') => ManagerCommand::ShowPage(ActivePage::Workspace),
        MainKey::Char('3') => ManagerCommand::ShowPage(ActivePage::Output),
        _ => match page {
            ActivePage::Installed => installed_command(key),
            ActivePage::Workspace => workspace_command(key),
            ActivePage::Output => ManagerCommand::Nothing,
        },
    }
}

/// What a key does to a question being asked.
#[derive(Debug, Clone, Copy, PartialEq, Eq, Structural)]
pub enum ConfirmKeyOutcome {
    /// The question is declined and closes.
    Decline,
    /// The action is carried out and the question closes.
    Accept,
    /// The question stays open.
    KeepOpen,
}

/// Esc or `n` declines, Enter or `y` accepts, any other key leaves the
/// question open.
pub fn confirm_key_outcome(key: MainKey) -> (r: ConfirmKeyOutcome)
    ensures
        (key == MainKey::Esc || key == MainKey::Char('n')) <==> r == ConfirmKeyOutcome::Decline,
        (key == MainKey::Enter || key == MainKey::Char('y')) <==> r == ConfirmKeyOutcome::Accept,
{
    match key {
        MainKey::Esc | MainKey::Char('n') => ConfirmKeyOutcome::Decline,
        MainKey::Enter | MainKey::Char('y') => ConfirmKeyOutcome::Accept,
        _ => ConfirmKeyOutcome::KeepOpen,
    }
}

/// The question asked before updating the service binaries.
pub fn update_question(zh: bool) -> (r: ConfirmState)
    ensures
        r.title@ == pick(zh, "更新应用二进制"@, "Update Service Binaries"@),
        r.message@ == pick(
            zh,
            "将按最新 release 更新已安装服务，并自动恢复之前正在运行的实例。"@,
            "This updates installed service binaries to the latest release and restores running instances."@,
        ),
        r.action == ConfirmAction::UpdateBinaries,
{
    ConfirmState {
        title: String::from_str(pick_text(zh, "更新应用二进制", "Update Service Binaries")),
        message: String::from_str(
            pick_text(
                zh,
                "将按最新 release 更新已安装服务，并自动恢复之前正在运行的实例。",
                "This updates installed service binaries to the latest release and restores running instances.",
            ),
        ),
        action: ConfirmAction::UpdateBinaries,
    }
}

/// The question asked before removing the manager's launcher.
pub fn remove_launcher_question(zh: bool) -> (r: ConfirmState)
    ensures
        r.title@ == pick(zh, "移除管理入口"@, "Remove Manager Launcher"@),
        r.message@ == pick(
            zh,
            "这会移除 vldb 命令入口，但不会删除任何实例和数据。"@,
            "This removes the vldb launcher only. Instances and data stay intact."@,
        ),
        r.action == ConfirmAction::RemoveLauncher,
{
    ConfirmState {
        title: String::from_str(pick_text(zh, "移除管理入口", "Remove Manager Launcher")),
        message: String::from_str(
            pick_text(
                zh,
                "这会移除 vldb 命令入口，但不会删除任何实例和数据。",
                "This removes the vldb launcher only. Instances and data stay intact.",
            ),
        ),
        action: ConfirmAction::RemoveLauncher,
    }
}

/// The question asked before uninstalling everything.
pub fn uninstall_all_question(zh: bool) -> (r: ConfirmState)
    ensures
        r.title@ == pick(zh, "卸载全部"@, "Uninstall All"@),
        r.message@ == pick(
            zh,
            "这会移除程序文件、服务注册和管理入口，但保留数据库目录。"@,
            "This removes program files, service registration, and the launcher, while preserving database directories."@,
        ),
        r.action == ConfirmAction::UninstallAll,
{
    ConfirmState {
        title: String::from_str(pick_text(zh, "卸载全部", "Uninstall All")),
        message: String::from_str(
            pick_text(
                zh,
                "这会移除程序文件、服务注册和管理入口，但保留数据库目录。",
                "This removes program files, service registration, and the launcher, while preserving database directories.",
            ),
        ),
        action: ConfirmAction::UninstallAll,
    }
}

pub open spec fn spec_uninstall_message(inst: InstalledInstance, zh: bool) -> Seq<char> {
    pick(zh, "确认卸载实例"@, "Uninstall"@) + " "@ + service_label(inst.service) + " / "@ + inst.instance_name@
}

/// The question asked before uninstalling the selected instance; with no
/// instance selected there is none, and the history says so instead.
pub fn uninstall_question(selected: Option<InstalledInstance>, zh: bool) -> (r: Result<ConfirmState, String>)
    ensures
        selected is None ==> (r matches Err(m) && m@ == pick(
            zh,
            "当前没有可卸载的实例。"@,
            "There is no installed instance to remove."@,
        )),
        selected matches Some(inst) ==> (r matches Ok(q) && q.title@ == pick(
            zh,
            "卸载实例"@,
            "Uninstall Instance"@,
        ) && q.message@ == spec_uninstall_message(inst, zh) && q.action == ConfirmAction::UninstallInstance(inst)),
{
    match selected {
        None => Err(
            String::from_str(pick_text(zh, "当前没有可卸载的实例。", "There is no installed instance to remove.")),
        ),
        Some(inst) => {
            let mut message = concat3(pick_text(zh, "确认卸载实例", "Uninstall"), " ", inst.service.label());
            push_all(&mut message, " / ");
            push_all(&mut message, &inst.instance_name);
            Ok(
                ConfirmState {
                    title: String::from_str(pick_text(zh, "卸载实例", "Uninstall Instance")),
                    message,
                    action: ConfirmAction::UninstallInstance(inst),
                },
            )
        },
    }
}

/// What the history says when there is no instance to start (`start`) or
/// to stop (`!start`).
pub fn no_instance_message(start: bool, zh: bool) -> (r: String)
    ensures
        start ==> r@ == pick(zh, "当前没有可启动的实例。"@, "There is no installed instance to start."@),
        !start ==> r@ == pick(zh, "当前没有可停止的实例。"@, "There is no installed instance to stop."@),
{
    if start {
        String::from_str(pick_text(zh, "当前没有可启动的实例。", "There is no installed instance to start."))
    } else {
        String::from_str(pick_text(zh, "当前没有可停止的实例。", "There is no installed instance to stop."))
    }
}

pub open spec fn spec_update_report(zh: bool, manager: Seq<char>, latest: Option<Seq<char>>, installed: Option<Seq<char>>) -> Seq<char> {
    pick(zh, "更新检查完成"@, "Update check complete"@) + " manager="@ + manager + " latest="@ + match latest {
        Some(t) => t,
        None => pick(zh, "未知"@, "unknown"@),
    } + " binaries="@ + match installed {
        Some(t) => t,
        None => pick(zh, "未安装"@, "not installed"@),
    }
}

/// The history line of a finished update check.
pub fn update_report(zh: bool, manager: &str, latest: Option<&str>, installed: Option<&str>) -> (r: String)
    ensures
        r@ == spec_update_report(
            zh,
            manager@,
            match latest {
                Some(t) => Some(t@),
                None => None,
            },
            match installed {
                Some(t) => Some(t@),
                None => None,
            },
        ),
{
    let mut r = concat3(pick_text(zh, "更新检查完成", "Update check complete"), " manager=", manager);
    push_all(&mut r, " latest=");
    match latest {
        Some(t) => push_all(&mut r, t),
        None => push_all(&mut r, pick_text(zh, "未知", "unknown")),
    }
    push_all(&mut r, " binaries=");
    match installed {
        Some(t) => push_all(&mut r, t),
        None => push_all(&mut r, pick_text(zh, "未安装", "not installed")),
    }
    r
}

/// A failed action on the history: what failed, then the error.
pub fn failure_line(what: &str, error: &str) -> (r: String)
    ensures
        r@ == what@ + ": "@ + error@,
{
    concat3(what, ": ", error)
}

pub open spec fn spec_profile_switched(zh: bool, profile: BuildProfile) -> Seq<char> {
    pick(zh, "当前构建配置已切换到"@, "Active build profile switched to"@) + " "@
        + crate::manager_service::profile_label(profile)
}

/// The history line after the build profile changed.
pub fn profile_switched_message(zh: bool, profile: BuildProfile) -> (r: String)
    ensures
        r@ == spec_profile_switched(zh, profile),
{
    concat3(pick_text(zh, "当前构建配置已切换到", "Active build profile switched to"), " ", profile.label())
}

} // verus!
