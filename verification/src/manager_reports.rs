//! What the manager reports when an action on installed instances is done,
//! and the decisions it takes around them that need no outside state.
use vstd::prelude::*;
use crate::manager_install::{pick, pick_text, spec_display_name, InstalledInstance};
use crate::manager_service::{service_label, ServiceId};
use crate::text::{concat2, concat3, dec, push_all, render_u128};

verus! {

/// A phrase in the manager's language, a space, then `rest`.
pub open spec fn spaced(zh: bool, zh_text: Seq<char>, en_text: Seq<char>, rest: Seq<char>) -> Seq<char> {
    pick(zh, zh_text, en_text) + " "@ + rest
}

fn spaced_exec(zh: bool, zh_text: &'static str, en_text: &'static str, rest: &str) -> (r: String)
    ensures
        r@ == spaced(zh, zh_text@, en_text@, rest@),
{
    concat3(pick_text(zh, zh_text, en_text), " ", rest)
}

/// What starting (`start`) or stopping (`!start`) one instance reports.
pub fn instance_runtime_message(start: bool, inst: &InstalledInstance, zh: bool) -> (r: String)
    ensures
        start ==> r@ == spaced(zh, "已启动"@, "Started"@, spec_display_name(inst.service, inst.instance_name@)),
        !start ==> r@ == spaced(zh, "已停止"@, "Stopped"@, spec_display_name(inst.service, inst.instance_name@)),
{
    let name = inst.display_name();
    if start {
        spaced_exec(zh, "已启动", "Started", &name)
    } else {
        spaced_exec(zh, "已停止", "Stopped", &name)
    }
}

/// What starting (`start`) or stopping (`!start`) every instance reports.
pub fn all_instances_message(start: bool, count: usize, zh: bool) -> (r: String)
    ensures
        r@ == pick(
            zh,
            if start {
                "已启动"@
            } else {
                "已停止"@
            },
            if start {
                "Started"@
            } else {
                "Stopped"@
            },
        ) + " "@ + dec(count as nat) + " "@ + pick(zh, "个实例"@, "instance(s)"@),
{
    let mut m = if start {
        concat2(pick_text(zh, "已启动", "Started"), " ")
    } else {
        concat2(pick_text(zh, "已停止", "Stopped"), " ")
    };
    push_all(&mut m, &render_u128(count as u128));
    push_all(&mut m, " ");
    push_all(&mut m, pick_text(zh, "个实例", "instance(s)"));
    m
}

pub open spec fn spec_uninstalled(inst: InstalledInstance, zh: bool) -> Seq<char> {
    pick(zh, "已卸载实例"@, "Uninstalled instance"@) + " "@ + spec_display_name(inst.service, inst.instance_name@)
        + pick(zh, "，数据库文件已保留在"@, ". Database files are preserved at"@) + " "@ + inst.db_path@
}

/// What uninstalling one instance reports: where its data stays.
pub fn uninstalled_message(inst: &InstalledInstance, zh: bool) -> (r: String)
    ensures
        r@ == spec_uninstalled(*inst, zh),
{
    let mut m = concat3(pick_text(zh, "已卸载实例", "Uninstalled instance"), " ", &inst.display_name());
    push_all(&mut m, pick_text(zh, "，数据库文件已保留在", ". Database files are preserved at"));
    push_all(&mut m, " ");
    push_all(&mut m, &inst.db_path);
    m
}

/// What uninstalling everything reports.
pub fn uninstalled_all_message(zh: bool) -> (r: &'static str)
    ensures
        r@ == pick(
            zh,
            "程序文件已移除，数据库目录已保留。"@,
            "Program files have been removed, and database directories were preserved."@,
        ),
{
    pick_text(zh, "程序文件已移除，数据库目录已保留。", "Program files have been removed, and database directories were preserved.")
}

/// What installing one instance reports.
pub fn installed_message(service: ServiceId, instance_name: &str, zh: bool) -> (r: String)
    ensures
        r@ == spaced(zh, "已安装实例"@, "Installed instance"@, service_label(service) + " / "@ + instance_name@),
{
    let mut rest = concat2(service.label(), " / ");
    push_all(&mut rest, instance_name);
    spaced_exec(zh, "已安装实例", "Installed instance", &rest)
}

/// What a first installation reports, with the release it installed.
pub fn initialized_message(tag: &str, zh: bool) -> (r: String)
    ensures
        r@ == spaced(zh, "首次安装完成，当前 release:"@, "Initialization complete. Current release:"@, tag@),
{
    spaced_exec(zh, "首次安装完成，当前 release:", "Initialization complete. Current release:", tag)
}

/// What an update of the service binaries reports.
pub fn binaries_updated_message(tag: &str, zh: bool) -> (r: String)
    ensures
        r@ == spaced(zh, "应用二进制已更新到"@, "Service binaries updated to"@, tag@),
{
    spaced_exec(zh, "应用二进制已更新到", "Service binaries updated to", tag)
}

/// What removing (`removed`) or refreshing (`!removed`) the launcher reports.
pub fn launcher_message(removed: bool, zh: bool) -> (r: &'static str)
    ensures
        removed ==> r@ == pick(zh, "已移除 vldb 管理入口。"@, "Removed the vldb manager launcher."@),
        !removed ==> r@ == pick(zh, "已刷新当前 vldb 管理命令入口。"@, "Refreshed the current vldb launcher."@),
{
    if removed {
        pick_text(zh, "已移除 vldb 管理入口。", "Removed the vldb manager launcher.")
    } else {
        pick_text(zh, "已刷新当前 vldb 管理命令入口。", "Refreshed the current vldb launcher.")
    }
}

/// What leaving the manager reports when it stopped services it had started.
pub fn shutdown_message(stopped: usize, zh: bool) -> (r: String)
    ensures
        r@ == pick(zh, "退出前已关闭"@, "Shut down"@) + " "@ + dec(stopped as nat) + " "@ + pick(
            zh,
            "个由当前会话接管的工作区服务"@,
            "managed workspace service(s) before exit"@,
        ),
{
    let mut m = concat2(pick_text(zh, "退出前已关闭", "Shut down"), " ");
    push_all(&mut m, &render_u128(stopped as u128));
    push_all(&mut m, " ");
    push_all(&mut m, pick_text(zh, "个由当前会话接管的工作区服务", "managed workspace service(s) before exit"));
    m
}

/// An action that failed and is reported on the history.
#[derive(Debug, Clone, Copy, PartialEq, Eq)]
pub enum FailedAction {
    RemoveLauncher,
    SwitchLanguage,
    CheckUpdates,
    RefreshLauncher,
    StartAll,
    StopAll,
    PollProcess,
}

pub open spec fn spec_failed_action(action: FailedAction, zh: bool) -> Seq<char> {
    match action {
        FailedAction::RemoveLauncher => pick(zh, "移除管理入口失败"@, "failed to remove launcher"@),
        FailedAction::SwitchLanguage => pick(zh, "切换语言失败"@, "failed to switch language"@),
        FailedAction::CheckUpdates => pick(zh, "检查更新失败"@, "failed to check updates"@),
        FailedAction::RefreshLauncher => pick(zh, "刷新管理入口失败"@, "failed to refresh launcher"@),
        FailedAction::StartAll => pick(zh, "全部启动警告"@, "Start-all warning"@),
        FailedAction::StopAll => pick(zh, "全部停止警告"@, "Stop-all warning"@),
        FailedAction::PollProcess => pick(zh, "轮询进程状态失败"@, "Failed to poll process"@),
    }
}

/// The history line of a failed action: what failed, then the error.
pub fn failed_action_line(action: FailedAction, error: &str, zh: bool) -> (r: String)
    ensures
        r@ == spec_failed_action(action, zh) + ": "@ + error@,
{
    let what = match action {
        FailedAction::RemoveLauncher => pick_text(zh, "移除管理入口失败", "failed to remove launcher"),
        FailedAction::SwitchLanguage => pick_text(zh, "切换语言失败", "failed to switch language"),
        FailedAction::CheckUpdates => pick_text(zh, "检查更新失败", "failed to check updates"),
        FailedAction::RefreshLauncher => pick_text(zh, "刷新管理入口失败", "failed to refresh launcher"),
        FailedAction::StartAll => pick_text(zh, "全部启动警告", "Start-all warning"),
        FailedAction::StopAll => pick_text(zh, "全部停止警告", "Stop-all warning"),
        FailedAction::PollProcess => pick_text(zh, "轮询进程状态失败", "Failed to poll process"),
    };
    concat3(what, ": ", error)
}

/// Where the Windows service wrapper comes from.
#[derive(Debug, Clone, Copy, PartialEq, Eq)]
pub enum WrapperSource {
    /// The copy downloaded earlier.
    Cached,
    /// It is to be downloaded now.
    Download,
}

/// Whether the Windows service wrapper can be had: a copy downloaded
/// earlier is used; otherwise it is downloaded, which is done on x64
/// Windows only.
pub fn wrapper_source(cached: bool, windows: bool, arch: &str, zh: bool) -> (r: Result<WrapperSource, String>)
    ensures
        cached ==> r == Ok::<WrapperSource, String>(WrapperSource::Cached),
        !cached && !windows ==> (r matches Err(e) && e@ == pick(zh, "WinSW 仅可在 Windows 上使用"@, "WinSW is only available on Windows"@)),
        !cached && windows && arch@ != "x86_64"@ ==> (r matches Err(e) && e@ == pick(
            zh,
            "内置 WinSW 引导目前只支持 x64 Windows"@,
            "The bundled WinSW bootstrap currently supports only x64 Windows"@,
        )),
        !cached && windows && arch@ == "x86_64"@ ==> r == Ok::<WrapperSource, String>(WrapperSource::Download),
{
    if cached {
        return Ok(WrapperSource::Cached);
    }
    if !windows {
        return Err(String::from_str(pick_text(zh, "WinSW 仅可在 Windows 上使用", "WinSW is only available on Windows")));
    }
    if !crate::text::eq_str(&crate::text::chars_of(arch), "x86_64") {
        return Err(
            String::from_str(
                pick_text(zh, "内置 WinSW 引导目前只支持 x64 Windows", "The bundled WinSW bootstrap currently supports only x64 Windows"),
            ),
        );
    }
    Ok(WrapperSource::Download)
}

/// The instances that are running, in order: they are started again after
/// an update of the binaries.
pub fn running_instances(instances: Vec<InstalledInstance>) -> (r: Vec<InstalledInstance>)
    ensures
        r@ == instances@.filter(|i: InstalledInstance| i.running),
{
    let ghost orig = instances@;
    let ghost keep = |x: InstalledInstance| x.running;
    assert(orig.len() == instances.len());
    let mut rest = instances;
    let mut out: Vec<InstalledInstance> = Vec::new();
    let mut k: usize = 0;
    assert(orig.subrange(0, 0) =~= Seq::<InstalledInstance>::empty());
    assert(orig.subrange(0, 0).filter(keep) =~= Seq::<InstalledInstance>::empty()) by {
        reveal(Seq::filter);
    }
    assert(orig.subrange(0, orig.len() as int) =~= orig);
    while rest.len() > 0
        invariant
            k + rest.len() == orig.len(),
            orig.len() <= usize::MAX,
            keep == (|x: InstalledInstance| x.running),
            rest@ == orig.subrange(k as int, orig.len() as int),
            out@ == orig.subrange(0, k as int).filter(keep),
        decreases rest.len(),
    {
        let x = rest.remove(0);
        assert(x == orig[k as int]);
        assert(orig.subrange(0, k + 1).drop_last() =~= orig.subrange(0, k as int));
        assert(orig.subrange(0, k + 1).last() == x);
        assert(rest@ =~= orig.subrange(k + 1, orig.len() as int));
        let ghost before = out@;
        let ghost prefix = orig.subrange(0, k + 1);
        if x.running {
            out.push(x);
        }
        assert(prefix.filter(keep) == if keep(prefix.last()) {
            prefix.drop_last().filter(keep).push(prefix.last())
        } else {
            prefix.drop_last().filter(keep)
        }) by {
            reveal(Seq::filter);
        }
        k += 1;
    }
    out
}


/// The first lines of the session's history: it began, and the launcher
/// was refreshed (or why not).
pub fn session_started_message(zh: bool) -> (r: &'static str)
    ensures
        r@ == pick(zh, "VLDB 管理器会话已启动。"@, "VLDB manager session started."@),
{
    pick_text(zh, "VLDB 管理器会话已启动。", "VLDB manager session started.")
}

/// What refreshing the launcher at the start of a session reports: done,
/// or the error after `刷新启动入口失败` / `failed to refresh launcher`.
pub fn startup_launcher_message(error: Option<&str>, zh: bool) -> (r: String)
    ensures
        error is None ==> r@ == pick(zh, "已刷新 vldb 管理入口。"@, "Refreshed the vldb manager launcher."@),
        error matches Some(e) ==> r@ == pick(zh, "刷新启动入口失败"@, "failed to refresh launcher"@) + ": "@ + e@,
{
    match error {
        None => String::from_str(pick_text(zh, "已刷新 vldb 管理入口。", "Refreshed the vldb manager launcher.")),
        Some(e) => concat3(pick_text(zh, "刷新启动入口失败", "failed to refresh launcher"), ": ", e),
    }
}

/// An error on the history.
pub fn error_line(message: &str, zh: bool) -> (r: String)
    ensures
        r@ == pick(zh, "错误"@, "ERROR"@) + ": "@ + message@,
{
    concat3(pick_text(zh, "错误", "ERROR"), ": ", message)
}

/// What generating a workspace config reports.
pub fn config_ready_message(path: &str, zh: bool) -> (r: String)
    ensures
        r@ == spaced(zh, "工作区配置已就绪:"@, "Workspace config ready at"@, path@),
{
    spaced_exec(zh, "工作区配置已就绪:", "Workspace config ready at", path)
}

/// What starting a build reports.
pub fn build_started_message(profile: crate::manager_service::BuildProfile, zh: bool) -> (r: String)
    ensures
        r@ == pick(zh, "已开始"@, "Started"@) + " "@ + crate::manager_service::profile_label(profile) + " "@ + pick(
            zh,
            "构建"@,
            "build"@,
        ),
{
    let mut m = concat3(pick_text(zh, "已开始", "Started"), " ", profile.label());
    push_all(&mut m, " ");
    push_all(&mut m, pick_text(zh, "构建", "build"));
    m
}

/// What starting a workspace service reports: its process and config.
pub fn process_started_message(pid: u32, profile: crate::manager_service::BuildProfile, config_path: &str, zh: bool) -> (r: String)
    ensures
        r@ == pick(zh, "已启动，"@, "Started with"@) + " PID "@ + dec(pid as nat) + " "@ + pick(zh, "使用配置"@, "using"@)
            + " "@ + crate::manager_service::profile_label(profile) + " ("@ + config_path@ + ")"@,
{
    let mut m = concat2(pick_text(zh, "已启动，", "Started with"), " PID ");
    push_all(&mut m, &render_u128(pid as u128));
    push_all(&mut m, " ");
    push_all(&mut m, pick_text(zh, "使用配置", "using"));
    push_all(&mut m, " ");
    push_all(&mut m, profile.label());
    push_all(&mut m, " (");
    push_all(&mut m, config_path);
    push_all(&mut m, ")");
    m
}

/// What stopping a workspace service reports: its process and exit code.
pub fn process_stopped_message(pid: u32, exit_code: Option<i32>, zh: bool) -> (r: String)
    ensures
        r@ == pick(zh, "已停止进程"@, "Stopped process"@) + " "@ + dec(pid as nat) + " "@
            + crate::manager_service::spec_exit_code(exit_code),
{
    let mut m = concat2(pick_text(zh, "已停止进程", "Stopped process"), " ");
    push_all(&mut m, &render_u128(pid as u128));
    push_all(&mut m, " ");
    push_all(&mut m, &crate::manager_service::format_exit_code(exit_code));
    m
}

/// The header of a config preview: where the config comes from (with the
/// kind of source, where known), then a blank line.
pub fn preview_header(path: &str, source_label: Option<&str>, zh: bool) -> (r: Vec<String>)
    ensures
        r@.len() == 2,
        r@[1]@ == Seq::<char>::empty(),
        source_label is None ==> r@[0]@ == pick(zh, "来源"@, "source"@) + ": "@ + crate::manager_form::spec_sanitize(path@),
        source_label matches Some(l) ==> r@[0]@ == pick(zh, "来源"@, "source"@) + ": "@
            + crate::manager_form::spec_sanitize(path@) + " ("@ + crate::manager_view::spec_source_label(l@, zh)
            + ")"@,
{
    let mut first = concat2(pick_text(zh, "来源", "source"), ": ");
    push_all(&mut first, &crate::manager_form::sanitize_display_text(path));
    match source_label {
        Some(l) => {
            push_all(&mut first, " (");
            push_all(&mut first, &crate::manager_session::localized_source_label(l, zh));
            push_all(&mut first, ")");
        },
        None => {},
    }
    let mut v: Vec<String> = Vec::new();
    v.push(first);
    v.push(String::new());
    v
}

/// What a preview shows when there is nothing to preview: no workspace
/// config (`workspace`), or no installed instance (`!workspace`).
pub fn nothing_to_preview(workspace: bool, zh: bool) -> (r: &'static str)
    ensures
        workspace ==> r@ == pick(zh, "当前工作区还没有配置文件。"@, "No workspace config file found yet."@),
        !workspace ==> r@ == pick(zh, "当前还没有已安装实例。"@, "There are no installed instances yet."@),
{
    if workspace {
        pick_text(zh, "当前工作区还没有配置文件。", "No workspace config file found yet.")
    } else {
        pick_text(zh, "当前还没有已安装实例。", "There are no installed instances yet.")
    }
}

/// The preview line of a config that could not be read.
pub fn unreadable_config_line(error: &str, zh: bool) -> (r: String)
    ensures
        r@ == pick(zh, "读取配置失败"@, "failed to read config"@) + ": "@ + error@,
{
    concat3(pick_text(zh, "读取配置失败", "failed to read config"), ": ", error)
}

} // verus!
