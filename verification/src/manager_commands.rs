//! The commands the manager runs against the system's service managers
//! (systemd, launchd and Windows services), and how it reads their answers.
use vstd::prelude::*;
use crate::manager_install::{flat_map_chars, ps_literal, ps_quote_char};
use crate::text::{
    ascii_lower_chars, ascii_lower_seq, chars_of, concat2, concat3, contains_exec, contains_seq,
    dec, push_all, render_u128, trim_seq, trim_string,
};

verus! {

/// What the manager asks `systemctl` to do.
#[derive(Debug, Clone, Copy, PartialEq, Eq)]
pub enum UnitAction {
    DaemonReload,
    Enable,
    Disable,
    Start,
    Stop,
    IsActive,
}

/// The unit file name of a service.
pub open spec fn unit_name(service_name: Seq<char>) -> Seq<char> {
    service_name + ".service"@
}

/// The arguments of `systemctl` for an action on a service: for the system
/// manager as root, for the user's manager (`--user` first) otherwise.
pub open spec fn spec_systemctl_args(root: bool, action: UnitAction, service_name: Seq<char>) -> Seq<Seq<char>> {
    let unit = unit_name(service_name);
    let rest: Seq<Seq<char>> = match action {
        UnitAction::DaemonReload => seq!["daemon-reload"@],
        UnitAction::Enable => seq!["enable"@, "--now"@, unit],
        UnitAction::Disable => seq!["disable"@, "--now"@, unit],
        UnitAction::Start => seq!["start"@, unit],
        UnitAction::Stop => seq!["stop"@, unit],
        UnitAction::IsActive => seq!["is-active"@, "--quiet"@, unit],
    };
    if root {
        rest
    } else {
        seq!["--user"@] + rest
    }
}

/// The arguments of `systemctl` for an action on a service.
pub fn systemctl_args(root: bool, action: UnitAction, service_name: &str) -> (r: Vec<String>)
    ensures
        crate::manager_session::texts(r@) == spec_systemctl_args(root, action, service_name@),
{
    let mut args: Vec<String> = Vec::new();
    if !root {
        args.push(String::from_str("--user"));
    }
    let unit = concat2(service_name, ".service");
    match action {
        UnitAction::DaemonReload => {
            args.push(String::from_str("daemon-reload"));
        },
        UnitAction::Enable => {
            args.push(String::from_str("enable"));
            args.push(String::from_str("--now"));
            args.push(unit);
        },
        UnitAction::Disable => {
            args.push(String::from_str("disable"));
            args.push(String::from_str("--now"));
            args.push(unit);
        },
        UnitAction::Start => {
            args.push(String::from_str("start"));
            args.push(unit);
        },
        UnitAction::Stop => {
            args.push(String::from_str("stop"));
            args.push(unit);
        },
        UnitAction::IsActive => {
            args.push(String::from_str("is-active"));
            args.push(String::from_str("--quiet"));
            args.push(unit);
        },
    }
    assert(crate::manager_session::texts(args@) =~= spec_systemctl_args(root, action, service_name@));
    args
}

/// The arguments of `launchctl` that load (`load`) or unload (`!load`) a
/// property list for good.
pub fn launchctl_args(load: bool, plist: &str) -> (r: Vec<String>)
    ensures
        crate::manager_session::texts(r@) == seq![
            if load {
                "load"@
            } else {
                "unload"@
            },
            "-w"@,
            plist@,
        ],
{
    let mut args: Vec<String> = Vec::new();
    args.push(String::from_str(if load { "load" } else { "unload" }));
    args.push(String::from_str("-w"));
    args.push(String::from_str(plist));
    assert(crate::manager_session::texts(args@) =~= seq![
        if load {
            "load"@
        } else {
            "unload"@
        },
        "-w"@,
        plist@,
    ]);
    args
}

/// A name quoted for a single-quoted PowerShell literal.
pub open spec fn ps_name(name: Seq<char>) -> Seq<char> {
    flat_map_chars(name, |c: char| ps_quote_char(c))
}

pub open spec fn spec_service_script(start: bool, name: Seq<char>) -> Seq<char> {
    let q = ps_name(name);
    if start {
        "Start-Service -Name '"@ + q + "' -ErrorAction SilentlyContinue; $svc = Get-Service -Name '"@ + q
            + "' -ErrorAction Stop; $svc.WaitForStatus([System.ServiceProcess.ServiceControllerStatus]::Running, [TimeSpan]::FromSeconds(20))"@
    } else {
        "Stop-Service -Name '"@ + q + "' -Force -ErrorAction SilentlyContinue; $svc = Get-Service -Name '"@ + q
            + "' -ErrorAction Stop; $svc.WaitForStatus([System.ServiceProcess.ServiceControllerStatus]::Stopped, [TimeSpan]::FromSeconds(20))"@
    }
}

/// The PowerShell script that starts (`start`) or stops (`!start`) a
/// Windows service and waits up to twenty seconds for it to get there.
pub fn service_script(start: bool, name: &str) -> (r: String)
    ensures
        r@ == spec_service_script(start, name@),
{
    let q = ps_literal(name);
    let mut s = if start {
        concat2("Start-Service -Name '", &q)
    } else {
        concat2("Stop-Service -Name '", &q)
    };
    push_all(
        &mut s,
        if start {
            "' -ErrorAction SilentlyContinue; $svc = Get-Service -Name '"
        } else {
            "' -Force -ErrorAction SilentlyContinue; $svc = Get-Service -Name '"
        },
    );
    push_all(&mut s, &q);
    push_all(
        &mut s,
        if start {
            "' -ErrorAction Stop; $svc.WaitForStatus([System.ServiceProcess.ServiceControllerStatus]::Running, [TimeSpan]::FromSeconds(20))"
        } else {
            "' -ErrorAction Stop; $svc.WaitForStatus([System.ServiceProcess.ServiceControllerStatus]::Stopped, [TimeSpan]::FromSeconds(20))"
        },
    );
    s
}

pub open spec fn spec_running_query(name: Seq<char>) -> Seq<char> {
    "$svc = Get-Service -Name '"@ + ps_name(name)
        + "' -ErrorAction SilentlyContinue; if ($svc -and $svc.Status -eq [System.ServiceProcess.ServiceControllerStatus]::Running) { 'running' }"@
}

/// The PowerShell script that prints `running` while a Windows service runs.
pub fn running_query_script(name: &str) -> (r: String)
    ensures
        r@ == spec_running_query(name@),
{
    let mut s = concat2("$svc = Get-Service -Name '", &ps_literal(name));
    push_all(
        &mut s,
        "' -ErrorAction SilentlyContinue; if ($svc -and $svc.Status -eq [System.ServiceProcess.ServiceControllerStatus]::Running) { 'running' }",
    );
    s
}

/// A Windows service runs when the query printed `running`, blanks aside.
pub fn windows_service_running(output: &str) -> (r: bool)
    ensures
        r == (trim_seq(output@) == "running"@),
{
    let t = trim_string(output);
    crate::text::eq_str(&chars_of(&t), "running")
}

pub open spec fn spec_remove_task_script(name: Seq<char>) -> Seq<char> {
    "Unregister-ScheduledTask -TaskName '"@ + ps_name(name) + "' -Confirm:$false -ErrorAction SilentlyContinue"@
}

/// The PowerShell script that removes the scheduled task earlier versions
/// registered instead of a service.
pub fn remove_task_script(name: &str) -> (r: String)
    ensures
        r@ == spec_remove_task_script(name@),
{
    let mut s = concat2("Unregister-ScheduledTask -TaskName '", &ps_literal(name));
    push_all(&mut s, "' -Confirm:$false -ErrorAction SilentlyContinue");
    s
}

pub open spec fn spec_stop_before_delete_script(name: Seq<char>) -> Seq<char> {
    let q = ps_name(name);
    "$svc = Get-Service -Name '"@ + q
        + "' -ErrorAction SilentlyContinue; if ($svc) { if ($svc.Status -ne [System.ServiceProcess.ServiceControllerStatus]::Stopped) { Stop-Service -Name '"@
        + q
        + "' -Force -ErrorAction SilentlyContinue; try { $svc.WaitForStatus([System.ServiceProcess.ServiceControllerStatus]::Stopped, [TimeSpan]::FromSeconds(20)) } catch { } } }"@
}

/// The PowerShell script that stops a Windows service, if there is one,
/// before it is deleted.
pub fn stop_before_delete_script(name: &str) -> (r: String)
    ensures
        r@ == spec_stop_before_delete_script(name@),
{
    let q = ps_literal(name);
    let mut s = concat2("$svc = Get-Service -Name '", &q);
    push_all(
        &mut s,
        "' -ErrorAction SilentlyContinue; if ($svc) { if ($svc.Status -ne [System.ServiceProcess.ServiceControllerStatus]::Stopped) { Stop-Service -Name '",
    );
    push_all(&mut s, &q);
    push_all(
        &mut s,
        "' -Force -ErrorAction SilentlyContinue; try { $svc.WaitForStatus([System.ServiceProcess.ServiceControllerStatus]::Stopped, [TimeSpan]::FromSeconds(20)) } catch { } } }",
    );
    s
}

/// Whether `sc.exe delete` failed for another reason than the service being
/// gone already; if so, the error to report. The reason is read from the
/// error output in ASCII lowercase.
pub fn service_delete_error(success: bool, stderr: &str, name: &str) -> (r: Option<String>)
    ensures
        (success || contains_seq(ascii_lower_seq(stderr@), "does not exist"@)) ==> r is None,
        !(success || contains_seq(ascii_lower_seq(stderr@), "does not exist"@)) ==> (r matches Some(m) && m@
            == "failed to delete Windows service "@ + name@ + ": "@ + stderr@),
{
    if success {
        return None;
    }
    let lower = ascii_lower_chars(stderr);
    if contains_exec(&lower, "does not exist") {
        return None;
    }
    let mut m = concat3("failed to delete Windows service ", name, ": ");
    push_all(&mut m, stderr);
    Some(m)
}

/// The launchd domain of the manager's services: the system's as root, the
/// user's GUI session otherwise.
pub fn launchd_target(root: bool, uid: u32, service_name: &str) -> (r: String)
    ensures
        r@ == (if root {
            "system"@
        } else {
            "gui/"@ + dec(uid as nat)
        }) + "/"@ + service_name@,
{
    let mut s = if root {
        String::from_str("system")
    } else {
        concat2("gui/", &render_u128(uid as u128))
    };
    push_all(&mut s, "/");
    push_all(&mut s, service_name);
    s
}

/// A launchd service runs when `launchctl print` succeeds and shows a pid.
pub fn launchd_service_running(success: bool, stdout: &str) -> (r: bool)
    ensures
        r == (success && contains_seq(stdout@, "pid = "@)),
{
    success && contains_exec(&chars_of(stdout), "pid = ")
}

pub open spec fn spec_command_failure(program: Seq<char>, args: Seq<char>, code: Option<i32>, stderr: Seq<char>) -> Seq<char> {
    "command failed: "@ + program + " "@ + args + " (exit "@ + crate::manager_service::spec_exit_code(code) + ")\n"@
        + stderr
}

/// The error of a command that exited unsuccessfully; `args` are its
/// arguments joined by spaces.
pub fn command_failure(program: &str, args: &str, code: Option<i32>, stderr: &str) -> (r: String)
    ensures
        r@ == spec_command_failure(program@, args@, code, stderr@),
{
    let mut m = concat3("command failed: ", program, " ");
    push_all(&mut m, args);
    push_all(&mut m, " (exit ");
    push_all(&mut m, &crate::manager_service::format_exit_code(code));
    push_all(&mut m, ")\n");
    push_all(&mut m, stderr);
    m
}

/// The error of a PowerShell script that exited unsuccessfully.
pub fn powershell_failure(code: Option<i32>, stderr: &str) -> (r: String)
    ensures
        r@ == "PowerShell command failed (exit "@ + crate::manager_service::spec_exit_code(code) + ")\n"@ + stderr@,
{
    let mut m = concat2("PowerShell command failed (exit ", &crate::manager_service::format_exit_code(code));
    push_all(&mut m, ")\n");
    push_all(&mut m, stderr);
    m
}

} // verus!
