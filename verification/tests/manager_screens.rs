use vldb::manager_commands::{
    command_failure, launchctl_args, launchd_service_running, launchd_target, powershell_failure,
    remove_task_script, running_query_script, service_delete_error, service_script,
    stop_before_delete_script, systemctl_args, windows_service_running, UnitAction,
};
use vldb::manager_configure::{configure_step, ConfigureAction, ConfigurePlan, ConfigureState};
use vldb::manager_form::{choice_field, text_field, ActivePage, ConfirmAction, FormFieldKey, FormMode, FormState};
use vldb::manager_install::InstalledInstance;
use vldb::manager_keys::{
    confirm_key_outcome, failure_line, main_command, no_instance_message, profile_switched_message,
    remove_launcher_question, uninstall_all_question, uninstall_question, update_question, update_report,
    ConfirmKeyOutcome, MainKey, ManagerCommand,
};
use vldb::manager_service::{service_specs, BuildProfile, ServiceId, ServiceStatus};
use vldb::manager_session::{
    begin_build, finish_build, record_config_failure, record_exit, record_poll_failure, record_start, record_stop,
    RunState,
};
use vldb::manager_view::{
    confirm_hint, confirm_popup_width, footer_lines, form_lines, form_popup_size, header_lines,
    no_output_message, pad_left_exec, popup_margins, service_list_item,
};

fn instance(service: ServiceId, name: &str) -> InstalledInstance {
    InstalledInstance {
        service,
        instance_name: name.to_string(),
        config_path: format!("/opt/vldb/config/{}-{}.json", service.label(), name),
        host: "127.0.0.1".to_string(),
        port: 19301,
        db_path: format!("/data/{name}"),
        service_name: format!("{}-{}", service.label(), name),
        registered: true,
        running: true,
    }
}

fn run(plan: ConfigurePlan, events: Vec<Result<bool, String>>) -> (Vec<String>, Result<String, String>) {
    let mut state = ConfigureState::Begin;
    let mut actions = Vec::new();
    let mut event = Ok(true);
    let mut queue = events.into_iter();
    loop {
        let (next, action) = configure_step(plan, state, event);
        state = next;
        match action {
            ConfigureAction::Finish(result) => return (actions, result),
            other => actions.push(format!("{other:?}")),
        }
        event = queue.next().unwrap_or(Ok(true));
    }
}

#[test]
fn renaming_a_running_instance() {
    let plan = ConfigurePlan { rename: true, running: true, registered: true, zh: false };
    let (actions, result) = run(plan, vec![]);
    assert_eq!(actions, vec!["StopOriginal", "WriteConfig", "UnregisterOriginal", "Register", "Save"]);
    assert_eq!(
        result.unwrap(),
        "Configuration updated, and the service registration name has been refreshed."
    );
}

#[test]
fn a_failed_registration_is_undone() {
    let plan = ConfigurePlan { rename: true, running: false, registered: true, zh: false };
    let (actions, result) = run(plan, vec![Ok(true), Ok(true), Err("boom".to_string())]);
    assert_eq!(actions, vec!["WriteConfig", "UnregisterOriginal", "Register", "RestoreBackup", "Register"]);
    assert_eq!(result.unwrap_err(), "boom");
}

#[test]
fn a_failed_restart_starts_the_old_service() {
    let plan = ConfigurePlan { rename: false, running: true, registered: true, zh: true };
    let (actions, result) = run(plan, vec![Ok(true), Ok(true), Err("start failed".to_string())]);
    assert_eq!(actions, vec!["StopOriginal", "WriteConfig", "StartRequested", "RestoreBackup", "StartOriginal"]);
    assert_eq!(result.unwrap_err(), "start failed");
    let (_, ok) = run(plan, vec![]);
    assert_eq!(ok.unwrap(), "配置已更新，服务已自动重启。");
}

#[test]
fn a_stopped_instance_gets_registered_when_missing() {
    let plan = ConfigurePlan { rename: false, running: false, registered: true, zh: false };
    let (actions, result) = run(plan, vec![Ok(true), Ok(false), Ok(true)]);
    assert_eq!(actions, vec!["WriteConfig", "CheckRequestedRegistered", "Register", "Save"]);
    assert_eq!(result.unwrap(), "Configuration updated. The new settings will take effect on the next start.");
}

#[test]
fn keys_map_to_commands() {
    assert_eq!(main_command(MainKey::CtrlC, true, ActivePage::Installed), ManagerCommand::Quit);
    assert_eq!(main_command(MainKey::Char('q'), true, ActivePage::Installed), ManagerCommand::ToModal);
    assert_eq!(main_command(MainKey::Char('q'), false, ActivePage::Output), ManagerCommand::Quit);
    assert_eq!(main_command(MainKey::Tab, false, ActivePage::Installed), ManagerCommand::NextPage);
    assert_eq!(main_command(MainKey::Char('l'), false, ActivePage::Installed), ManagerCommand::NextPage);
    assert_eq!(main_command(MainKey::Char('h'), false, ActivePage::Installed), ManagerCommand::PreviousPage);
    assert_eq!(main_command(MainKey::Char('l'), false, ActivePage::Workspace), ManagerCommand::NextPage);
    assert_eq!(main_command(MainKey::BackTab, false, ActivePage::Installed), ManagerCommand::PreviousPage);
    assert_eq!(
        main_command(MainKey::Char('2'), false, ActivePage::Installed),
        ManagerCommand::ShowPage(ActivePage::Workspace)
    );
    assert_eq!(main_command(MainKey::Char('s'), false, ActivePage::Installed), ManagerCommand::StartInstance);
    assert_eq!(main_command(MainKey::Char('s'), false, ActivePage::Workspace), ManagerCommand::StartService);
    assert_eq!(main_command(MainKey::Char('s'), false, ActivePage::Output), ManagerCommand::Nothing);
    assert_eq!(main_command(MainKey::Down, false, ActivePage::Workspace), ManagerCommand::NextService);
    assert_eq!(main_command(MainKey::Char('w'), false, ActivePage::Installed), ManagerCommand::ConfirmUninstallAll);
    assert_eq!(main_command(MainKey::Char('w'), false, ActivePage::Workspace), ManagerCommand::Nothing);
    assert_eq!(confirm_key_outcome(MainKey::Char('y')), ConfirmKeyOutcome::Accept);
    assert_eq!(confirm_key_outcome(MainKey::Esc), ConfirmKeyOutcome::Decline);
    assert_eq!(confirm_key_outcome(MainKey::Char('x')), ConfirmKeyOutcome::KeepOpen);
}

#[test]
fn questions_and_history_lines() {
    let q = update_question(false);
    assert_eq!(q.title, "Update Service Binaries");
    assert!(matches!(q.action, ConfirmAction::UpdateBinaries));
    assert_eq!(remove_launcher_question(true).title, "移除管理入口");
    assert!(matches!(uninstall_all_question(false).action, ConfirmAction::UninstallAll));
    assert_eq!(uninstall_question(None, false).unwrap_err(), "There is no installed instance to remove.");
    let q = uninstall_question(Some(instance(ServiceId::DuckDb, "main")), false).unwrap();
    assert_eq!(q.message, "Uninstall vldb-duckdb / main");
    assert_eq!(no_instance_message(true, false), "There is no installed instance to start.");
    assert_eq!(no_instance_message(false, true), "当前没有可停止的实例。");
    assert_eq!(
        update_report(false, "0.3.0", Some("v0.4.0"), None),
        "Update check complete manager=0.3.0 latest=v0.4.0 binaries=not installed"
    );
    assert_eq!(failure_line("failed to refresh launcher", "denied"), "failed to refresh launcher: denied");
    assert_eq!(profile_switched_message(false, BuildProfile::Release), "Active build profile switched to release");
}

#[test]
fn form_dialog_text() {
    let form = FormState {
        mode: FormMode::Configure(instance(ServiceId::LanceDb, "a")),
        fields: vec![
            choice_field(
                FormFieldKey::Service,
                vec!["vldb-lancedb".to_string(), "vldb-duckdb".to_string()],
                "vldb-lancedb".to_string(),
            ),
            text_field(FormFieldKey::Port, "19301".to_string()),
        ],
        selected_index: 1,
    };
    let lines = form_lines(&form, false);
    assert_eq!(lines[0], "target: vldb-lancedb / a");
    assert_eq!(lines[1], "");
    assert_eq!(lines[2], "         Service: LanceDB (vldb-lancedb)  ◀ ▶");
    assert_eq!(lines[3], ">           Port: 19301");
    assert_eq!(lines[4], "");
    assert_eq!(lines[5], "Adjust host/port/data path/service name, then press Enter to save.");
    assert_eq!(lines.len(), 6);
    assert_eq!(pad_left_exec("abc", 5), "  abc");
    assert_eq!(pad_left_exec("abcdef", 5), "abcdef");
}

#[test]
fn screen_texts_and_sizes() {
    let (title, places) = header_lines(false, "en", None, "/w", "/opt/vldb", "2024-01-01 10:00:00");
    assert_eq!(title, "  Cross-platform control plane | lang en | release not installed");
    assert_eq!(places, "workspace /w   install /opt/vldb   session 2024-01-01 10:00:00");
    let specs = service_specs();
    let (a, b) = service_list_item(&specs[1], ServiceStatus::Running, None, false);
    assert_eq!(a, format!("{}  RUNNING", specs[1].folder_name));
    assert_eq!(b, format!("SQL Gateway  :{}", specs[1].default_port));
    let (_, b) = service_list_item(&specs[0], ServiceStatus::Stopped, Some(7000), true);
    assert_eq!(b, "向量网关  :7000");
    assert_eq!(form_popup_size(7, false, 200, 50), (84, 13));
    assert_eq!(form_popup_size(7, true, 60, 10), (56, 10));
    assert_eq!(confirm_popup_width(3), 0);
    assert_eq!(confirm_popup_width(100), 72);
    assert_eq!(popup_margins(100, 40, 72, 8), (14, 16));
    assert_eq!(popup_margins(10, 5, 72, 8), (0, 0));
    assert_eq!(confirm_hint(false), "Press Enter / y to confirm, Esc / n to cancel.");
    assert_eq!(no_output_message(false), "No output captured yet.");
    assert_eq!(footer_lines(ActivePage::Output, false), vec!["Navigation: Tab/Left/Right switch page", "Action: `q` quit"]);
    assert_eq!(footer_lines(ActivePage::Installed, true).len(), 5);
}

#[test]
fn service_manager_commands() {
    assert_eq!(systemctl_args(true, UnitAction::Enable, "svc"), vec!["enable", "--now", "svc.service"]);
    assert_eq!(systemctl_args(false, UnitAction::DaemonReload, "svc"), vec!["--user", "daemon-reload"]);
    assert_eq!(
        systemctl_args(false, UnitAction::IsActive, "svc"),
        vec!["--user", "is-active", "--quiet", "svc.service"]
    );
    assert_eq!(launchctl_args(false, "/p.plist"), vec!["unload", "-w", "/p.plist"]);
    assert_eq!(
        service_script(true, "it's"),
        "Start-Service -Name 'it''s' -ErrorAction SilentlyContinue; $svc = Get-Service -Name 'it''s' -ErrorAction Stop; $svc.WaitForStatus([System.ServiceProcess.ServiceControllerStatus]::Running, [TimeSpan]::FromSeconds(20))"
    );
    assert!(running_query_script("a").ends_with("{ 'running' }"));
    assert!(windows_service_running("  running\r\n"));
    assert!(!windows_service_running("stopped"));
    assert_eq!(
        remove_task_script("a"),
        "Unregister-ScheduledTask -TaskName 'a' -Confirm:$false -ErrorAction SilentlyContinue"
    );
    assert!(stop_before_delete_script("a").contains("Stop-Service -Name 'a' -Force"));
    assert_eq!(service_delete_error(false, "The specified service DOES NOT EXIST.", "a"), None);
    assert_eq!(
        service_delete_error(false, "Access denied", "a").unwrap(),
        "failed to delete Windows service a: Access denied"
    );
    assert_eq!(service_delete_error(true, "Access denied", "a"), None);
    assert_eq!(launchd_target(false, 501, "svc"), "gui/501/svc");
    assert_eq!(launchd_target(true, 0, "svc"), "system/svc");
    assert!(launchd_service_running(true, "state = running\n\tpid = 42\n"));
    assert!(!launchd_service_running(false, "pid = 42"));
    assert_eq!(
        command_failure("systemctl", "start a.service", Some(5), "oops"),
        "command failed: systemctl start a.service (exit 5)\noops"
    );
    assert_eq!(powershell_failure(None, "x"), "PowerShell command failed (exit signal/unknown)\nx");
}

#[test]
fn run_state_follows_builds_and_processes() {
    let mut run = RunState { build_running: false, last_build: None, last_exit: None, last_error: Some("old".to_string()) };
    begin_build(&mut run);
    assert!(run.build_running && run.last_error.is_none());
    let line = finish_build(&mut run, ServiceId::DuckDb, BuildProfile::Release, false, Some(101), "t1".to_string(), false);
    assert!(!run.build_running);
    let b = run.last_build.clone().unwrap();
    assert!(!b.success && b.exit_code == Some(101) && b.finished_at == "t1");
    assert_eq!(run.last_error.as_deref(), Some("Build failed with exit code 101"));
    assert!(line.ends_with("failed (exit: 101)"));
    finish_build(&mut run, ServiceId::DuckDb, BuildProfile::Release, true, Some(0), "t2".to_string(), false);
    assert!(run.last_error.is_none());
    record_start(&mut run);
    let line = record_exit(&mut run, "vldb-duckdb", Some(3), false, "t3".to_string(), false);
    assert_eq!(line, "vldb-duckdb process exited with 3");
    assert_eq!(run.last_error.as_deref(), Some("vldb-duckdb exited unexpectedly with 3"));
    assert_eq!(run.last_exit.clone().unwrap().finished_at, "t3");
    record_poll_failure(&mut run, "gone", false);
    assert_eq!(run.last_error.as_deref(), Some("Failed to poll process: gone"));
    record_stop(&mut run, None, "t4".to_string());
    assert!(run.last_error.is_none() && run.last_exit.clone().unwrap().exit_code.is_none());
    record_config_failure(&mut run, "bad json".to_string());
    assert_eq!(run.last_error.as_deref(), Some("bad json"));
    assert!(run.last_build.unwrap().success);
}
