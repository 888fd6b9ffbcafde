use vldb::json::Json;
use vldb::manager_archive::{find_asset, release_api_url, release_downloads, winsw_download_url, ReleaseAsset};
use vldb::manager_form::{configure_form, initialize_form, install_form, no_form_message, FieldKind, FormMode};
use vldb::manager_install::{instance_fields, InstalledInstance};
use vldb::manager_reports::{
    all_instances_message, binaries_updated_message, build_started_message, config_ready_message,
    error_line, failed_action_line, initialized_message, installed_message, instance_runtime_message,
    launcher_message, nothing_to_preview, preview_header, process_started_message,
    process_stopped_message, running_instances, session_started_message, shutdown_message,
    startup_launcher_message, uninstalled_all_message, uninstalled_message, unreadable_config_line,
    wrapper_source, FailedAction, WrapperSource,
};
use vldb::manager_service::{BuildProfile, ServiceId};
use vldb::manager_view::{no_instances_lines, no_selection_message, panel_title, spinner_frame, warning_label, Panel};

fn instance(service: ServiceId, name: &str, running: bool) -> InstalledInstance {
    InstalledInstance {
        service,
        instance_name: name.to_string(),
        config_path: format!("/opt/vldb/config/{}-{}.json", service.label(), name),
        host: "0.0.0.0".to_string(),
        port: 19401,
        db_path: format!("/srv/{name}"),
        service_name: format!("{}-{}", service.label(), name),
        registered: true,
        running,
    }
}

fn asset(name: &str) -> ReleaseAsset {
    ReleaseAsset { name: name.to_string(), url: format!("https://example.invalid/{name}") }
}

fn object(entries: Vec<(&str, Json)>) -> Json {
    Json::Object(entries.into_iter().map(|(k, v)| (k.to_string(), v)).collect())
}

#[test]
fn release_files_are_found_by_name() {
    assert_eq!(
        release_api_url(None),
        "https://api.github.com/repos/OpenVulcan/vulcan-local-db/releases/latest"
    );
    assert_eq!(
        release_api_url(Some("v1.2.0")),
        "https://api.github.com/repos/OpenVulcan/vulcan-local-db/releases/tags/v1.2.0"
    );
    assert!(winsw_download_url().ends_with("/v2.12.0/WinSW-x64.exe"));
    let assets = vec![
        asset("vldb-duckdb-v1-x86_64-unknown-linux-gnu.tar.gz.sha256"),
        asset("vldb-duckdb-v1-x86_64-unknown-linux-gnu.tar.gz"),
        asset("vldb-duckdb-v1-x86_64-pc-windows-msvc.zip"),
    ];
    assert_eq!(find_asset(&assets, "vldb-duckdb-v1-x86_64-pc-windows-msvc.zip"), Some(2));
    assert_eq!(find_asset(&assets, "other"), None);
    let (name, archive, checksum) =
        release_downloads("vldb-duckdb", "v1", "x86_64-unknown-linux-gnu", false, &assets).unwrap();
    assert_eq!(name, "vldb-duckdb-v1-x86_64-unknown-linux-gnu.tar.gz");
    assert_eq!(archive, "https://example.invalid/vldb-duckdb-v1-x86_64-unknown-linux-gnu.tar.gz");
    assert_eq!(checksum, "https://example.invalid/vldb-duckdb-v1-x86_64-unknown-linux-gnu.tar.gz.sha256");
    assert_eq!(
        release_downloads("vldb-duckdb", "v1", "x86_64-pc-windows-msvc", true, &assets).unwrap_err(),
        "release does not provide checksum vldb-duckdb-v1-x86_64-pc-windows-msvc.zip.sha256"
    );
    assert_eq!(
        release_downloads("vldb-lancedb", "v1", "x86_64-unknown-linux-gnu", false, &assets).unwrap_err(),
        "release does not provide asset vldb-lancedb-v1-x86_64-unknown-linux-gnu.tar.gz"
    );
}

#[test]
fn instance_config_fields() {
    let good = object(vec![
        ("host", Json::Str("127.0.0.1".to_string())),
        ("port", Json::Int(19401)),
        ("db_path", Json::Str("/srv/d".to_string())),
        ("service_name", Json::Null),
        ("threads", Json::Int(4)),
        ("logging", Json::Bool(true)),
    ]);
    let f = instance_fields(&good).unwrap();
    assert_eq!((f.host.as_str(), f.port, f.db_path.as_str(), f.service_name), ("127.0.0.1", 19401, "/srv/d", None));
    let named = object(vec![
        ("host", Json::Str("h".to_string())),
        ("port", Json::UInt(1)),
        ("db_path", Json::Str("d".to_string())),
        ("service_name", Json::Str("svc".to_string())),
    ]);
    assert_eq!(instance_fields(&named).unwrap().service_name, Some("svc".to_string()));
    let big_port = object(vec![
        ("host", Json::Str("h".to_string())),
        ("port", Json::Int(70000)),
        ("db_path", Json::Str("d".to_string())),
    ]);
    assert!(instance_fields(&big_port).is_none());
    let no_host = object(vec![("port", Json::Int(1)), ("db_path", Json::Str("d".to_string()))]);
    assert!(instance_fields(&no_host).is_none());
    let bad_memory = object(vec![
        ("host", Json::Str("h".to_string())),
        ("port", Json::Int(1)),
        ("db_path", Json::Str("d".to_string())),
        ("memory_limit", Json::Int(2)),
    ]);
    assert!(instance_fields(&bad_memory).is_none());
    assert!(instance_fields(&Json::Array(Vec::new())).is_none());
}

#[test]
fn forms_start_with_their_defaults() {
    let form = initialize_form("/srv/lance", "/srv/duck", "a".to_string(), "b".to_string());
    assert!(matches!(form.mode, FormMode::Initialize));
    let values: Vec<&str> = form.fields.iter().map(|f| f.value.as_str()).collect();
    assert_eq!(values, vec!["/srv/lance", "/srv/duck", "127.0.0.1", "19301", "19401", "a", "b"]);
    assert!(matches!(form.fields[3].kind, FieldKind::Number));
    let form = install_form(
        ServiceId::DuckDb,
        "main".to_string(),
        "0.0.0.0".to_string(),
        19402,
        "/srv/duck/main/duckdb.db".to_string(),
        "vldb-duckdb-main".to_string(),
    );
    assert_eq!(form.fields[0].value, "vldb-duckdb");
    match &form.fields[0].kind {
        FieldKind::Choice(options) => assert_eq!(options, &vec!["vldb-lancedb".to_string(), "vldb-duckdb".to_string()]),
        _ => panic!("the service field is a choice"),
    }
    assert_eq!(form.fields[3].value, "19402");
    let form = configure_form(instance(ServiceId::LanceDb, "a", true));
    let values: Vec<&str> = form.fields.iter().map(|f| f.value.as_str()).collect();
    assert_eq!(values, vec!["0.0.0.0", "19401", "/srv/a", "vldb-lancedb-a"]);
    assert_eq!(
        no_form_message(true, false),
        "The installation is already initialized. Add or edit instances instead."
    );
    assert_eq!(no_form_message(false, false), "There is no installed instance to configure.");
}

#[test]
fn action_reports() {
    let a = instance(ServiceId::DuckDb, "main", true);
    assert_eq!(instance_runtime_message(true, &a, false), "Started vldb-duckdb / main");
    assert_eq!(instance_runtime_message(false, &a, true), "已停止 vldb-duckdb / main");
    assert_eq!(all_instances_message(true, 3, false), "Started 3 instance(s)");
    assert_eq!(all_instances_message(false, 0, true), "已停止 0 个实例");
    assert_eq!(
        uninstalled_message(&a, false),
        "Uninstalled instance vldb-duckdb / main. Database files are preserved at /srv/main"
    );
    assert_eq!(
        uninstalled_all_message(false),
        "Program files have been removed, and database directories were preserved."
    );
    assert_eq!(installed_message(ServiceId::LanceDb, "x", false), "Installed instance vldb-lancedb / x");
    assert_eq!(initialized_message("v0.4.0", false), "Initialization complete. Current release: v0.4.0");
    assert_eq!(binaries_updated_message("v0.4.0", true), "应用二进制已更新到 v0.4.0");
    assert_eq!(launcher_message(true, false), "Removed the vldb manager launcher.");
    assert_eq!(launcher_message(false, false), "Refreshed the current vldb launcher.");
    assert_eq!(shutdown_message(2, false), "Shut down 2 managed workspace service(s) before exit");
    assert_eq!(
        failed_action_line(FailedAction::CheckUpdates, "timeout", false),
        "failed to check updates: timeout"
    );
    assert_eq!(failed_action_line(FailedAction::StopAll, "x", true), "全部停止警告: x");
    assert_eq!(session_started_message(false), "VLDB manager session started.");
    assert_eq!(startup_launcher_message(None, false), "Refreshed the vldb manager launcher.");
    assert_eq!(startup_launcher_message(Some("denied"), false), "failed to refresh launcher: denied");
    assert_eq!(error_line("boom", false), "ERROR: boom");
    assert_eq!(config_ready_message("/w/a.json", false), "Workspace config ready at /w/a.json");
    assert_eq!(build_started_message(BuildProfile::Debug, false), "Started debug build");
    assert_eq!(
        process_started_message(42, BuildProfile::Release, "/w/x.json", false),
        "Started with PID 42 using release (/w/x.json)"
    );
    assert_eq!(process_stopped_message(42, Some(0), false), "Stopped process 42 0");
    assert_eq!(preview_header("/w/x.json", Some("workspace"), false), vec!["source: /w/x.json (workspace)", ""]);
    assert_eq!(preview_header("/w/x.json", None, true), vec!["来源: /w/x.json", ""]);
    assert_eq!(nothing_to_preview(true, false), "No workspace config file found yet.");
    assert_eq!(nothing_to_preview(false, false), "There are no installed instances yet.");
    assert_eq!(unreadable_config_line("gone", false), "failed to read config: gone");
}

#[test]
fn decisions_around_installed_instances() {
    assert_eq!(wrapper_source(true, false, "aarch64", false).unwrap(), WrapperSource::Cached);
    assert_eq!(wrapper_source(false, true, "x86_64", false).unwrap(), WrapperSource::Download);
    assert_eq!(
        wrapper_source(false, false, "x86_64", false).unwrap_err(),
        "WinSW is only available on Windows"
    );
    assert_eq!(
        wrapper_source(false, true, "aarch64", false).unwrap_err(),
        "The bundled WinSW bootstrap currently supports only x64 Windows"
    );
    let list = vec![
        instance(ServiceId::DuckDb, "a", true),
        instance(ServiceId::DuckDb, "b", false),
        instance(ServiceId::LanceDb, "c", true),
    ];
    let names: Vec<String> = running_instances(list).into_iter().map(|i| i.instance_name).collect();
    assert_eq!(names, vec!["a", "c"]);
}

#[test]
fn screen_labels() {
    assert_eq!(panel_title(Panel::Overview, false), "Overview");
    assert_eq!(panel_title(Panel::WorkspaceConfig, true), "工作区配置预览");
    assert_eq!(no_instances_lines(false).1, "Press `i` to initialize, or `n` to add one instance.");
    assert_eq!(no_selection_message(false), "No instance selected.");
    assert_eq!(warning_label(true, false), "Attention");
    assert_eq!(warning_label(false, false), "Warning");
    assert_eq!(spinner_frame(0), "⠁");
    assert_eq!(spinner_frame(9), "⠂");
    assert_eq!(spinner_frame(7), "⠠");
}
