use vldb::duckdb_request::TimeSpan;
use vldb::json::Json;
use vldb::manager_service::{
    build_outcome_events, executable_name, format_duration, format_exit_code, log_line_text,
    normalize_probe_host, resolve_log_dir, select_config_source, service_spec_list, service_specs,
    service_config_from_text, service_status, start_paths, summarize_service_config, BackgroundEvent, BuildOutcome,
    BuildProfile, LogScope, ServiceId, ServiceStatus, Workspace,
};

fn obj(entries: Vec<(&str, Json)>) -> Json {
    Json::Object(entries.into_iter().map(|(k, v)| (k.to_string(), v)).collect())
}

#[test]
fn labels_and_profiles() {
    assert_eq!(ServiceId::LanceDb.label(), "vldb-lancedb");
    assert_eq!(ServiceId::DuckDb.short_label(), "DuckDB");
    assert_eq!(BuildProfile::Debug.toggle(), BuildProfile::Release);
    assert_eq!(BuildProfile::Release.toggle().toggle(), BuildProfile::Release);
    assert_eq!(BuildProfile::Release.cargo_flag(), Some("--release"));
    assert_eq!(BuildProfile::Debug.cargo_flag(), None);
    assert_eq!(LogScope::Stderr.label(), "stderr");
}

#[test]
fn spec_paths_follow_the_workspace_layout() {
    let specs = service_specs();
    let lance = specs[0];
    assert_eq!(lance.default_port, 19301);
    assert_eq!(specs[1].default_db_path, "./data/duckdb.db");
    assert_eq!(lance.directory("/ws"), "/ws/vldb-lancedb");
    assert_eq!(lance.manifest_path("/ws"), "/ws/vldb-lancedb/Cargo.toml");
    assert_eq!(lance.example_config_path("/ws"), "/ws/vldb-lancedb/vldb-lancedb.json.example");
    assert_eq!(lance.workspace_config_path("/ws/"), "/ws/vldb-lancedb/vldb-lancedb.json");
    assert_eq!(
        specs[1].binary_path("/ws", BuildProfile::Release, false),
        "/ws/vldb-duckdb/target/release/vldb-duckdb"
    );
    assert_eq!(
        specs[1].binary_path("/ws", BuildProfile::Debug, true),
        "/ws/vldb-duckdb/target/debug/vldb-duckdb.exe"
    );
    assert_eq!(executable_name("x", true), "x.exe");
    assert_eq!(service_spec_list().len(), 2);
}

#[test]
fn workspace_is_found_in_the_nearest_parent() {
    let ws = Workspace::discover("/home/me/vulcan/sub/dir", |p: &str| p == "/home/me/vulcan").unwrap();
    assert_eq!(ws.root, "/home/me/vulcan");
    assert_eq!(ws.services.len(), 2);
    let here = Workspace::discover("/w", |_p: &str| true).unwrap();
    assert_eq!(here.root, "/w");
    let err = Workspace::discover("/a/b", |_p: &str| false).unwrap_err();
    assert_eq!(err, "failed to locate workspace root from /a/b");
    let root = Workspace::discover("/a/b", |p: &str| p == "/").unwrap();
    assert_eq!(root.root, "/");
}

#[test]
fn config_source_prefers_the_workspace_config() {
    let spec = service_specs()[0];
    let (path, label) = select_config_source(spec, "/ws", |_p: &str| true).unwrap();
    assert_eq!(path, "/ws/vldb-lancedb/vldb-lancedb.json");
    assert_eq!(label, "workspace");
    let (path, label) =
        select_config_source(spec, "/ws", |p: &str| p.ends_with(".example")).unwrap();
    assert_eq!(path, "/ws/vldb-lancedb/vldb-lancedb.json.example");
    assert_eq!(label, "example");
    let err = select_config_source(spec, "/ws", |_p: &str| false).unwrap_err();
    assert_eq!(err, "missing config files for vldb-lancedb");
}

#[test]
fn starting_needs_a_binary_and_a_config() {
    let spec = service_specs()[1];
    let err = start_paths(spec, "/ws", BuildProfile::Debug, false, |_p: &str| false).unwrap_err();
    assert_eq!(
        err,
        "vldb-duckdb binary not found at /ws/vldb-duckdb/target/debug/vldb-duckdb. Build it first."
    );
    let err = start_paths(spec, "/ws", BuildProfile::Debug, false, |p: &str| p.ends_with("vldb-duckdb"))
        .unwrap_err();
    assert_eq!(err, "workspace config missing for vldb-duckdb at /ws/vldb-duckdb/vldb-duckdb.json");
    let (b, c) = start_paths(spec, "/ws", BuildProfile::Release, false, |_p: &str| true).unwrap();
    assert_eq!(b, "/ws/vldb-duckdb/target/release/vldb-duckdb");
    assert_eq!(c, "/ws/vldb-duckdb/vldb-duckdb.json");
}

#[test]
fn summary_reads_host_port_and_paths() {
    let spec = service_specs()[1];
    let config = obj(vec![
        ("host", Json::Str("0.0.0.0".to_string())),
        ("port", Json::UInt(65536 + 19402)),
        ("db_path", Json::Str("./data/../db/main.db".to_string())),
        ("logging", obj(vec![("log_file_name", Json::Str("d.log".to_string()))])),
    ]);
    let s = summarize_service_config(
        spec,
        "/ws",
        "/ws/vldb-duckdb/vldb-duckdb.json".to_string(),
        "workspace",
        "{}".to_string(),
        &config,
    );
    assert_eq!(s.host, "0.0.0.0");
    assert_eq!(s.probe_host, "127.0.0.1");
    assert_eq!(s.port, 19402);
    assert_eq!(s.db_path, "/ws/vldb-duckdb/db/main.db");
    assert_eq!(s.log_dir, "/ws/vldb-duckdb/db/main_log");
    assert_eq!(s.log_path, "/ws/vldb-duckdb/db/main_log/d.log");
}

#[test]
fn summary_defaults_come_from_the_spec() {
    let spec = service_specs()[0];
    let s = summarize_service_config(spec, "/ws", "/ws/vldb-lancedb/x.json".to_string(), "example", String::new(), &Json::Null);
    assert_eq!(s.host, "127.0.0.1");
    assert_eq!(s.port, 19301);
    assert_eq!(s.db_path, "/ws/vldb-lancedb/data");
    assert_eq!(s.log_dir, "/ws/vldb-lancedb/data/logs");
    assert_eq!(s.log_file_name, "vldb-lancedb.log");
}

#[test]
fn manager_log_dirs() {
    let lance = service_specs()[0];
    let duck = service_specs()[1];
    assert_eq!(resolve_log_dir(lance, "  ", "s3://b/x", "/etc/v"), "/etc/v/vldb-lancedb-logs");
    assert_eq!(resolve_log_dir(lance, "../logs", "/d", "/etc/v"), "/etc/logs");
    assert_eq!(resolve_log_dir(duck, "", "duck.db", "/etc/v"), "duck_log");
    assert_eq!(resolve_log_dir(duck, "", "/", "/etc/v"), "duckdb_log");
}

#[test]
fn probe_hosts() {
    assert_eq!(normalize_probe_host(" :: "), "127.0.0.1");
    assert_eq!(normalize_probe_host("[::]"), "127.0.0.1");
    assert_eq!(normalize_probe_host(""), "127.0.0.1");
    assert_eq!(normalize_probe_host(" 10.0.0.2 "), "10.0.0.2");
}

#[test]
fn durations_and_exit_codes() {
    assert_eq!(format_duration(TimeSpan::from_secs(5)), "5s");
    assert_eq!(format_duration(TimeSpan::from_secs(65)), "1m 05s");
    assert_eq!(format_duration(TimeSpan::from_secs(3 * 3600 + 7 * 60 + 9)), "3h 07m");
    assert_eq!(format_duration(TimeSpan::from_millis(999)), "0s");
    assert_eq!(format_exit_code(Some(-1)), "-1");
    assert_eq!(format_exit_code(None), "signal/unknown");
}

#[test]
fn status_precedence() {
    assert_eq!(service_status(true, true, true, true), ServiceStatus::Building);
    assert_eq!(service_status(false, true, false, false), ServiceStatus::Starting);
    assert_eq!(service_status(false, true, true, false), ServiceStatus::Running);
    assert_eq!(service_status(false, false, true, true), ServiceStatus::External);
    assert_eq!(service_status(false, false, false, true), ServiceStatus::Failed);
    assert_eq!(service_status(false, false, false, false), ServiceStatus::Stopped);
}

#[test]
fn build_outcomes_end_with_build_finished() {
    let events = build_outcome_events(ServiceId::DuckDb, BuildProfile::Release, BuildOutcome::SpawnFailed("no cargo".to_string()));
    assert_eq!(events.len(), 2);
    match &events[0] {
        BackgroundEvent::LogLine { line, .. } => assert_eq!(line, "failed to spawn cargo build: no cargo"),
        _ => panic!("expected a log line"),
    }
    match &events[1] {
        BackgroundEvent::BuildFinished { success, exit_code, .. } => {
            assert!(!success);
            assert_eq!(*exit_code, None);
        }
        _ => panic!("expected the end of the build"),
    }
    let events = build_outcome_events(ServiceId::LanceDb, BuildProfile::Debug, BuildOutcome::Exited { success: true, exit_code: Some(0) });
    assert_eq!(events.len(), 1);
}

#[test]
fn log_lines_lose_their_line_break() {
    assert_eq!(log_line_text("hello\r\n"), Some("hello".to_string()));
    assert_eq!(log_line_text("\n\r\n"), None);
    assert_eq!(log_line_text(" x "), Some(" x ".to_string()));
}

#[test]
fn config_text_is_parsed_then_summarized() {
    let spec = service_specs()[1];
    let text = r#"{"host": "0.0.0.0", "port": 19402, "db_path": "./db/main.db", "logging": {"log_file_name": "d.log"}}"#;
    let s = service_config_from_text(
        spec,
        "/ws",
        "/ws/vldb-duckdb/vldb-duckdb.json".to_string(),
        "workspace",
        text.to_string(),
    )
    .unwrap();
    assert_eq!(s.raw_text, text);
    assert_eq!(s.port, 19402);
    assert_eq!(s.db_path, "/ws/vldb-duckdb/db/main.db");
    assert_eq!(s.log_path, "/ws/vldb-duckdb/db/main_log/d.log");
    let bad = service_config_from_text(spec, "/ws", "/ws/x.json".to_string(), "example", "{ nope".to_string());
    assert_eq!(bad.unwrap_err(), "failed to parse /ws/x.json");
}
