use std::cmp::Ordering;
use std::io::Write;

use vldb::json::Json;
use vldb::manager_archive::{
    checksum_matches, extract_tar_service_archive, extract_zip_service_archive, pick_release_files, to_hex_lower,
    verify_sha256,
};
use vldb::manager_install::{
    default_instance_data_path, default_logging_value, detect_target_triple, global_launcher_path,
    instance_config_from_text, instance_config_path, logging_value, instance_config_value, instance_fields, is_instance_config_file_name, legacy_service_name,
    manager_layout, parse_instance_meta, parse_ipv4, port_conflict_message, ps_literal,
    runner_script, service_binary_path, string_option, systemd_unit, systemd_unit_path,
    toggled_language, uses_chinese, validate_bind_ip, validate_distinct_ports,
    validate_instance_name, validate_port, validate_service_name, windows_launcher_scripts,
    xml_escape, InstalledInstance, InstanceRequest,
};
use vldb::manager_service::ServiceId;
use vldb::versions::{update_check, version_compare};

fn instance(service: ServiceId, name: &str, port: u16, service_name: &str) -> InstalledInstance {
    InstalledInstance {
        service,
        instance_name: name.to_string(),
        config_path: format!("/opt/vldb/config/{}-{}.json", service.label(), name),
        host: "127.0.0.1".to_string(),
        port,
        db_path: format!("/data/{name}"),
        service_name: service_name.to_string(),
        registered: true,
        running: false,
    }
}

#[test]
fn display_and_legacy_names() {
    let i = instance(ServiceId::LanceDb, "default", 19301, "vldb-lancedb-default");
    assert_eq!(i.display_name(), "vldb-lancedb / default");
    assert_eq!(legacy_service_name(ServiceId::DuckDb, "a"), "vldb-duckdb-a");
}

#[test]
fn instance_meta_comes_from_the_file_name() {
    let (s, n) = parse_instance_meta("/opt/vldb/config/vldb-duckdb-main.json").unwrap();
    assert_eq!(s, ServiceId::DuckDb);
    assert_eq!(n, "main");
    let (s, n) = parse_instance_meta("vldb-lancedb-a.b.json").unwrap();
    assert_eq!(s, ServiceId::LanceDb);
    assert_eq!(n, "a.b");
    assert_eq!(
        parse_instance_meta("/x/other.json").unwrap_err(),
        "unsupported instance config file /x/other.json"
    );
    assert_eq!(parse_instance_meta("/").unwrap_err(), "invalid config file name");
    assert!(is_instance_config_file_name("vldb-duckdb-x.json"));
    assert!(!is_instance_config_file_name("vldb-duckdb-x.yaml"));
}

#[test]
fn language_settings() {
    assert!(uses_chinese("zh-CN"));
    assert!(!uses_chinese("en"));
    assert_eq!(toggled_language("zh-CN"), "en");
    assert_eq!(toggled_language("en"), "zh-CN");
    assert_eq!(string_option("  ".to_string()), None);
    assert_eq!(string_option("v1".to_string()), Some("v1".to_string()));
}

#[test]
fn instance_names() {
    assert!(validate_instance_name("a-1_b", false).is_ok());
    assert_eq!(validate_instance_name("", false).unwrap_err(), "Instance name cannot be empty");
    assert_eq!(validate_instance_name("", true).unwrap_err(), "实例名称不能为空");
    assert!(validate_instance_name("-a", false).is_err());
    assert!(validate_instance_name(&"a".repeat(33), false).is_err());
    assert!(validate_instance_name(&"a".repeat(32), false).is_ok());
}

#[test]
fn service_names_must_be_free() {
    let list = vec![
        instance(ServiceId::LanceDb, "default", 19301, "vldb-lancedb-default"),
        instance(ServiceId::DuckDb, "default", 19401, "vldb-duckdb-default"),
    ];
    assert_eq!(
        validate_service_name("VLDB-DUCKDB-DEFAULT", ServiceId::LanceDb, "x", None, &list, |_s: &str| false, false)
            .unwrap_err(),
        "Service name conflicts with vldb-duckdb/default: vldb-duckdb-default"
    );
    assert!(validate_service_name("vldb-duckdb-default", ServiceId::DuckDb, "default", None, &list, |_s: &str| false, false).is_ok());
    assert_eq!(
        validate_service_name("new.svc", ServiceId::DuckDb, "n", None, &list, |_s: &str| true, false).unwrap_err(),
        "A service with the same name already exists: new.svc"
    );
    assert!(validate_service_name("new.svc", ServiceId::DuckDb, "n", Some("NEW.svc"), &list, |_s: &str| true, false).is_ok());
    assert!(validate_service_name(".svc", ServiceId::DuckDb, "n", None, &list, |_s: &str| false, false).is_err());
}

#[test]
fn ports_must_be_free_and_distinct() {
    let list = vec![instance(ServiceId::LanceDb, "default", 19301, "a")];
    assert_eq!(
        port_conflict_message(19301, ServiceId::DuckDb, "x", &list, false).unwrap(),
        "Port 19301 is already reserved by vldb-lancedb/default, please choose another port"
    );
    assert!(port_conflict_message(19301, ServiceId::LanceDb, "default", &list, false).is_none());
    assert_eq!(
        validate_port(0, ServiceId::DuckDb, "x", None, None, &list, |_s: &str| false, |_p: u16| true, false).unwrap_err(),
        "Port must be between 1 and 65535"
    );
    assert_eq!(
        validate_port(8080, ServiceId::DuckDb, "x", None, None, &list, |_s: &str| false, |_p: u16| false, false).unwrap_err(),
        "Port 8080 is already in use by another service, container, or process. Please choose another port"
    );
    assert!(validate_port(8080, ServiceId::DuckDb, "x", Some(8080), Some("svc"), &list, |_s: &str| true, |_p: u16| false, false).is_ok());
    assert_eq!(
        validate_distinct_ports(1, 1, false).unwrap_err(),
        "LanceDB and DuckDB must use different ports"
    );
    assert!(validate_distinct_ports(1, 2, true).is_ok());
}

#[test]
fn ipv4_addresses() {
    assert_eq!(parse_ipv4("127.0.0.1"), Some([127, 0, 0, 1]));
    assert_eq!(parse_ipv4("+1.2.3.4"), Some([1, 2, 3, 4]));
    assert_eq!(parse_ipv4("256.0.0.1"), None);
    assert_eq!(parse_ipv4("1.2.3"), None);
    assert_eq!(parse_ipv4("1..2.3"), None);
    assert!(validate_bind_ip("0.0.0.0", false).is_ok());
    assert_eq!(
        validate_bind_ip("localhost", false).unwrap_err(),
        "Bind IP is invalid. Please enter a valid IPv4 address"
    );
}

#[test]
fn versions_compare_number_by_number() {
    assert_eq!(version_compare("v0.10.0", "0.9.9"), Ordering::Greater);
    assert_eq!(version_compare("1.2", "1.2.0"), Ordering::Equal);
    assert_eq!(version_compare("1.2.0-beta", "1.2.1"), Ordering::Less);
    assert_eq!(version_compare("vv2", "1.99"), Ordering::Greater);
    assert_eq!(version_compare("", "0"), Ordering::Equal);
    assert_eq!(version_compare("v0.2.0", "0.1.24"), Ordering::Greater);
    assert_eq!(version_compare("0.1.24", "0.1.3"), Ordering::Greater);
    assert_eq!(version_compare("1.0", "v1.0.0"), Ordering::Equal);
    assert_eq!(version_compare("0.1.3", "0.1.24"), Ordering::Less);
    let check = update_check("0.1.0".to_string(), "v0.2.0".to_string(), Some("v0.2.0".to_string()));
    assert!(check.manager_update_available);
    assert!(!check.binary_update_available);
    let check = update_check("0.3.0".to_string(), "v0.2.0".to_string(), None);
    assert!(!check.manager_update_available);
    assert!(check.binary_update_available);
}

#[test]
fn escaping_for_scripts_and_xml() {
    assert_eq!(ps_literal("it's"), "it''s");
    assert_eq!(xml_escape("<a & 'b'>\""), "&lt;a &amp; &apos;b&apos;&gt;&quot;");
    let (cmd, ps1) = windows_launcher_scripts("C:\\a \"b\"\\vldb.exe");
    assert_eq!(cmd, "@echo off\r\n\"C:\\a \"\"b\"\"\\vldb.exe\" %*\r\n");
    assert_eq!(ps1, "& \"C:\\a \"\"b\"\"\\vldb.exe\" @args\r\n");
}

#[test]
fn service_files() {
    assert_eq!(
        runner_script("/opt/bin/vldb-duckdb", "/opt/config/x.json"),
        "#!/usr/bin/env bash\nexec \"/opt/bin/vldb-duckdb\" --config \"/opt/config/x.json\"\n"
    );
    let unit = systemd_unit("svc", "/run/x.sh", "/opt/vldb", false);
    assert!(unit.starts_with("[Unit]\nDescription=svc\n"));
    assert!(unit.ends_with("WantedBy=default.target\n"));
    assert_eq!(systemd_unit_path("svc", true, None).unwrap(), "/etc/systemd/system/svc.service");
    assert_eq!(
        systemd_unit_path("svc", false, Some("/home/u")).unwrap(),
        "/home/u/.config/systemd/user/svc.service"
    );
    assert_eq!(systemd_unit_path("svc", false, None).unwrap_err(), "failed to resolve user home directory");
    assert_eq!(global_launcher_path("/opt/vldb", false, false, Some("/home/u")), "/home/u/.local/bin/vldb");
    assert_eq!(global_launcher_path("/opt/vldb", true, false, None), "/opt/vldb/bin/vldb");
    assert_eq!(instance_config_path("/opt/vldb/config", ServiceId::DuckDb, "x"), "/opt/vldb/config/vldb-duckdb-x.json");
    assert_eq!(service_binary_path("/opt/vldb/bin", ServiceId::LanceDb, true), "/opt/vldb/bin/vldb-lancedb.exe");
    assert_eq!(default_instance_data_path("/l", "/d", ServiceId::DuckDb, "x"), "/d/x/duckdb.db");
    let layout = manager_layout("/home/u", "/opt/vldb");
    assert_eq!(layout.global_config_path, "/home/u/.vulcan/vldb/config.json");
    assert_eq!(layout.examples_dir, "/opt/vldb/share/examples");
}

#[test]
fn platform_targets() {
    assert_eq!(detect_target_triple("linux", "x86_64").unwrap(), "x86_64-unknown-linux-gnu");
    assert_eq!(detect_target_triple("macos", "aarch64").unwrap(), "aarch64-apple-darwin");
    assert_eq!(detect_target_triple("freebsd", "x86_64").unwrap_err(), "unsupported platform freebsd/x86_64");
}

#[test]
fn instance_config_documents() {
    let logging = default_logging_value(ServiceId::DuckDb);
    assert_eq!(logging.get("sql_preview_chars").and_then(|v| v.as_i64()), Some(160));
    let req = InstanceRequest {
        service: ServiceId::DuckDb,
        instance_name: "x".to_string(),
        bind_host: "0.0.0.0".to_string(),
        port: 19402,
        data_path: "/d/x/duckdb.db".to_string(),
        service_name: "svc".to_string(),
    };
    let doc = instance_config_value(&req, None);
    assert_eq!(doc.get("port").and_then(|v| v.as_u64()), Some(19402));
    assert_eq!(doc.get("memory_limit").and_then(|v| v.as_str()).map(|s| s.as_str()), Some("2GB"));
    assert_eq!(doc.get("threads").and_then(|v| v.as_i64()), Some(4));
    assert!(doc.get("logging").and_then(|l| l.get("log_file_name")).is_some());
    let kept = instance_config_value(&req, Some(Json::Null));
    assert!(kept.get("logging").map(|l| l.is_null()).unwrap_or(false));
}

#[test]
fn written_instance_config_reads_back() {
    let req = InstanceRequest {
        service: ServiceId::LanceDb,
        instance_name: "alpha".to_string(),
        bind_host: "127.0.0.1".to_string(),
        port: 19301,
        data_path: "/srv/lance/alpha".to_string(),
        service_name: "vldb-lancedb-alpha".to_string(),
    };
    let fields = instance_fields(&instance_config_value(&req, None)).unwrap();
    assert_eq!(fields.host, "127.0.0.1");
    assert_eq!(fields.port, 19301);
    assert_eq!(fields.db_path, "/srv/lance/alpha");
    assert_eq!(fields.service_name, Some("vldb-lancedb-alpha".to_string()));
}

#[test]
fn checksums_compare_the_hex_digest() {
    let data = b"abc";
    let good = "ba7816bf8f01cfea414140de5dae2223b00361a396177a9cb410ff61f20015ad  vldb.tar.gz\n";
    assert!(verify_sha256(data, good).is_ok());
    assert!(verify_sha256(data, &good.to_uppercase()).is_ok());
    assert_eq!(verify_sha256(data, "00 x").unwrap_err(), "checksum verification failed");
    assert_eq!(verify_sha256(data, " \n ").unwrap_err(), "invalid checksum file");
    assert_eq!(to_hex_lower(&vec![0, 15, 255]), "000fff");
}

fn tar_gz(entries: &[(&str, &[u8])]) -> Vec<u8> {
    let mut builder = tar::Builder::new(Vec::new());
    for (name, data) in entries {
        let mut header = tar::Header::new_gnu();
        header.set_size(data.len() as u64);
        header.set_mode(0o755);
        header.set_cksum();
        builder.append_data(&mut header, name, *data).unwrap();
    }
    let tar_bytes = builder.into_inner().unwrap();
    let mut gz = flate2::write::GzEncoder::new(Vec::new(), flate2::Compression::default());
    gz.write_all(&tar_bytes).unwrap();
    gz.finish().unwrap()
}

#[test]
fn release_archives_yield_program_and_example() {
    let archive = tar_gz(&[
        ("pkg/README.md", b"r"),
        ("pkg/vldb-duckdb", b"bin"),
        ("pkg/vldb-duckdb.json.example", b"{}"),
    ]);
    let (program, example) = extract_tar_service_archive(&archive, "vldb-duckdb").unwrap();
    assert_eq!(program, b"bin");
    assert_eq!(example, b"{}");
    let only_program = tar_gz(&[("vldb-duckdb", b"bin")]);
    assert_eq!(
        extract_tar_service_archive(&only_program, "vldb-duckdb").unwrap_err(),
        "missing vldb-duckdb.json.example in archive"
    );
    assert!(extract_tar_service_archive(b"not an archive", "vldb-duckdb").is_err());

    let mut zip_bytes = std::io::Cursor::new(Vec::new());
    {
        let mut writer = zip::ZipWriter::new(&mut zip_bytes);
        let options = zip::write::SimpleFileOptions::default();
        writer.start_file("pkg\\vldb-lancedb.exe", options).unwrap();
        writer.write_all(b"exe").unwrap();
        writer.finish().unwrap();
    }
    let zip_data = zip_bytes.into_inner();
    assert_eq!(
        extract_zip_service_archive(&zip_data, "vldb-lancedb").unwrap_err(),
        "missing vldb-lancedb.json.example in archive"
    );
}

#[test]
fn only_the_release_entries_are_read() {
    let mut zip_bytes = std::io::Cursor::new(Vec::new());
    {
        let mut writer = zip::ZipWriter::new(&mut zip_bytes);
        let stored = zip::write::SimpleFileOptions::default().compression_method(zip::CompressionMethod::Stored);
        writer.start_file("pkg/NOTES.txt", stored).unwrap();
        writer.write_all(b"UNRELATED-CONTENT").unwrap();
        writer.start_file("pkg/vldb-lancedb.exe", stored).unwrap();
        writer.write_all(b"exe").unwrap();
        writer.start_file("pkg/vldb-lancedb.json.example", stored).unwrap();
        writer.write_all(b"{}").unwrap();
        writer.finish().unwrap();
    }
    let mut data = zip_bytes.into_inner();
    let at = data.windows(9).position(|w| w == b"UNRELATED").unwrap();
    data[at] = b'X';
    let (program, example) = extract_zip_service_archive(&data, "vldb-lancedb").unwrap();
    assert_eq!(program, b"exe");
    assert_eq!(example, b"{}");
}

#[test]
fn release_files_are_picked_from_given_entries() {
    let entries = vec![
        ("a/vldb-duckdb".to_string(), b"old".to_vec()),
        ("a/vldb-duckdb.json.example".to_string(), b"{}".to_vec()),
        ("b\\vldb-duckdb".to_string(), b"new".to_vec()),
    ];
    let (program, example) = pick_release_files(entries, "vldb-duckdb", true, "vldb-duckdb").unwrap();
    assert_eq!(program, b"new");
    assert_eq!(example, b"{}");
    let none: Vec<(String, Vec<u8>)> = vec![("x.exe".to_string(), b"e".to_vec())];
    assert_eq!(
        pick_release_files(none, "vldb-lancedb", false, "vldb-lancedb.exe").unwrap_err(),
        "missing vldb-lancedb.exe in archive"
    );
}

#[test]
fn checksum_text_is_matched_against_the_digest() {
    let digest = vec![0xabu8, 0x01, 0xff];
    assert!(checksum_matches(&digest, "ab01ff  file.tar.gz"));
    assert!(checksum_matches(&digest, "  AB01FF\n"));
    assert!(!checksum_matches(&digest, "ab01fe file"));
    assert!(!checksum_matches(&digest, "   "));
}

#[test]
fn instance_config_text_reads_its_fields() {
    let text = r#"{"host": "127.0.0.1", "port": 19301, "db_path": "/d/a", "service_name": "svc", "logging": null}"#;
    let (_, fields) = instance_config_from_text("/c/a.json", text).unwrap();
    assert_eq!(fields.host, "127.0.0.1");
    assert_eq!(fields.port, 19301);
    assert_eq!(fields.service_name, Some("svc".to_string()));
    assert_eq!(instance_config_from_text("/c/a.json", "{").unwrap_err(), "failed to parse /c/a.json");
    assert_eq!(
        instance_config_from_text("/c/a.json", r#"{"host": "h", "port": "x", "db_path": "/d"}"#).unwrap_err(),
        "failed to parse /c/a.json"
    );
}

#[test]
fn logging_section_is_kept_or_null() {
    let config = Json::Object(vec![
        ("logging".to_string(), Json::Int(1)),
        ("host".to_string(), Json::Str("h".to_string())),
        ("logging".to_string(), Json::Bool(true)),
    ]);
    assert!(matches!(logging_value(config), Json::Bool(true)));
    assert!(matches!(logging_value(Json::Object(vec![])), Json::Null));
    assert!(matches!(logging_value(Json::Array(vec![])), Json::Null));
}
