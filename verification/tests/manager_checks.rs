use vldb::manager_install::{
    installed_service_kinds, new_unique_service_name, sort_by_display_name, validate_absolute_dir,
    validate_data_path, validate_data_roots, validate_init_request, validate_instance_request,
    InitRequest, InstalledInstance, InstanceRequest, PathOnDisk,
};
use vldb::manager_service::ServiceId;
use vldb::paths::{path_starts_with_exec, paths_overlap};

fn instance(service: ServiceId, name: &str, port: u16, db_path: &str, service_name: &str) -> InstalledInstance {
    InstalledInstance {
        service,
        instance_name: name.to_string(),
        config_path: format!("/opt/vldb/config/{}-{}.json", service.label(), name),
        host: "127.0.0.1".to_string(),
        port,
        db_path: db_path.to_string(),
        service_name: service_name.to_string(),
        registered: true,
        running: false,
    }
}

fn dir(text: &str) -> PathOnDisk {
    PathOnDisk { text: text.to_string(), resolved: text.to_string(), occupied_by_file: false }
}

#[test]
fn path_prefixes_go_by_components() {
    assert!(path_starts_with_exec("/data/a/b", "/data/a"));
    assert!(path_starts_with_exec("/data/a/", "/data/a"));
    assert!(!path_starts_with_exec("/data/ab", "/data/a"));
    assert!(path_starts_with_exec("/data", "/"));
    assert!(!path_starts_with_exec("data", "/"));
    assert!(path_starts_with_exec("/x", ""));
    assert!(paths_overlap("/data/a", "/data/a/b"));
    assert!(paths_overlap("/data/a/b", "/data/a"));
    assert!(paths_overlap("/data//a", "/data/a"));
    assert!(!paths_overlap("/data/a", "/data/b"));
}

#[test]
fn absolute_dirs() {
    assert!(validate_absolute_dir(&dir("/srv/lance"), "LanceDB data root", false).is_ok());
    assert_eq!(
        validate_absolute_dir(&dir("srv/lance"), "LanceDB data root", false).unwrap_err(),
        "LanceDB data root must be an absolute path"
    );
    let mut taken = dir("/srv/file");
    taken.occupied_by_file = true;
    assert_eq!(
        validate_absolute_dir(&taken, "DuckDB data root", true).unwrap_err(),
        "DuckDB data root 已存在且不是目录"
    );
}

#[test]
fn data_roots_must_not_overlap() {
    let install = "/opt/vldb";
    assert!(validate_data_roots(&dir("/srv/lance"), &dir("/srv/duck"), install, false).is_ok());
    assert_eq!(
        validate_data_roots(&dir("/srv/data"), &dir("/srv/data/duck"), install, false).unwrap_err(),
        "LanceDB and DuckDB data roots must not overlap"
    );
    assert_eq!(
        validate_data_roots(&dir("/opt/vldb/lance"), &dir("/srv/duck"), install, false).unwrap_err(),
        "LanceDB data root must stay outside the installation directory"
    );
    assert_eq!(
        validate_data_roots(&dir("/srv/lance"), &dir("/opt"), install, false).unwrap_err(),
        "DuckDB data root must stay outside the installation directory"
    );
    assert_eq!(
        validate_data_roots(&dir("/srv/lance"), &dir("duck"), install, false).unwrap_err(),
        "DuckDB data root must be an absolute path"
    );
}

#[test]
fn data_paths_must_be_free() {
    let list = vec![
        instance(ServiceId::LanceDb, "default", 19301, "/srv/lance/default", "vldb-lancedb-default"),
        instance(ServiceId::DuckDb, "default", 19401, "/srv/duck/default/duckdb.db", "vldb-duckdb-default"),
    ];
    assert_eq!(
        validate_data_path("rel/x", "rel/x", ServiceId::DuckDb, "x", "/opt/vldb", &list, false).unwrap_err(),
        "Please use an absolute data path"
    );
    assert_eq!(
        validate_data_path("/opt/vldb/data", "/opt/vldb/data", ServiceId::DuckDb, "x", "/opt/vldb", &list, false)
            .unwrap_err(),
        "Database path must stay outside the installation directory"
    );
    assert_eq!(
        validate_data_path("/srv/lance", "/srv/lance", ServiceId::DuckDb, "x", "/opt/vldb", &list, false).unwrap_err(),
        "Data path conflicts with vldb-lancedb/default: /srv/lance/default"
    );
    assert!(validate_data_path(
        "/srv/lance/default/sub",
        "/srv/lance/default/sub",
        ServiceId::LanceDb,
        "default",
        "/opt/vldb",
        &list,
        false
    )
    .is_ok());
    assert!(validate_data_path("/srv/other", "/srv/other", ServiceId::DuckDb, "x", "/opt/vldb", &list, false).is_ok());
}

#[test]
fn instance_requests_are_checked_in_order() {
    let list = vec![instance(ServiceId::LanceDb, "default", 19301, "/srv/lance/default", "vldb-lancedb-default")];
    let mut request = InstanceRequest {
        service: ServiceId::DuckDb,
        instance_name: "main".to_string(),
        bind_host: "0.0.0.0".to_string(),
        port: 19401,
        data_path: "/srv/duck/main/duckdb.db".to_string(),
        service_name: "vldb-duckdb-main".to_string(),
    };
    let check = |r: &InstanceRequest| {
        validate_instance_request(
            r,
            None,
            &r.data_path,
            "/opt/vldb",
            &list,
            |_s: &str| false,
            |_p: u16| true,
            |_s: &str| false,
            false,
        )
    };
    assert!(check(&request).is_ok());
    request.bind_host = "localhost".to_string();
    assert_eq!(check(&request).unwrap_err(), "Bind IP is invalid. Please enter a valid IPv4 address");
    request.bind_host = "127.0.0.1".to_string();
    request.port = 19301;
    assert_eq!(
        check(&request).unwrap_err(),
        "Port 19301 is already reserved by vldb-lancedb/default, please choose another port"
    );
    request.port = 19402;
    request.data_path = "/srv/lance".to_string();
    assert_eq!(check(&request).unwrap_err(), "Data path conflicts with vldb-lancedb/default: /srv/lance/default");
    request.data_path = "/srv/duck/main".to_string();
    request.service_name = "VLDB-LANCEDB-DEFAULT".to_string();
    assert_eq!(
        check(&request).unwrap_err(),
        "Service name conflicts with vldb-lancedb/default: vldb-lancedb-default"
    );
}

#[test]
fn first_installation_requests() {
    let request = InitRequest {
        lancedb_root: "/srv/lance".to_string(),
        duckdb_root: "/srv/duck".to_string(),
        bind_host: "127.0.0.1".to_string(),
        lancedb_port: 19301,
        duckdb_port: 19401,
        lancedb_service_name: "vldb-lancedb-default".to_string(),
        duckdb_service_name: "vldb-duckdb-default".to_string(),
    };
    let none: Vec<InstalledInstance> = Vec::new();
    assert!(validate_init_request(&request, "/srv/lance", false, "/srv/duck", false, "/opt/vldb", &none, |_s: &str| false, false)
        .is_ok());
    let mut same_ports = request.clone();
    same_ports.duckdb_port = 19301;
    assert_eq!(
        validate_init_request(&same_ports, "/srv/lance", false, "/srv/duck", false, "/opt/vldb", &none, |_s: &str| false, false)
            .unwrap_err(),
        "LanceDB and DuckDB must use different ports"
    );
    assert_eq!(
        validate_init_request(&request, "/srv/lance", false, "/srv/duck", false, "/opt/vldb", &none, |s: &str| s
            == "vldb-duckdb-default", false)
            .unwrap_err(),
        "A service with the same name already exists: vldb-duckdb-default"
    );
}

#[test]
fn unique_service_names_count_up() {
    let list = vec![
        instance(ServiceId::DuckDb, "default", 19401, "/srv/d", "vldb-duckdb-main"),
        instance(ServiceId::DuckDb, "other", 19402, "/srv/e", "vldb-duckdb-main-2"),
    ];
    assert_eq!(
        new_unique_service_name(ServiceId::DuckDb, "main", None, None, &list, |_s: &str| false).unwrap(),
        "vldb-duckdb-main-3"
    );
    assert_eq!(
        new_unique_service_name(ServiceId::LanceDb, "x", Some("  "), None, &list, |_s: &str| false).unwrap(),
        "vldb-lancedb-x"
    );
    assert_eq!(
        new_unique_service_name(ServiceId::LanceDb, "x", Some("custom"), None, &list, |s: &str| s == "custom")
            .unwrap(),
        "custom-2"
    );
}

#[test]
fn installed_kinds_follow_binaries_and_instances() {
    let list = vec![instance(ServiceId::DuckDb, "default", 19401, "/srv/d", "vldb-duckdb-default")];
    assert_eq!(installed_service_kinds(false, false, &list), vec![ServiceId::DuckDb]);
    assert_eq!(installed_service_kinds(true, false, &list), vec![ServiceId::LanceDb, ServiceId::DuckDb]);
    assert_eq!(installed_service_kinds(false, false, &Vec::new()), Vec::<ServiceId>::new());
}

#[test]
fn instances_sort_by_display_name() {
    let list = vec![
        instance(ServiceId::LanceDb, "b", 1, "/b", "s1"),
        instance(ServiceId::DuckDb, "z", 2, "/z", "s2"),
        instance(ServiceId::LanceDb, "a", 3, "/a", "s3"),
        instance(ServiceId::DuckDb, "a", 4, "/a2", "s4"),
    ];
    let sorted = sort_by_display_name(list);
    let names: Vec<String> = sorted.iter().map(|i| i.display_name()).collect();
    assert_eq!(
        names,
        vec!["vldb-duckdb / a", "vldb-duckdb / z", "vldb-lancedb / a", "vldb-lancedb / b"]
    );
}
