use std::path::{Path, PathBuf};
use std::time::Duration;

use vldb::lancedb_config::{
    default_config_candidates, parse_config_arg, resolve_config, resolve_data_path, resolve_log_dir,
    Config, ConfigError, LoggingConfig, ResolvedConfig,
};

#[test]
fn default_log_dir_uses_logs_subdir_for_local_db_path() {
    let resolved = resolve_log_dir("", "/srv/vldb/lancedb", "/etc/vldb", None);
    assert_eq!(PathBuf::from(resolved), PathBuf::from("/srv/vldb/lancedb/logs"));
}

#[test]
fn config_explicit_relative_log_dir_is_resolved_from_config_dir() {
    let resolved = resolve_log_dir("./logs", "/srv/vldb/lancedb", "/etc/vldb", None);
    assert_eq!(PathBuf::from(resolved), PathBuf::from("/etc/vldb/logs"));
}

#[test]
fn uri_db_path_falls_back_to_config_relative_log_dir() {
    let resolved = resolve_log_dir("", "s3://bucket/lancedb", "/etc/vldb", None);
    assert_eq!(PathBuf::from(resolved), PathBuf::from("/etc/vldb/vldb-lancedb-logs"));
}

#[test]
fn default_read_consistency_interval_is_strong() {
    assert_eq!(Config::default().read_consistency_interval_ms, Some(0));
}

#[test]
fn plain_s3_uri_emits_concurrent_write_warning() {
    let cfg = ResolvedConfig {
        host: "127.0.0.1".to_string(),
        port: 50051,
        db_path: "s3://bucket/lancedb".to_string(),
        read_consistency_interval_ms: Some(0),
        source: None,
        logging: LoggingConfig::default(),
    };

    assert_eq!(
        cfg.read_consistency_interval().map(|t| t.nanos),
        Some(Duration::from_millis(0).as_nanos())
    );
    assert!(cfg.concurrent_write_warning().is_some());
}

#[test]
fn s3_ddb_uri_does_not_emit_concurrent_write_warning() {
    let cfg = ResolvedConfig {
        host: "127.0.0.1".to_string(),
        port: 50051,
        db_path: "s3+ddb://bucket/lancedb".to_string(),
        read_consistency_interval_ms: Some(250),
        source: None,
        logging: LoggingConfig::default(),
    };

    assert_eq!(
        cfg.read_consistency_interval().map(|t| t.nanos),
        Some(Duration::from_millis(250).as_nanos())
    );
    assert!(cfg.concurrent_write_warning().is_none());
}

#[test]
fn upper_case_s3_scheme_also_warns() {
    let mut cfg = ResolvedConfig {
        host: "h".to_string(),
        port: 1,
        db_path: "S3://bucket".to_string(),
        read_consistency_interval_ms: None,
        source: None,
        logging: LoggingConfig::default(),
    };
    assert!(cfg.concurrent_write_warning().is_some());
    assert!(!cfg.is_local_db_path());
    assert!(cfg.read_consistency_interval().is_none());
    cfg.db_path = "/data".to_string();
    assert!(cfg.is_local_db_path());
}

#[test]
fn data_path_resolution() {
    assert_eq!(resolve_data_path("s3://b/x", "/etc", None), "s3://b/x");
    assert!(Path::new(&resolve_data_path("./data", "/etc/vldb", None)) == Path::new("/etc/vldb/data"));
    assert_eq!(resolve_data_path("~/db", "/etc", Some("/home/u")), "/home/u/db");
    assert_eq!(resolve_data_path("~/db", "/etc", None), "/etc/~/db");
    assert_eq!(resolve_data_path("~", "/etc", None), "/etc/~");
}

#[test]
fn config_argument_and_candidates() {
    let args = vec!["--config".to_string(), "conf/x.json".to_string()];
    assert_eq!(parse_config_arg(&args, "/w", None).unwrap(), Some("/w/conf/x.json".to_string()));
    let args = vec!["-config".to_string()];
    assert_eq!(parse_config_arg(&args, "/w", None), Err(ConfigError::MissingConfigValue));
    assert_eq!(parse_config_arg(&Vec::new(), "/w", None).unwrap(), None);
    assert_eq!(
        default_config_candidates(Some("/opt/bin/vldb-lancedb"), "/w"),
        vec![
            "/opt/bin/vldb-lancedb.json".to_string(),
            "/opt/bin/lancedb.json".to_string(),
            "/w/vldb-lancedb.json".to_string(),
            "/w/lancedb.json".to_string()
        ]
    );
}

#[test]
fn resolve_config_uses_the_config_file_directory() {
    let rc = resolve_config(Config::default(), Some("/etc/vldb/vldb-lancedb.json".to_string()), "/w", None).unwrap();
    assert!(Path::new(&rc.db_path) == Path::new("/etc/vldb/data"));
    assert!(Path::new(&rc.logging.log_dir) == Path::new("/etc/vldb/data/logs"));
    let rc = resolve_config(Config::default(), None, "/w", None).unwrap();
    assert!(Path::new(&rc.db_path) == Path::new("/w/data"));
    let mut bad = Config::default();
    bad.db_path = " ".to_string();
    assert_eq!(resolve_config(bad, None, "/w", None).err(), Some(ConfigError::EmptyDbPath));
    assert_eq!(ConfigError::EmptyDbPath.message(), "config.db_path must not be empty");
}
