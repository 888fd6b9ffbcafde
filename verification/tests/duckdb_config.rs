use std::path::{Path, PathBuf};

use vldb::duckdb_config::{
    config_base_dir, config_source, default_loaded_config, derive_default_log_dir, expand_path,
    expand_tilde, finish_config, parse_config_arg,
    resolve_log_dir, Config, ConfigError, default_search_paths,
};
use vldb::duckdb_lock::{derive_lock_path, needs_db_file_lock};

#[test]
fn default_log_dir_uses_db_file_stem() {
    let db_path = PathBuf::from("/srv/vldb/duckdb.db");
    assert_eq!(
        PathBuf::from(derive_default_log_dir(db_path.to_str().unwrap())),
        PathBuf::from("/srv/vldb/duckdb_log")
    );
}

#[test]
fn explicit_relative_log_dir_is_resolved_from_config_dir() {
    let resolved = resolve_log_dir("./logs", "/srv/vldb/duckdb.db", "/etc/vldb", None)
        .expect("resolve log dir");

    assert_eq!(PathBuf::from(resolved), PathBuf::from("/etc/vldb/logs"));
}

#[test]
fn derive_lock_path_places_lock_next_to_database() {
    assert_eq!(
        PathBuf::from(derive_lock_path(PathBuf::from("/srv/vldb/duckdb.db").to_str().unwrap())),
        PathBuf::from("/srv/vldb/duckdb.db.vldb.lock")
    );
}

#[test]
fn relative_db_path_without_directory_logs_beside_it() {
    assert_eq!(derive_default_log_dir("duckdb.db"), "duckdb_log");
    assert_eq!(derive_default_log_dir("/"), "./duckdb_log");
    assert_eq!(derive_default_log_dir("archive.tar.gz"), "archive.tar_log");
    assert_eq!(derive_default_log_dir("/data/.hidden"), "/data/.hidden_log");
}

#[test]
fn lock_path_for_bare_root() {
    assert_eq!(derive_lock_path("/"), "./duckdb.vldb.lock");
    assert_eq!(derive_lock_path("duck.db"), "duck.db.vldb.lock");
}

#[test]
fn expand_path_normalises_and_keeps_unresolvable_parents() {
    assert_eq!(expand_path("./data/../duck.db", "/etc/vldb", None).unwrap(), "/etc/vldb/duck.db");
    assert_eq!(expand_path("../../x", "a", None).unwrap(), "../x");
    assert_eq!(expand_path("/abs//path/./f", "/ignored", None).unwrap(), "/abs/path/f");
    assert_eq!(expand_path("/..", "/", None).unwrap(), "/..");
}

#[test]
fn tilde_needs_a_home_directory() {
    assert_eq!(expand_tilde("~", Some("/home/u")).unwrap(), "/home/u");
    assert_eq!(expand_tilde("~/db", Some("/home/u")).unwrap(), "/home/u/db");
    assert_eq!(expand_tilde("~", None), Err(ConfigError::HomeNotSetForTilde));
    assert_eq!(expand_tilde("~/db", None), Err(ConfigError::HomeNotSetForTildePrefix));
    assert_eq!(expand_tilde("~user", None).unwrap(), "~user");
    assert_eq!(
        ConfigError::HomeNotSetForTilde.message(),
        "cannot expand '~': HOME is not set"
    );
}

#[test]
fn config_argument_forms() {
    let args = |v: &[&str]| v.iter().map(|s| s.to_string()).collect::<Vec<_>>();
    assert_eq!(parse_config_arg(&args(&["-config", "a.json"])).unwrap(), Some("a.json".to_string()));
    assert_eq!(parse_config_arg(&args(&["x", "--config=b.json"])).unwrap(), Some("b.json".to_string()));
    assert_eq!(parse_config_arg(&args(&["-config=c.json"])).unwrap(), Some("c.json".to_string()));
    assert_eq!(parse_config_arg(&args(&["x"])).unwrap(), None);
    assert_eq!(parse_config_arg(&args(&["--config"])), Err(ConfigError::MissingConfigValue));
}

#[test]
fn search_paths_skip_a_duplicate_executable_directory() {
    assert_eq!(default_search_paths("/w", Some("/w/vldb-duckdb")), vec!["/w/vldb-duckdb.json".to_string()]);
    assert_eq!(
        default_search_paths("/w", Some("/opt/bin/vldb-duckdb")),
        vec!["/w/vldb-duckdb.json".to_string(), "/opt/bin/vldb-duckdb.json".to_string()]
    );
}

#[test]
fn defaults_resolve_and_validate() {
    let loaded = finish_config(Config::default(), None, "/srv/app", None).unwrap();
    assert_eq!(loaded.config.db_path, "/srv/app/data/duckdb.db");
    assert!(Path::new(&loaded.config.logging.log_dir) == Path::new("/srv/app/data/duckdb_log"));
    assert_eq!(loaded.config.port, 50052);
    assert!(loaded.source.is_none());

    let mut bad = Config::default();
    bad.threads = 0;
    assert_eq!(finish_config(bad, None, "/srv", None).err(), Some(ConfigError::ZeroThreads));
    let mut bad = Config::default();
    bad.host = "  ".to_string();
    assert_eq!(bad.validate(), Err(ConfigError::EmptyHost));
    let mut bad = Config::default();
    bad.logging.log_file_name = "\t".to_string();
    assert_eq!(bad.validate(), Err(ConfigError::EmptyLogFileName));
    bad.logging.file_enabled = false;
    assert_eq!(bad.validate(), Ok(()));
    let mut bad = Config::default();
    bad.port = 0;
    assert_eq!(bad.validate(), Err(ConfigError::ZeroPort));
    let mut bad = Config::default();
    bad.memory_limit = String::new();
    assert_eq!(bad.validate(), Err(ConfigError::EmptyMemoryLimit));
    let mut bad = Config::default();
    bad.logging.sql_preview_chars = 0;
    assert_eq!(bad.validate(), Err(ConfigError::ZeroSqlPreviewChars));
    let mut bad = Config::default();
    bad.logging.slow_query_threshold_ms = 0;
    assert_eq!(bad.validate(), Err(ConfigError::ZeroSlowQueryThreshold));
}

#[test]
fn hardening_lists_resolve_from_config_dir() {
    let mut c = Config::default();
    c.hardening.allowed_directories = vec!["./imports".to_string(), "/abs".to_string()];
    let loaded = finish_config(c, Some("/etc/vldb/vldb-duckdb.json".to_string()), "/etc/vldb", None).unwrap();
    assert_eq!(loaded.config.hardening.allowed_directories, vec!["/etc/vldb/imports".to_string(), "/abs".to_string()]);
    assert!(loaded.config.hardening.enforce_db_file_lock);
}

#[test]
fn config_source_follows_the_search_order() {
    let none: Vec<String> = Vec::new();
    let explicit = vec!["--config".to_string(), "conf/a.json".to_string()];
    assert_eq!(
        config_source(&explicit, "/w", Some("/opt/bin/vldb-duckdb"), None, |_p: &str| false).unwrap(),
        Some("/w/conf/a.json".to_string())
    );
    let missing = vec!["-config".to_string()];
    assert_eq!(config_source(&missing, "/w", None, None, |_p: &str| true), Err(ConfigError::MissingConfigValue));
    assert_eq!(
        config_source(&none, "/w", Some("/opt/bin/vldb-duckdb"), None, |p: &str| p == "/opt/bin/vldb-duckdb.json")
            .unwrap(),
        Some("/opt/bin/vldb-duckdb.json".to_string())
    );
    assert_eq!(
        config_source(&none, "/w", Some("/opt/bin/vldb-duckdb"), None, |_p: &str| true).unwrap(),
        Some("/w/vldb-duckdb.json".to_string())
    );
    assert_eq!(config_source(&none, "/w", Some("/opt/bin/vldb-duckdb"), None, |_p: &str| false).unwrap(), None);
}

#[test]
fn default_config_always_loads() {
    let loaded = default_loaded_config("/srv/app", None);
    assert!(loaded.source.is_none());
    assert_eq!(loaded.config.db_path, "/srv/app/data/duckdb.db");
    assert_eq!(loaded.config.logging.log_dir, "/srv/app/data/duckdb_log");
    assert_eq!(loaded.config.threads, 4);
}

#[test]
fn config_file_paths_resolve_from_its_directory() {
    let mut c = Config::default();
    c.db_path = "./data/duckdb.db".to_string();
    let base = config_base_dir("/etc/vldb/vldb-duckdb.json", "/home/me");
    let loaded = finish_config(c, Some("/etc/vldb/vldb-duckdb.json".to_string()), &base, None).unwrap();
    assert_eq!(loaded.config.db_path, "/etc/vldb/data/duckdb.db");
    assert_eq!(loaded.config.logging.log_dir, "/etc/vldb/data/duckdb_log");
    let mut tilde = Config::default();
    tilde.db_path = "~/db.duckdb".to_string();
    assert_eq!(finish_config(tilde, None, "/w", None).err(), Some(ConfigError::HomeNotSetForTildePrefix));
    let mut listed = Config::default();
    listed.hardening.allowed_paths = vec!["/ok".to_string(), "~".to_string()];
    assert_eq!(finish_config(listed, None, "/w", None).err(), Some(ConfigError::HomeNotSetForTilde));
}

#[test]
fn lock_is_taken_for_file_databases_only() {
    assert!(needs_db_file_lock(true, "/srv/duckdb.db"));
    assert!(!needs_db_file_lock(true, ":memory:"));
    assert!(!needs_db_file_lock(false, "/srv/duckdb.db"));
}
