//! Configuration of the LanceDB gateway: defaults, validation, the `-config`
//! option, the search order for config files, and how local paths and
//! URI-like database locations are resolved.
use vstd::prelude::*;
use crate::duckdb_config::opt_view;
use crate::duckdb_request::TimeSpan;
use crate::paths::{is_root, join_path, join_path_exec, parent_exec, parent_of};
use crate::text::{
    all_ws, ascii_lower, ascii_lower_chars, ascii_lower_seq, chars_of, contains_exec, contains_seq, eq_str,
    has_prefix, is_blank, occurs_at, starts_with_seq, string_from_range,
};

verus! {

/// Why a LanceDB gateway configuration is refused.
#[derive(Debug, Clone, Copy, PartialEq, Eq)]
pub enum ConfigError {
    EmptyHost,
    ZeroPort,
    EmptyDbPath,
    ZeroRequestPreviewChars,
    ZeroSlowRequestThreshold,
    EmptyLogFileName,
    MissingConfigValue,
}

impl ConfigError {
    pub open spec fn spec_message(self) -> Seq<char> {
        match self {
            ConfigError::EmptyHost => "config.host must not be empty"@,
            ConfigError::ZeroPort => "config.port must be greater than 0"@,
            ConfigError::EmptyDbPath => "config.db_path must not be empty"@,
            ConfigError::ZeroRequestPreviewChars => "config.logging.request_preview_chars must be greater than 0"@,
            ConfigError::ZeroSlowRequestThreshold => "config.logging.slow_request_threshold_ms must be greater than 0"@,
            ConfigError::EmptyLogFileName => "config.logging.log_file_name must not be empty when file logging is enabled"@,
            ConfigError::MissingConfigValue => "missing value after -config / --config"@,
        }
    }

    /// The text of the error.
    pub fn message(&self) -> (r: String)
        ensures
            r@ == self.spec_message(),
    {
        match self {
            ConfigError::EmptyHost => String::from_str("config.host must not be empty"),
            ConfigError::ZeroPort => String::from_str("config.port must be greater than 0"),
            ConfigError::EmptyDbPath => String::from_str("config.db_path must not be empty"),
            ConfigError::ZeroRequestPreviewChars => String::from_str("config.logging.request_preview_chars must be greater than 0"),
            ConfigError::ZeroSlowRequestThreshold => String::from_str("config.logging.slow_request_threshold_ms must be greater than 0"),
            ConfigError::EmptyLogFileName => String::from_str("config.logging.log_file_name must not be empty when file logging is enabled"),
            ConfigError::MissingConfigValue => String::from_str("missing value after -config / --config"),
        }
    }
}

/// Request and slow-request logging of the gateway.
#[derive(Debug, Clone)]
pub struct LoggingConfig {
    pub enabled: bool,
    pub file_enabled: bool,
    pub stderr_enabled: bool,
    pub request_log_enabled: bool,
    pub slow_request_log_enabled: bool,
    pub slow_request_threshold_ms: u64,
    pub include_request_details_in_slow_log: bool,
    pub request_preview_chars: usize,
    pub log_dir: String,
    pub log_file_name: String,
}

/// The gateway's configuration as read from a file.
#[derive(Debug, Clone)]
pub struct Config {
    pub host: String,
    pub port: u16,
    pub db_path: String,
    pub read_consistency_interval_ms: Option<u64>,
    pub logging: LoggingConfig,
}

/// The configuration with its paths resolved, and the file it came from.
#[derive(Debug, Clone)]
pub struct ResolvedConfig {
    pub host: String,
    pub port: u16,
    pub db_path: String,
    pub read_consistency_interval_ms: Option<u64>,
    pub source: Option<String>,
    pub logging: LoggingConfig,
}

impl Default for LoggingConfig {
    fn default() -> (r: Self)
        ensures
            r.enabled && r.file_enabled && r.stderr_enabled && r.request_log_enabled,
            r.slow_request_log_enabled && r.include_request_details_in_slow_log,
            r.slow_request_threshold_ms == 1000,
            r.request_preview_chars == 160,
            r.log_dir@ == Seq::<char>::empty(),
            r.log_file_name@ == "vldb-lancedb.log"@,
    {
        LoggingConfig {
            enabled: true,
            file_enabled: true,
            stderr_enabled: true,
            request_log_enabled: true,
            slow_request_log_enabled: true,
            slow_request_threshold_ms: 1000,
            include_request_details_in_slow_log: true,
            request_preview_chars: 160,
            log_dir: String::new(),
            log_file_name: String::from_str("vldb-lancedb.log"),
        }
    }
}

impl Default for Config {
    fn default() -> (r: Self)
        ensures
            r.host@ == "127.0.0.1"@,
            r.port == 50051,
            r.db_path@ == "./data"@,
            r.read_consistency_interval_ms == Some(0u64),
            r.logging.request_preview_chars == 160,
            r.logging.log_dir@ == Seq::<char>::empty(),
    {
        Config {
            host: String::from_str("127.0.0.1"),
            port: 50051,
            db_path: String::from_str("./data"),
            read_consistency_interval_ms: Some(0),
            logging: LoggingConfig::default(),
        }
    }
}

/// A database location that contains `://` is a URI, used as it is.
pub open spec fn looks_like_uri(value: Seq<char>) -> bool {
    contains_seq(value, "://"@)
}

/// An `s3://` location (in any letter case), which is unsafe for several writers.
pub open spec fn is_plain_s3_uri(value: Seq<char>) -> bool {
    has_prefix(ascii_lower_seq(value), "s3://"@)
}

/// A plain `s3://` location is a URI, so the database it names is never
/// local: where `concurrent_write_warning` warns, `is_local_db_path` is
/// false.
pub proof fn lemma_plain_s3_is_not_local(db_path: Seq<char>)
    requires
        is_plain_s3_uri(db_path),
    ensures
        looks_like_uri(db_path),
{
    reveal_strlit("s3://");
    reveal_strlit("://");
    let lower = ascii_lower_seq(db_path);
    assert(lower.subrange(0, 5) == "s3://"@);
    assert(lower[2] == lower.subrange(0, 5)[2]);
    assert(lower[3] == lower.subrange(0, 5)[3]);
    assert(lower[4] == lower.subrange(0, 5)[4]);
    assert("s3://"@[2] == ':' && "s3://"@[3] == '/' && "s3://"@[4] == '/');
    assert(lower[2] == ':' && lower[3] == '/' && lower[4] == '/');
    assert(db_path[2] == ':' && db_path[3] == '/' && db_path[4] == '/') by {
        assert(lower[2] == ascii_lower(db_path[2]));
        assert(lower[3] == ascii_lower(db_path[3]));
        assert(lower[4] == ascii_lower(db_path[4]));
    }
    assert(db_path.subrange(2, 5) =~= "://"@);
    assert(occurs_at(db_path, "://"@, 2));
}

pub open spec fn concurrent_write_message() -> Seq<char> {
    "plain s3:// storage is not safe for concurrent LanceDB writers; use s3+ddb:// for multi-writer deployments or ensure this service is the only writer for each table"@
}

/// Whether a database location is a URI.
pub fn looks_like_uri_exec(value: &str) -> (r: bool)
    ensures
        r == looks_like_uri(value@),
{
    let chars = chars_of(value);
    contains_exec(&chars, "://")
}

/// Whether a database location is a plain `s3://` URI.
pub fn is_plain_s3_uri_exec(value: &str) -> (r: bool)
    ensures
        r == is_plain_s3_uri(value@),
{
    let lower = ascii_lower_chars(value);
    starts_with_seq(&lower, "s3://")
}

impl ResolvedConfig {
    /// The database lives on the local file system.
    pub fn is_local_db_path(&self) -> (r: bool)
        ensures
            r == !looks_like_uri(self.db_path@),
    {
        !looks_like_uri_exec(&self.db_path)
    }

    /// How stale a read may be; `Some(0)` asks for strong consistency.
    pub fn read_consistency_interval(&self) -> (r: Option<TimeSpan>)
        ensures
            match (r, self.read_consistency_interval_ms) {
                (Some(t), Some(ms)) => t.nanos == ms * 1_000_000,
                (None, None) => true,
                _ => false,
            },
    {
        match self.read_consistency_interval_ms {
            Some(ms) => Some(TimeSpan::from_millis(ms)),
            None => None,
        }
    }

    /// A warning for deployments that store the database on plain S3.
    pub fn concurrent_write_warning(&self) -> (r: Option<&'static str>)
        ensures
            r is Some <==> is_plain_s3_uri(self.db_path@),
            r matches Some(m) ==> m@ == concurrent_write_message(),
    {
        if is_plain_s3_uri_exec(&self.db_path) {
            Some(
                "plain s3:// storage is not safe for concurrent LanceDB writers; use s3+ddb:// for multi-writer deployments or ensure this service is the only writer for each table",
            )
        } else {
            None
        }
    }
}

/// The first rule the configuration breaks, in the order checked.
pub open spec fn spec_violation(config: Config) -> Option<ConfigError> {
    if all_ws(config.host@) {
        Some(ConfigError::EmptyHost)
    } else if config.port == 0 {
        Some(ConfigError::ZeroPort)
    } else if all_ws(config.db_path@) {
        Some(ConfigError::EmptyDbPath)
    } else if config.logging.request_preview_chars == 0 {
        Some(ConfigError::ZeroRequestPreviewChars)
    } else if config.logging.slow_request_threshold_ms == 0 {
        Some(ConfigError::ZeroSlowRequestThreshold)
    } else if config.logging.file_enabled && all_ws(config.logging.log_file_name@) {
        Some(ConfigError::EmptyLogFileName)
    } else {
        None
    }
}

/// Checks a configuration.
pub fn validate_config(config: &Config) -> (r: Result<(), ConfigError>)
    ensures
        r == (match spec_violation(*config) {
            Some(e) => Err(e),
            None => Ok(()),
        }),
{
    if is_blank(&config.host) {
        return Err(ConfigError::EmptyHost);
    }
    if config.port == 0 {
        return Err(ConfigError::ZeroPort);
    }
    if is_blank(&config.db_path) {
        return Err(ConfigError::EmptyDbPath);
    }
    if config.logging.request_preview_chars == 0 {
        return Err(ConfigError::ZeroRequestPreviewChars);
    }
    if config.logging.slow_request_threshold_ms == 0 {
        return Err(ConfigError::ZeroSlowRequestThreshold);
    }
    if config.logging.file_enabled && is_blank(&config.logging.log_file_name) {
        return Err(ConfigError::EmptyLogFileName);
    }
    Ok(())
}

/// `~` expansion where a missing home directory leaves the text unchanged.
pub open spec fn spec_expand_tilde(raw: Seq<char>, home: Option<Seq<char>>) -> Seq<char> {
    if raw == "~"@ {
        match home {
            Some(h) => h,
            None => raw,
        }
    } else if (has_prefix(raw, "~/"@) || has_prefix(raw, "~\\"@)) && home is Some {
        join_path(home->0, raw.subrange(2, raw.len() as int))
    } else {
        raw
    }
}

/// A path as a shell would take it: `~` expanded, relative paths joined to
/// `base_dir`.
pub open spec fn spec_resolve_path_like_shell(raw: Seq<char>, base_dir: Seq<char>, home: Option<Seq<char>>) -> Seq<
    char,
> {
    let p = spec_expand_tilde(raw, home);
    if is_root(p) {
        p
    } else {
        join_path(base_dir, p)
    }
}

/// The database location: URIs as they are, local paths resolved.
pub open spec fn spec_resolve_data_path(raw: Seq<char>, base_dir: Seq<char>, home: Option<Seq<char>>) -> Seq<char> {
    if looks_like_uri(raw) {
        raw
    } else {
        spec_resolve_path_like_shell(raw, base_dir, home)
    }
}

/// The log directory: the configured one resolved; else `logs` inside a
/// local database directory; else `vldb-lancedb-logs` beside the config file.
pub open spec fn spec_resolve_log_dir(
    configured: Seq<char>,
    db_path: Seq<char>,
    base_dir: Seq<char>,
    home: Option<Seq<char>>,
) -> Seq<char> {
    if configured.len() > 0 {
        spec_resolve_path_like_shell(configured, base_dir, home)
    } else if looks_like_uri(db_path) {
        join_path(base_dir, "vldb-lancedb-logs"@)
    } else {
        join_path(db_path, "logs"@)
    }
}

/// Expands a leading `~`.
pub fn expand_tilde(raw: &str, home: Option<&str>) -> (r: String)
    ensures
        r@ == spec_expand_tilde(raw@, opt_view(home)),
{
    proof {
        reveal_strlit("~");
        reveal_strlit("~/");
        reveal_strlit("~\\");
    }
    let chars = chars_of(raw);
    if eq_str(&chars, "~") {
        return match home {
            Some(h) => String::from_str(h),
            None => String::from_str(raw),
        };
    }
    if starts_with_seq(&chars, "~/") || starts_with_seq(&chars, "~\\") {
        if let Some(h) = home {
            let rest = string_from_range(&chars, 2, chars.len());
            return join_path_exec(h, &rest);
        }
    }
    String::from_str(raw)
}

/// Resolves a path the way a shell would.
pub fn resolve_path_like_shell(raw: &str, base_dir: &str, home: Option<&str>) -> (r: String)
    ensures
        r@ == spec_resolve_path_like_shell(raw@, base_dir@, opt_view(home)),
{
    let expanded = expand_tilde(raw, home);
    let chars = chars_of(&expanded);
    if chars.len() > 0 && chars[0] == '/' {
        expanded
    } else {
        join_path_exec(base_dir, &expanded)
    }
}

/// Resolves the database location.
pub fn resolve_data_path(raw: &str, base_dir: &str, home: Option<&str>) -> (r: String)
    ensures
        r@ == spec_resolve_data_path(raw@, base_dir@, opt_view(home)),
{
    if looks_like_uri_exec(raw) {
        return String::from_str(raw);
    }
    resolve_path_like_shell(raw, base_dir, home)
}

/// Resolves the log directory.
pub fn resolve_log_dir(configured_dir: &str, db_path: &str, base_dir: &str, home: Option<&str>) -> (r:
    String)
    ensures
        r@ == spec_resolve_log_dir(configured_dir@, db_path@, base_dir@, opt_view(home)),
{
    if !configured_dir.is_empty() {
        return resolve_path_like_shell(configured_dir, base_dir, home);
    }
    if looks_like_uri_exec(db_path) {
        return join_path_exec(base_dir, "vldb-lancedb-logs");
    }
    join_path_exec(db_path, "logs")
}

/// The `-config`/`--config` option among the arguments after the program
/// name: the next argument, resolved against the working directory.
pub open spec fn spec_config_arg(args: Seq<String>, i: int, cwd: Seq<char>, home: Option<Seq<char>>) -> Result<
    Option<Seq<char>>,
    ConfigError,
>
    decreases args.len() - i,
{
    if i < 0 || i >= args.len() {
        Ok(None)
    } else if args[i]@ == "-config"@ || args[i]@ == "--config"@ {
        if i + 1 < args.len() {
            Ok(Some(spec_resolve_path_like_shell(args[i + 1]@, cwd, home)))
        } else {
            Err(ConfigError::MissingConfigValue)
        }
    } else {
        spec_config_arg(args, i + 1, cwd, home)
    }
}

/// Finds the `-config` option.
pub fn parse_config_arg(args: &Vec<String>, cwd: &str, home: Option<&str>) -> (r: Result<
    Option<String>,
    ConfigError,
>)
    ensures
        match (r, spec_config_arg(args@, 0, cwd@, opt_view(home))) {
            (Ok(Some(a)), Ok(Some(b))) => a@ == b,
            (Ok(None), Ok(None)) => true,
            (Err(a), Err(b)) => a == b,
            _ => false,
        },
{
    let mut i: usize = 0;
    while i < args.len()
        invariant
            0 <= i <= args.len(),
            spec_config_arg(args@, 0, cwd@, opt_view(home)) == spec_config_arg(
                args@,
                i as int,
                cwd@,
                opt_view(home),
            ),
        decreases args.len() - i,
    {
        let chars = chars_of(&args[i]);
        if eq_str(&chars, "-config") || eq_str(&chars, "--config") {
            if i + 1 < args.len() {
                return Ok(Some(resolve_path_like_shell(&args[i + 1], cwd, home)));
            }
            return Err(ConfigError::MissingConfigValue);
        }
        i += 1;
    }
    Ok(None)
}

/// The config files tried when no `-config` is given, in order: the new and
/// the old file name beside the executable, then both in the working
/// directory.
pub open spec fn spec_config_candidates(exe: Option<Seq<char>>, cwd: Seq<char>) -> Seq<Seq<char>> {
    let local = seq![join_path(cwd, "vldb-lancedb.json"@), join_path(cwd, "lancedb.json"@)];
    match exe {
        Some(e) => match parent_of(e) {
            Some(dir) => seq![join_path(dir, "vldb-lancedb.json"@), join_path(dir, "lancedb.json"@)]
                + local,
            None => local,
        },
        None => local,
    }
}

/// The candidate config files.
pub fn default_config_candidates(exe: Option<&str>, cwd: &str) -> (r: Vec<String>)
    ensures
        r@.len() == spec_config_candidates(opt_view(exe), cwd@).len(),
        forall|i: int| 0 <= i < r@.len() ==> r@[i]@ == spec_config_candidates(opt_view(exe), cwd@)[i],
{
    let mut candidates: Vec<String> = Vec::new();
    if let Some(e) = exe {
        if let Some(dir) = parent_exec(e) {
            candidates.push(join_path_exec(&dir, "vldb-lancedb.json"));
            candidates.push(join_path_exec(&dir, "lancedb.json"));
        }
    }
    candidates.push(join_path_exec(cwd, "vldb-lancedb.json"));
    candidates.push(join_path_exec(cwd, "lancedb.json"));
    candidates
}

/// The directory relative paths are resolved against: the config file's
/// directory, or the working directory when there is no file.
pub open spec fn spec_base_dir(source: Option<Seq<char>>, cwd: Seq<char>) -> Seq<char> {
    match source {
        Some(p) => match parent_of(p) {
            Some(d) => d,
            None => cwd,
        },
        None => cwd,
    }
}

/// Resolves and validates a configuration read from `source` (or the
/// defaults, with no source).
pub fn resolve_config(config: Config, source: Option<String>, cwd: &str, home: Option<&str>) -> (r:
    Result<ResolvedConfig, ConfigError>)
    ensures
        match r {
            Ok(rc) => {
                let base = spec_base_dir(
                    match source {
                        Some(s) => Some(s@),
                        None => None,
                    },
                    cwd@,
                );
                &&& spec_violation(config) is None
                &&& rc.db_path@ == spec_resolve_data_path(config.db_path@, base, opt_view(home))
                &&& rc.logging.log_dir@ == spec_resolve_log_dir(
                    config.logging.log_dir@,
                    rc.db_path@,
                    base,
                    opt_view(home),
                )
                &&& rc.host == config.host
                &&& rc.port == config.port
                &&& rc.read_consistency_interval_ms == config.read_consistency_interval_ms
                &&& rc.source == source
            },
            Err(e) => spec_violation(config) == Some(e),
        },
{
    let base_dir = match &source {
        Some(p) => match parent_exec(p) {
            Some(d) => d,
            None => String::from_str(cwd),
        },
        None => String::from_str(cwd),
    };
    let resolved_db_path = resolve_data_path(&config.db_path, &base_dir, home);
    let log_dir = resolve_log_dir(&config.logging.log_dir, &resolved_db_path, &base_dir, home);
    validate_config(&config)?;
    let mut logging = config.logging;
    logging.log_dir = log_dir;
    Ok(ResolvedConfig {
        host: config.host,
        port: config.port,
        db_path: resolved_db_path,
        read_consistency_interval_ms: config.read_consistency_interval_ms,
        source,
        logging,
    })
}

} // verus!
