//! Configuration of the DuckDB gateway: defaults, validation, the command-line
//! `-config` option, the search order for config files and the resolution of
//! relative and `~` paths against the config file's directory.
use vstd::prelude::*;
use crate::paths::{
    same_path, same_path_exec,
    file_name_exec, is_root, join_path, join_path_exec, normalize_keep, normalize_keep_exec,
    parent_exec, parent_of, file_name_of, stem_exec, stem_of, path_parts,
};
use crate::manager_service::answered;
use crate::text::{eq_str, chars_of, concat2, has_prefix, all_ws, is_blank, starts_with_seq, string_from_range};

verus! {

/// Name of the config file that the gateway looks for.
pub open spec fn primary_config_name() -> Seq<char> {
    "vldb-duckdb.json"@
}

/// Why a DuckDB gateway configuration is refused.
#[derive(Debug, Clone, Copy, PartialEq, Eq)]
pub enum ConfigError {
    EmptyHost,
    ZeroPort,
    EmptyMemoryLimit,
    ZeroThreads,
    ZeroSqlPreviewChars,
    ZeroSlowQueryThreshold,
    EmptyLogFileName,
    HomeNotSetForTilde,
    HomeNotSetForTildePrefix,
    MissingConfigValue,
}

impl ConfigError {
    pub open spec fn spec_message(self) -> Seq<char> {
        match self {
            ConfigError::EmptyHost => "config.host must not be empty"@,
            ConfigError::ZeroPort => "config.port must be greater than 0"@,
            ConfigError::EmptyMemoryLimit => "config.memory_limit must not be empty"@,
            ConfigError::ZeroThreads => "config.threads must be greater than 0"@,
            ConfigError::ZeroSqlPreviewChars => "config.logging.sql_preview_chars must be greater than 0"@,
            ConfigError::ZeroSlowQueryThreshold => "config.logging.slow_query_threshold_ms must be greater than 0"@,
            ConfigError::EmptyLogFileName => "config.logging.log_file_name must not be empty when file logging is enabled"@,
            ConfigError::HomeNotSetForTilde => "cannot expand '~': HOME is not set"@,
            ConfigError::HomeNotSetForTildePrefix => "cannot expand '~/' or '~\\': HOME is not set"@,
            ConfigError::MissingConfigValue => "missing file path after -config/--config"@,
        }
    }

    /// The text of the error.
    pub fn message(&self) -> (r: String)
        ensures
            r@ == self.spec_message(),
    {
        match self {
            ConfigError::EmptyHost => String::from_str("config.host must not be empty"),
            ConfigError::ZeroPort => String::from_str("config.port must be greater than 0"),
            ConfigError::EmptyMemoryLimit => String::from_str("config.memory_limit must not be empty"),
            ConfigError::ZeroThreads => String::from_str("config.threads must be greater than 0"),
            ConfigError::ZeroSqlPreviewChars => String::from_str("config.logging.sql_preview_chars must be greater than 0"),
            ConfigError::ZeroSlowQueryThreshold => String::from_str("config.logging.slow_query_threshold_ms must be greater than 0"),
            ConfigError::EmptyLogFileName => String::from_str("config.logging.log_file_name must not be empty when file logging is enabled"),
            ConfigError::HomeNotSetForTilde => String::from_str("cannot expand '~': HOME is not set"),
            ConfigError::HomeNotSetForTildePrefix => String::from_str("cannot expand '~/' or '~\\': HOME is not set"),
            ConfigError::MissingConfigValue => String::from_str("missing file path after -config/--config"),
        }
    }
}

/// Request and slow-query logging of the gateway.
#[derive(Debug, Clone)]
pub struct LoggingConfig {
    pub enabled: bool,
    pub file_enabled: bool,
    pub stderr_enabled: bool,
    pub request_log_enabled: bool,
    pub slow_query_log_enabled: bool,
    pub slow_query_threshold_ms: u64,
    pub slow_query_full_sql_enabled: bool,
    pub sql_preview_chars: usize,
    pub log_dir: String,
    pub log_file_name: String,
}

/// Guardrails applied to the shared DuckDB connection.
#[derive(Debug, Clone)]
pub struct HardeningConfig {
    pub enforce_db_file_lock: bool,
    pub enable_external_access: bool,
    pub allowed_directories: Vec<String>,
    pub allowed_paths: Vec<String>,
    pub allow_community_extensions: bool,
    pub autoload_known_extensions: bool,
    pub autoinstall_known_extensions: bool,
    pub lock_configuration: bool,
    pub checkpoint_on_shutdown: bool,
}

/// The gateway's configuration.
#[derive(Debug, Clone)]
pub struct Config {
    pub host: String,
    pub port: u16,
    pub db_path: String,
    pub memory_limit: String,
    pub threads: usize,
    pub hardening: HardeningConfig,
    pub logging: LoggingConfig,
}

/// A configuration together with the file it came from, if any.
#[derive(Debug, Clone)]
pub struct LoadedConfig {
    pub config: Config,
    pub source: Option<String>,
}

impl Default for LoggingConfig {
    fn default() -> (r: Self)
        ensures
            r.enabled && r.file_enabled && r.stderr_enabled && r.request_log_enabled,
            r.slow_query_log_enabled && r.slow_query_full_sql_enabled,
            r.slow_query_threshold_ms == 1000,
            r.sql_preview_chars == 160,
            r.log_dir@ == Seq::<char>::empty(),
            r.log_file_name@ == "vldb-duckdb.log"@,
            r.spec_violation() is None,
    {
        proof {
            reveal_strlit("vldb-duckdb.log");
            assert(!crate::text::is_ws("vldb-duckdb.log"@[0]));
        }
        LoggingConfig {
            enabled: true,
            file_enabled: true,
            stderr_enabled: true,
            request_log_enabled: true,
            slow_query_log_enabled: true,
            slow_query_threshold_ms: 1000,
            slow_query_full_sql_enabled: true,
            sql_preview_chars: 160,
            log_dir: String::new(),
            log_file_name: String::from_str("vldb-duckdb.log"),
        }
    }
}

impl Default for HardeningConfig {
    fn default() -> (r: Self)
        ensures
            r.enforce_db_file_lock,
            !r.enable_external_access,
            r.allowed_directories@.len() == 0,
            r.allowed_paths@.len() == 0,
            !r.allow_community_extensions,
            !r.autoload_known_extensions,
            !r.autoinstall_known_extensions,
            r.lock_configuration,
            r.checkpoint_on_shutdown,
    {
        HardeningConfig {
            enforce_db_file_lock: true,
            enable_external_access: false,
            allowed_directories: Vec::new(),
            allowed_paths: Vec::new(),
            allow_community_extensions: false,
            autoload_known_extensions: false,
            autoinstall_known_extensions: false,
            lock_configuration: true,
            checkpoint_on_shutdown: true,
        }
    }
}

/// The settings of the default configuration other than its paths.
pub open spec fn default_settings(c: Config) -> bool {
    &&& c.host@ == "0.0.0.0"@
    &&& c.port == 50052
    &&& c.memory_limit@ == "2GB"@
    &&& c.threads == 4
    &&& c.hardening.enforce_db_file_lock
    &&& !c.hardening.enable_external_access
    &&& !c.hardening.allow_community_extensions
    &&& !c.hardening.autoload_known_extensions
    &&& !c.hardening.autoinstall_known_extensions
    &&& c.hardening.lock_configuration
    &&& c.hardening.checkpoint_on_shutdown
    &&& c.logging.enabled
    &&& c.logging.file_enabled
    &&& c.logging.stderr_enabled
    &&& c.logging.request_log_enabled
    &&& c.logging.slow_query_log_enabled
    &&& c.logging.slow_query_full_sql_enabled
    &&& c.logging.slow_query_threshold_ms == 1000
    &&& c.logging.sql_preview_chars == 160
    &&& c.logging.log_file_name@ == "vldb-duckdb.log"@
}

impl Default for Config {
    fn default() -> (r: Self)
        ensures
            default_settings(r),
            r.db_path@ == "./data/duckdb.db"@,
            r.hardening.allowed_directories@.len() == 0,
            r.hardening.allowed_paths@.len() == 0,
            r.logging.log_dir@ == Seq::<char>::empty(),
            r.spec_violation() is None,
    {
        proof {
            reveal_strlit("0.0.0.0");
            reveal_strlit("2GB");
            reveal_strlit("vldb-duckdb.log");
            assert(!crate::text::is_ws("0.0.0.0"@[0]));
            assert(!crate::text::is_ws("2GB"@[0]));
        }
        Config {
            host: String::from_str("0.0.0.0"),
            port: 50052,
            db_path: String::from_str("./data/duckdb.db"),
            memory_limit: String::from_str("2GB"),
            threads: 4,
            hardening: HardeningConfig::default(),
            logging: LoggingConfig::default(),
        }
    }
}

impl LoggingConfig {
    /// The first rule that the logging section breaks, in the order checked.
    pub open spec fn spec_violation(self) -> Option<ConfigError> {
        if self.sql_preview_chars == 0 {
            Some(ConfigError::ZeroSqlPreviewChars)
        } else if self.slow_query_threshold_ms == 0 {
            Some(ConfigError::ZeroSlowQueryThreshold)
        } else if self.file_enabled && all_ws(self.log_file_name@) {
            Some(ConfigError::EmptyLogFileName)
        } else {
            None
        }
    }

    /// Checks the logging section.
    pub fn validate(&self) -> (r: Result<(), ConfigError>)
        ensures
            r == (match self.spec_violation() {
                Some(e) => Err(e),
                None => Ok(()),
            }),
    {
        if self.sql_preview_chars == 0 {
            return Err(ConfigError::ZeroSqlPreviewChars);
        }
        if self.slow_query_threshold_ms == 0 {
            return Err(ConfigError::ZeroSlowQueryThreshold);
        }
        if self.file_enabled && is_blank(&self.log_file_name) {
            return Err(ConfigError::EmptyLogFileName);
        }
        Ok(())
    }
}

impl Config {
    /// The first rule that the configuration breaks, in the order checked.
    pub open spec fn spec_violation(self) -> Option<ConfigError> {
        if all_ws(self.host@) {
            Some(ConfigError::EmptyHost)
        } else if self.port == 0 {
            Some(ConfigError::ZeroPort)
        } else if all_ws(self.memory_limit@) {
            Some(ConfigError::EmptyMemoryLimit)
        } else if self.threads == 0 {
            Some(ConfigError::ZeroThreads)
        } else {
            self.logging.spec_violation()
        }
    }

    /// Checks the configuration.
    pub fn validate(&self) -> (r: Result<(), ConfigError>)
        ensures
            r == (match self.spec_violation() {
                Some(e) => Err(e),
                None => Ok(()),
            }),
    {
        if is_blank(&self.host) {
            return Err(ConfigError::EmptyHost);
        }
        if self.port == 0 {
            return Err(ConfigError::ZeroPort);
        }
        if is_blank(&self.memory_limit) {
            return Err(ConfigError::EmptyMemoryLimit);
        }
        if self.threads == 0 {
            return Err(ConfigError::ZeroThreads);
        }
        self.logging.validate()
    }
}

/// `~` expansion: `~` alone is the home directory, `~/rest` and `~\rest` are
/// `rest` under it; any other path is unchanged.
pub open spec fn spec_expand_tilde(path: Seq<char>, home: Option<Seq<char>>) -> Result<
    Seq<char>,
    ConfigError,
> {
    if path == "~"@ {
        match home {
            Some(h) => Ok(h),
            None => Err(ConfigError::HomeNotSetForTilde),
        }
    } else if has_prefix(path, "~/"@) || has_prefix(path, "~\\"@) {
        match home {
            Some(h) => Ok(join_path(h, path.subrange(2, path.len() as int))),
            None => Err(ConfigError::HomeNotSetForTildePrefix),
        }
    } else {
        Ok(path)
    }
}

/// A path made absolute against `base_dir` (after `~` expansion) and normalised.
pub open spec fn spec_expand_path(path: Seq<char>, base_dir: Seq<char>, home: Option<Seq<char>>) -> Result<
    Seq<char>,
    ConfigError,
> {
    match spec_expand_tilde(path, home) {
        Ok(p) => Ok(normalize_keep(if is_root(p) { p } else { join_path(base_dir, p) })),
        Err(e) => Err(e),
    }
}

/// The log directory used when none is configured: beside the database, named
/// after its file stem with `_log` appended.
pub open spec fn spec_default_log_dir(db_path: Seq<char>) -> Seq<char> {
    let parent = match parent_of(db_path) {
        Some(p) => p,
        None => "."@,
    };
    match file_name_of(db_path) {
        Some(name) => join_path(parent, stem_of(name) + "_log"@),
        None => join_path(parent, "duckdb_log"@),
    }
}

/// The log directory: the configured one resolved like any other path, or
/// the default one beside the database.
pub open spec fn spec_resolve_log_dir(
    configured: Seq<char>,
    db_path: Seq<char>,
    base_dir: Seq<char>,
    home: Option<Seq<char>>,
) -> Result<Seq<char>, ConfigError> {
    if configured.len() == 0 {
        Ok(spec_default_log_dir(db_path))
    } else {
        spec_expand_path(configured, base_dir, home)
    }
}

pub open spec fn opt_view(o: Option<&str>) -> Option<Seq<char>> {
    match o {
        Some(s) => Some(s@),
        None => None,
    }
}

/// Expands a leading `~` with the given home directory.
pub fn expand_tilde(path: &str, home: Option<&str>) -> (r: Result<String, ConfigError>)
    ensures
        match (r, spec_expand_tilde(path@, opt_view(home))) {
            (Ok(a), Ok(b)) => a@ == b,
            (Err(a), Err(b)) => a == b,
            _ => false,
        },
{
    proof {
        reveal_strlit("~");
        reveal_strlit("~/");
        reveal_strlit("~\\");
    }
    let chars = chars_of(path);
    if chars.len() == 1 && chars[0] == '~' {
        assert(path@ =~= "~"@);
        return match home {
            Some(h) => Ok(String::from_str(h)),
            None => Err(ConfigError::HomeNotSetForTilde),
        };
    }
    assert(path@ != "~"@);
    if starts_with_seq(&chars, "~/") || starts_with_seq(&chars, "~\\") {
        return match home {
            Some(h) => {
                let rest = string_from_range(&chars, 2, chars.len());
                Ok(join_path_exec(h, &rest))
            },
            None => Err(ConfigError::HomeNotSetForTildePrefix),
        };
    }
    Ok(String::from_str(path))
}

/// Resolves a path against a base directory: `~` is expanded, a relative
/// path is joined to the base, and the result is normalised.
pub fn expand_path(path: &str, base_dir: &str, home: Option<&str>) -> (r: Result<String, ConfigError>)
    ensures
        match (r, spec_expand_path(path@, base_dir@, opt_view(home))) {
            (Ok(a), Ok(b)) => a@ == b,
            (Err(a), Err(b)) => a == b,
            _ => false,
        },
{
    let with_home = expand_tilde(path, home)?;
    let wc = chars_of(&with_home);
    let absolute_or_relative = if wc.len() > 0 && wc[0] == '/' {
        with_home
    } else {
        join_path_exec(base_dir, &with_home)
    };
    Ok(normalize_keep_exec(&absolute_or_relative))
}

/// The default log directory for a database file.
pub fn derive_default_log_dir(db_path: &str) -> (r: String)
    ensures
        r@ == spec_default_log_dir(db_path@),
{
    proof {
        reveal_strlit(".");
        reveal_strlit("_log");
        reveal_strlit("duckdb_log");
    }
    let parent = match parent_exec(db_path) {
        Some(p) => p,
        None => String::from_str("."),
    };
    match file_name_exec(db_path) {
        Some(name) => {
            let stem = stem_exec(&name);
            let stem_text = crate::text::string_from_chars(&stem);
            let leaf = concat2(&stem_text, "_log");
            join_path_exec(&parent, &leaf)
        },
        None => join_path_exec(&parent, "duckdb_log"),
    }
}

/// The log directory for the configured value (empty means the default).
pub fn resolve_log_dir(configured_dir: &str, db_path: &str, base_dir: &str, home: Option<&str>) -> (r:
    Result<String, ConfigError>)
    ensures
        match (r, spec_resolve_log_dir(configured_dir@, db_path@, base_dir@, opt_view(home))) {
            (Ok(a), Ok(b)) => a@ == b,
            (Err(a), Err(b)) => a == b,
            _ => false,
        },
{
    if configured_dir.is_empty() {
        return Ok(derive_default_log_dir(db_path));
    }
    expand_path(configured_dir, base_dir, home)
}

/// The `-config` option among the program's arguments (without the program
/// name): the value after `-config`/`--config`, or the text after
/// `-config=`/`--config=`, whichever comes first.
pub open spec fn spec_config_arg(args: Seq<String>, i: int) -> Result<Option<Seq<char>>, ConfigError>
    decreases args.len() - i,
{
    if i < 0 || i >= args.len() {
        Ok(None)
    } else {
        let a = args[i]@;
        if a == "-config"@ || a == "--config"@ {
            if i + 1 < args.len() {
                Ok(Some(args[i + 1]@))
            } else {
                Err(ConfigError::MissingConfigValue)
            }
        } else if has_prefix(a, "-config="@) {
            Ok(Some(a.subrange(8, a.len() as int)))
        } else if has_prefix(a, "--config="@) {
            Ok(Some(a.subrange(9, a.len() as int)))
        } else {
            spec_config_arg(args, i + 1)
        }
    }
}

/// Finds the `-config` option in the arguments after the program name.
pub fn parse_config_arg(args: &Vec<String>) -> (r: Result<Option<String>, ConfigError>)
    ensures
        match (r, spec_config_arg(args@, 0)) {
            (Ok(Some(a)), Ok(Some(b))) => a@ == b,
            (Ok(None), Ok(None)) => true,
            (Err(a), Err(b)) => a == b,
            _ => false,
        },
{
    proof {
        reveal_strlit("-config");
        reveal_strlit("--config");
        reveal_strlit("-config=");
        reveal_strlit("--config=");
    }
    let mut i: usize = 0;
    while i < args.len()
        invariant
            0 <= i <= args.len(),
            spec_config_arg(args@, 0) == spec_config_arg(args@, i as int),
        decreases args.len() - i,
    {
        proof {
            reveal_strlit("-config=");
            reveal_strlit("--config=");
        }
        let arg = &args[i];
        let chars = chars_of(arg);
        let is_flag = eq_str(&chars, "-config") || eq_str(&chars, "--config");
        if is_flag {
            if i + 1 < args.len() {
                return Ok(Some(args[i + 1].clone()));
            }
            return Err(ConfigError::MissingConfigValue);
        }
        if starts_with_seq(&chars, "-config=") {
            return Ok(Some(string_from_range(&chars, 8, chars.len())));
        }
        if starts_with_seq(&chars, "--config=") {
            return Ok(Some(string_from_range(&chars, 9, chars.len())));
        }
        i += 1;
    }
    Ok(None)
}

/// The config files searched when no `-config` is given: the one in the
/// working directory, then the one beside the executable where that is
/// another path.
pub open spec fn spec_search_paths(cwd: Seq<char>, exe: Option<Seq<char>>) -> Seq<Seq<char>> {
    let first = join_path(cwd, primary_config_name());
    match exe {
        Some(e) => match parent_of(e) {
            Some(dir) => {
                let second = join_path(dir, primary_config_name());
                if same_path(second, first) {
                    seq![first]
                } else {
                    seq![first, second]
                }
            },
            None => seq![first],
        },
        None => seq![first],
    }
}

/// The candidate config files, in the order they are tried.
pub fn default_search_paths(cwd: &str, exe: Option<&str>) -> (r: Vec<String>)
    ensures
        r@.len() == spec_search_paths(cwd@, opt_view(exe)).len(),
        forall|i: int| 0 <= i < r@.len() ==> r@[i]@ == spec_search_paths(cwd@, opt_view(exe))[i],
{
    let first = join_path_exec(cwd, "vldb-duckdb.json");
    let mut candidates: Vec<String> = Vec::new();
    if let Some(e) = exe {
        if let Some(dir) = parent_exec(e) {
            let second = join_path_exec(&dir, "vldb-duckdb.json");
            let same = same_path_exec(&second, &first);
            candidates.push(first);
            if !same {
                candidates.push(second);
            }
            return candidates;
        }
    }
    candidates.push(first);
    candidates
}

/// The directory that relative paths in a config file are resolved against:
/// the file's own directory, or the working directory.
pub open spec fn spec_config_base_dir(config_path: Seq<char>, cwd: Seq<char>) -> Seq<char> {
    match parent_of(config_path) {
        Some(p) => p,
        None => cwd,
    }
}

/// The directory a config file's relative paths are resolved against.
pub fn config_base_dir(config_path: &str, cwd: &str) -> (r: String)
    ensures
        r@ == spec_config_base_dir(config_path@, cwd@),
{
    match parent_exec(config_path) {
        Some(p) => p,
        None => String::from_str(cwd),
    }
}

/// Every path of the list resolves.
pub open spec fn paths_expand(paths: Seq<String>, base_dir: Seq<char>, home: Option<Seq<char>>) -> bool {
    forall|i: int| 0 <= i < paths.len() ==> (#[trigger] spec_expand_path(paths[i]@, base_dir, home)) is Ok
}

/// `out` holds each path of the list resolved, in order.
pub open spec fn paths_expanded(
    paths: Seq<String>,
    out: Seq<String>,
    base_dir: Seq<char>,
    home: Option<Seq<char>>,
) -> bool {
    &&& out.len() == paths.len()
    &&& forall|i: int|
        0 <= i < paths.len() ==> #[trigger] spec_expand_path(paths[i]@, base_dir, home) == Ok::<
            Seq<char>,
            ConfigError,
        >(out[i]@)
}

/// `e` is the error of the first path of the list that does not resolve.
pub open spec fn first_path_error(
    paths: Seq<String>,
    base_dir: Seq<char>,
    home: Option<Seq<char>>,
    e: ConfigError,
) -> bool {
    exists|k: int|
        0 <= k < paths.len() && #[trigger] spec_expand_path(paths[k]@, base_dir, home) == Err::<
            Seq<char>,
            ConfigError,
        >(e) && forall|j: int| 0 <= j < k ==> (#[trigger] spec_expand_path(paths[j]@, base_dir, home)) is Ok
}

/// Resolves each path of a list against a base directory; the first failure
/// is returned.
pub fn expand_path_list(paths: &Vec<String>, base_dir: &str, home: Option<&str>) -> (r: Result<
    Vec<String>,
    ConfigError,
>)
    ensures
        r is Ok <==> paths_expand(paths@, base_dir@, opt_view(home)),
        r matches Ok(v) ==> paths_expanded(paths@, v@, base_dir@, opt_view(home)),
        r matches Err(e) ==> first_path_error(paths@, base_dir@, opt_view(home), e),
{
    let mut out: Vec<String> = Vec::new();
    let mut i: usize = 0;
    while i < paths.len()
        invariant
            0 <= i <= paths.len(),
            out@.len() == i,
            forall|j: int|
                0 <= j < i ==> #[trigger] spec_expand_path(paths@[j]@, base_dir@, opt_view(home)) == Ok::<
                    Seq<char>,
                    ConfigError,
                >(out@[j]@),
        decreases paths.len() - i,
    {
        match expand_path(&paths[i], base_dir, home) {
            Ok(p) => out.push(p),
            Err(e) => {
                assert(spec_expand_path(paths@[i as int]@, base_dir@, opt_view(home)) == Err::<Seq<char>, ConfigError>(e));
                assert(first_path_error(paths@, base_dir@, opt_view(home), e));
                return Err(e);
            },
        }
        i += 1;
    }
    Ok(out)
}

/// The error of the first step of resolving and validating a configuration
/// that fails, if one does: the database path, the log directory, the
/// allowed directories, the allowed paths, then the rules of `validate`.
pub open spec fn finish_error_is(config: Config, base_dir: Seq<char>, home: Option<Seq<char>>, e: ConfigError) -> bool {
    let db = spec_expand_path(config.db_path@, base_dir, home);
    match db {
        Err(d) => d == e,
        Ok(db_path) => match spec_resolve_log_dir(config.logging.log_dir@, db_path, base_dir, home) {
            Err(l) => l == e,
            Ok(_) => if !paths_expand(config.hardening.allowed_directories@, base_dir, home) {
                first_path_error(config.hardening.allowed_directories@, base_dir, home, e)
            } else if !paths_expand(config.hardening.allowed_paths@, base_dir, home) {
                first_path_error(config.hardening.allowed_paths@, base_dir, home, e)
            } else {
                config.spec_violation() == Some(e)
            },
        },
    }
}

/// Every step of resolving and validating a configuration succeeds.
pub open spec fn finish_succeeds(config: Config, base_dir: Seq<char>, home: Option<Seq<char>>) -> bool {
    &&& spec_expand_path(config.db_path@, base_dir, home) matches Ok(db_path)
    &&& spec_resolve_log_dir(config.logging.log_dir@, db_path, base_dir, home) is Ok
    &&& paths_expand(config.hardening.allowed_directories@, base_dir, home)
    &&& paths_expand(config.hardening.allowed_paths@, base_dir, home)
    &&& config.spec_violation() is None
}

/// The settings other than paths are carried over unchanged.
pub open spec fn same_settings(a: Config, b: Config) -> bool {
    &&& a.host == b.host
    &&& a.port == b.port
    &&& a.memory_limit == b.memory_limit
    &&& a.threads == b.threads
    &&& a.hardening.enforce_db_file_lock == b.hardening.enforce_db_file_lock
    &&& a.hardening.enable_external_access == b.hardening.enable_external_access
    &&& a.hardening.allow_community_extensions == b.hardening.allow_community_extensions
    &&& a.hardening.autoload_known_extensions == b.hardening.autoload_known_extensions
    &&& a.hardening.autoinstall_known_extensions == b.hardening.autoinstall_known_extensions
    &&& a.hardening.lock_configuration == b.hardening.lock_configuration
    &&& a.hardening.checkpoint_on_shutdown == b.hardening.checkpoint_on_shutdown
    &&& a.logging.enabled == b.logging.enabled
    &&& a.logging.file_enabled == b.logging.file_enabled
    &&& a.logging.stderr_enabled == b.logging.stderr_enabled
    &&& a.logging.request_log_enabled == b.logging.request_log_enabled
    &&& a.logging.slow_query_log_enabled == b.logging.slow_query_log_enabled
    &&& a.logging.slow_query_threshold_ms == b.logging.slow_query_threshold_ms
    &&& a.logging.slow_query_full_sql_enabled == b.logging.slow_query_full_sql_enabled
    &&& a.logging.sql_preview_chars == b.logging.sql_preview_chars
    &&& a.logging.log_file_name == b.logging.log_file_name
}

/// Resolves the paths of a configuration read from `source` (or the
/// defaults, with no source) against `base_dir`, then validates it: the
/// database path, the log directory and the hardening allow-lists are
/// resolved in that order, and the first step that fails gives the error.
pub fn finish_config(config: Config, source: Option<String>, base_dir: &str, home: Option<&str>) -> (r:
    Result<LoadedConfig, ConfigError>)
    ensures
        r is Ok <==> finish_succeeds(config, base_dir@, opt_view(home)),
        r matches Err(e) ==> finish_error_is(config, base_dir@, opt_view(home), e),
        r matches Ok(loaded) ==> {
            &&& spec_expand_path(config.db_path@, base_dir@, opt_view(home)) == Ok::<
                Seq<char>,
                ConfigError,
            >(loaded.config.db_path@)
            &&& spec_resolve_log_dir(
                config.logging.log_dir@,
                loaded.config.db_path@,
                base_dir@,
                opt_view(home),
            ) == Ok::<Seq<char>, ConfigError>(loaded.config.logging.log_dir@)
            &&& paths_expanded(
                config.hardening.allowed_directories@,
                loaded.config.hardening.allowed_directories@,
                base_dir@,
                opt_view(home),
            )
            &&& paths_expanded(
                config.hardening.allowed_paths@,
                loaded.config.hardening.allowed_paths@,
                base_dir@,
                opt_view(home),
            )
            &&& same_settings(loaded.config, config)
            &&& loaded.config.spec_violation() is None
            &&& loaded.source == source
        },
{
    let ghost original = config;
    let ghost h = opt_view(home);
    let mut config = config;
    config.db_path = match expand_path(&config.db_path, base_dir, home) {
        Ok(p) => p,
        Err(e) => return Err(e),
    };
    config.logging.log_dir = match resolve_log_dir(&config.logging.log_dir, &config.db_path, base_dir, home) {
        Ok(p) => p,
        Err(e) => return Err(e),
    };
    config.hardening.allowed_directories = match expand_path_list(
        &config.hardening.allowed_directories,
        base_dir,
        home,
    ) {
        Ok(v) => v,
        Err(e) => return Err(e),
    };
    config.hardening.allowed_paths = match expand_path_list(&config.hardening.allowed_paths, base_dir, home) {
        Ok(v) => v,
        Err(e) => return Err(e),
    };
    assert(same_settings(config, original));
    assert(config.spec_violation() == original.spec_violation());
    match config.validate() {
        Ok(()) => Ok(LoadedConfig { config, source }),
        Err(e) => Err(e),
    }
}

/// The configuration used when no config file is found: the defaults, with
/// the database and log directory resolved against the working directory.
/// It always loads.
pub fn default_loaded_config(cwd: &str, home: Option<&str>) -> (r: LoadedConfig)
    ensures
        r.source is None,
        r.config.db_path@ == normalize_keep(join_path(cwd@, "./data/duckdb.db"@)),
        r.config.logging.log_dir@ == spec_default_log_dir(r.config.db_path@),
        r.config.hardening.allowed_directories@.len() == 0,
        r.config.hardening.allowed_paths@.len() == 0,
        default_settings(r.config),
        r.config.spec_violation() is None,
{
    let config = Config::default();
    let ghost defaults = config;
    proof {
        reveal_strlit("./data/duckdb.db");
        reveal_strlit("~");
        reveal_strlit("~/");
        reveal_strlit("~\\");
        let path = "./data/duckdb.db"@;
        assert(path[0] == '.');
        assert(!is_root(path));
        assert(path != "~"@);
        assert(path.subrange(0, 2)[0] == '.');
        assert(!has_prefix(path, "~/"@)) by {
            assert("~/"@[0] == '~');
        }
        assert(!has_prefix(path, "~\\"@)) by {
            assert("~\\"@[0] == '~');
        }
        assert(spec_expand_tilde(path, opt_view(home)) == Ok::<Seq<char>, ConfigError>(path));
        assert(defaults.db_path@ == path);
        assert(spec_expand_path(defaults.db_path@, cwd@, opt_view(home)) == Ok::<Seq<char>, ConfigError>(
            normalize_keep(join_path(cwd@, path)),
        ));
        assert(paths_expand(defaults.hardening.allowed_directories@, cwd@, opt_view(home)));
        assert(paths_expand(defaults.hardening.allowed_paths@, cwd@, opt_view(home)));
    }
    match finish_config(config, None, cwd, home) {
        Ok(loaded) => loaded,
        Err(_) => vstd::pervasive::unreached(),
    }
}

/// `k` is the first candidate that `is_file` finds: each before it was
/// answered `false`, and it `true`.
pub open spec fn first_found<F: Fn(&str) -> bool>(is_file: F, candidates: Seq<Seq<char>>, k: int) -> bool {
    &&& 0 <= k < candidates.len()
    &&& forall|j: int| 0 <= j < k ==> answered(is_file, #[trigger] candidates[j], false)
    &&& answered(is_file, candidates[k], true)
}

/// The config file to load, resolved against the working directory: the
/// `-config` value when one is given, else the first of the search paths
/// that `is_file` finds; `None` means the built-in defaults.
pub fn config_source<F: Fn(&str) -> bool>(
    args: &Vec<String>,
    cwd: &str,
    exe: Option<&str>,
    home: Option<&str>,
    is_file: F,
) -> (r: Result<Option<String>, ConfigError>)
    requires
        forall|s: &str| is_file.requires((s,)),
    ensures
        ({
            let candidates = spec_search_paths(cwd@, opt_view(exe));
            match spec_config_arg(args@, 0) {
                Err(e) => r == Err::<Option<String>, ConfigError>(e),
                Ok(Some(p)) => match (r, spec_expand_path(p, cwd@, opt_view(home))) {
                    (Ok(Some(a)), Ok(b)) => a@ == b,
                    (Err(a), Err(b)) => a == b,
                    _ => false,
                },
                Ok(None) => match r {
                    Ok(None) => forall|j: int|
                        0 <= j < candidates.len() ==> answered(is_file, #[trigger] candidates[j], false),
                    Ok(Some(a)) => exists|k: int|
                        first_found(is_file, candidates, k) && #[trigger] spec_expand_path(
                            candidates[k],
                            cwd@,
                            opt_view(home),
                        ) == Ok::<Seq<char>, ConfigError>(a@),
                    Err(e) => exists|k: int|
                        first_found(is_file, candidates, k) && #[trigger] spec_expand_path(
                            candidates[k],
                            cwd@,
                            opt_view(home),
                        ) == Err::<Seq<char>, ConfigError>(e),
                },
            }
        }),
{
    let explicit = match parse_config_arg(args) {
        Ok(v) => v,
        Err(e) => return Err(e),
    };
    if let Some(p) = explicit {
        return match expand_path(&p, cwd, home) {
            Ok(resolved) => Ok(Some(resolved)),
            Err(e) => Err(e),
        };
    }
    let candidates = default_search_paths(cwd, exe);
    let ghost cands = spec_search_paths(cwd@, opt_view(exe));
    let mut i: usize = 0;
    while i < candidates.len()
        invariant
            0 <= i <= candidates.len(),
            candidates@.len() == cands.len(),
            forall|j: int| 0 <= j < candidates@.len() ==> candidates@[j]@ == cands[j],
            forall|s: &str| is_file.requires((s,)),
            forall|j: int| 0 <= j < i ==> answered(is_file, #[trigger] cands[j], false),
            spec_config_arg(args@, 0) == Ok::<Option<Seq<char>>, ConfigError>(None),
            cands == spec_search_paths(cwd@, opt_view(exe)),
        decreases candidates.len() - i,
    {
        let candidate = &candidates[i];
        let found = is_file(candidate.as_str());
        if found {
            assert(answered(is_file, cands[i as int], true));
            assert(first_found(is_file, cands, i as int));
            assert(candidate@ == cands[i as int]);
            return match expand_path(candidate, cwd, home) {
                Ok(resolved) => {
                    assert(spec_expand_path(cands[i as int], cwd@, opt_view(home)) == Ok::<Seq<char>, ConfigError>(resolved@));
                    Ok(Some(resolved))
                },
                Err(e) => {
                    assert(spec_expand_path(cands[i as int], cwd@, opt_view(home)) == Err::<Seq<char>, ConfigError>(e));
                    Err(e)
                },
            };
        }
        assert(answered(is_file, cands[i as int], false));
        i += 1;
    }
    Ok(None)
}

} // verus!
