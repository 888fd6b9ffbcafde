//! The services of a workspace as the manager sees them: where their
//! sources, configs and binaries lie, what their config says, and in which
//! state a service is.
use vstd::prelude::*;
use crate::duckdb_request::TimeSpan;
use crate::json::{spec_as_str, spec_as_u64, spec_get, Json, JsonV};
use crate::lancedb_config::{looks_like_uri, looks_like_uri_exec};
use crate::paths::{
    file_name_exec, file_name_of, join_path, join_path_exec, normalize_drop, normalize_drop_exec,
    parent_exec, parent_of, path_parts, path_parts_exec, render, render_exec, stem_exec, stem_of,
    is_root, views, lemma_views_drop_last,
};
use crate::text::{
    chars_of, concat2, concat3, dec, dec_int, push_all, render_i128, render_u128, string_from_chars,
    trim_seq, trim_string,
};

verus! {

/// The services a workspace holds.
#[derive(Debug, Clone, Copy, PartialEq, Eq, Structural, Hash)]
pub enum ServiceId {
    LanceDb,
    DuckDb,
}

pub open spec fn service_label(id: ServiceId) -> Seq<char> {
    match id {
        ServiceId::LanceDb => "vldb-lancedb"@,
        ServiceId::DuckDb => "vldb-duckdb"@,
    }
}

pub open spec fn service_short_label(id: ServiceId) -> Seq<char> {
    match id {
        ServiceId::LanceDb => "LanceDB"@,
        ServiceId::DuckDb => "DuckDB"@,
    }
}

impl ServiceId {
    /// The service's package name.
    pub fn label(self) -> (r: &'static str)
        ensures
            r@ == service_label(self),
    {
        match self {
            ServiceId::LanceDb => "vldb-lancedb",
            ServiceId::DuckDb => "vldb-duckdb",
        }
    }

    /// The name of the database engine.
    pub fn short_label(self) -> (r: &'static str)
        ensures
            r@ == service_short_label(self),
    {
        match self {
            ServiceId::LanceDb => "LanceDB",
            ServiceId::DuckDb => "DuckDB",
        }
    }
}

/// The cargo profile a service is built with.
#[derive(Debug, Clone, Copy, PartialEq, Eq, Structural)]
pub enum BuildProfile {
    Debug,
    Release,
}

pub open spec fn profile_label(p: BuildProfile) -> Seq<char> {
    match p {
        BuildProfile::Debug => "debug"@,
        BuildProfile::Release => "release"@,
    }
}

pub open spec fn spec_toggle(p: BuildProfile) -> BuildProfile {
    match p {
        BuildProfile::Debug => BuildProfile::Release,
        BuildProfile::Release => BuildProfile::Debug,
    }
}

impl BuildProfile {
    /// The other profile.
    pub fn toggle(self) -> (r: Self)
        ensures
            r == spec_toggle(self),
            r != self,
    {
        match self {
            BuildProfile::Debug => BuildProfile::Release,
            BuildProfile::Release => BuildProfile::Debug,
        }
    }

    /// The profile's name, which is also its directory under `target`.
    pub fn label(self) -> (r: &'static str)
        ensures
            r@ == profile_label(self),
    {
        match self {
            BuildProfile::Debug => "debug",
            BuildProfile::Release => "release",
        }
    }

    /// The flag `cargo build` needs for the profile.
    pub fn cargo_flag(self) -> (r: Option<&'static str>)
        ensures
            self is Debug ==> r is None,
            self is Release ==> (r matches Some(f) && f@ == "--release"@),
    {
        match self {
            BuildProfile::Debug => None,
            BuildProfile::Release => Some("--release"),
        }
    }
}

/// Toggling the profile twice gives the profile back.
pub proof fn lemma_toggle_involutive(p: BuildProfile)
    ensures
        spec_toggle(spec_toggle(p)) == p,
        spec_toggle(p) != p,
{
}

/// What the manager knows of a service before reading its config.
#[derive(Debug, Clone, Copy)]
pub struct ServiceSpec {
    pub id: ServiceId,
    pub folder_name: &'static str,
    pub default_host: &'static str,
    pub default_port: u16,
    pub default_db_path: &'static str,
    pub default_log_file_name: &'static str,
}

/// The name of a program file on the platform (`.exe` on Windows).
pub open spec fn spec_executable_name(base: Seq<char>, windows: bool) -> Seq<char> {
    if windows {
        base + ".exe"@
    } else {
        base
    }
}

pub open spec fn spec_directory(s: ServiceSpec, root: Seq<char>) -> Seq<char> {
    join_path(root, s.folder_name@)
}

pub open spec fn spec_binary_path(s: ServiceSpec, root: Seq<char>, profile: BuildProfile, windows: bool) -> Seq<char> {
    join_path(
        join_path(join_path(spec_directory(s, root), "target"@), profile_label(profile)),
        spec_executable_name(s.folder_name@, windows),
    )
}

/// The name of the program file built from `base`.
pub fn executable_name(base: &str, windows: bool) -> (r: String)
    ensures
        r@ == spec_executable_name(base@, windows),
{
    proof {
        reveal_strlit(".exe");
    }
    if windows {
        concat2(base, ".exe")
    } else {
        String::from_str(base)
    }
}

impl ServiceSpec {
    /// The service's source directory.
    pub fn directory(self, workspace_root: &str) -> (r: String)
        ensures
            r@ == spec_directory(self, workspace_root@),
    {
        join_path_exec(workspace_root, self.folder_name)
    }

    /// The service's `Cargo.toml`.
    pub fn manifest_path(self, workspace_root: &str) -> (r: String)
        ensures
            r@ == join_path(spec_directory(self, workspace_root@), "Cargo.toml"@),
    {
        let dir = self.directory(workspace_root);
        join_path_exec(&dir, "Cargo.toml")
    }

    /// The example config shipped with the service.
    pub fn example_config_path(self, workspace_root: &str) -> (r: String)
        ensures
            r@ == join_path(spec_directory(self, workspace_root@), self.folder_name@ + ".json.example"@),
    {
        let dir = self.directory(workspace_root);
        let name = concat2(self.folder_name, ".json.example");
        join_path_exec(&dir, &name)
    }

    /// The config the manager runs the service with.
    pub fn workspace_config_path(self, workspace_root: &str) -> (r: String)
        ensures
            r@ == join_path(spec_directory(self, workspace_root@), self.folder_name@ + ".json"@),
    {
        let dir = self.directory(workspace_root);
        let name = concat2(self.folder_name, ".json");
        join_path_exec(&dir, &name)
    }

    /// The program cargo builds for the profile, on Windows or elsewhere.
    pub fn binary_path(self, workspace_root: &str, profile: BuildProfile, windows: bool) -> (r: String)
        ensures
            r@ == spec_binary_path(self, workspace_root@, profile, windows),
    {
        let name = executable_name(self.folder_name, windows);
        let profile_dir = match profile {
            BuildProfile::Debug => "debug",
            BuildProfile::Release => "release",
        };
        let dir = self.directory(workspace_root);
        let target = join_path_exec(&dir, "target");
        let out = join_path_exec(&target, profile_dir);
        join_path_exec(&out, &name)
    }
}

/// The built-in description of each service.
pub open spec fn is_builtin_spec(s: ServiceSpec) -> bool {
    match s.id {
        ServiceId::LanceDb => {
            &&& s.folder_name@ == "vldb-lancedb"@
            &&& s.default_host@ == "127.0.0.1"@
            &&& s.default_port == 19301
            &&& s.default_db_path@ == "./data"@
            &&& s.default_log_file_name@ == "vldb-lancedb.log"@
        },
        ServiceId::DuckDb => {
            &&& s.folder_name@ == "vldb-duckdb"@
            &&& s.default_host@ == "0.0.0.0"@
            &&& s.default_port == 19401
            &&& s.default_db_path@ == "./data/duckdb.db"@
            &&& s.default_log_file_name@ == "vldb-duckdb.log"@
        },
    }
}

/// The two services, LanceDB first.
pub fn service_specs() -> (r: [ServiceSpec; 2])
    ensures
        r@.len() == 2,
        r@[0].id == ServiceId::LanceDb,
        r@[1].id == ServiceId::DuckDb,
        is_builtin_spec(r@[0]),
        is_builtin_spec(r@[1]),
{
    [
        ServiceSpec {
            id: ServiceId::LanceDb,
            folder_name: "vldb-lancedb",
            default_host: "127.0.0.1",
            default_port: 19301,
            default_db_path: "./data",
            default_log_file_name: "vldb-lancedb.log",
        },
        ServiceSpec {
            id: ServiceId::DuckDb,
            folder_name: "vldb-duckdb",
            default_host: "0.0.0.0",
            default_port: 19401,
            default_db_path: "./data/duckdb.db",
            default_log_file_name: "vldb-duckdb.log",
        },
    ]
}

/// The two services as a list, LanceDB first.
pub fn service_spec_list() -> (r: Vec<ServiceSpec>)
    ensures
        r@.len() == 2,
        r@[0].id == ServiceId::LanceDb,
        r@[1].id == ServiceId::DuckDb,
        is_builtin_spec(r@[0]),
        is_builtin_spec(r@[1]),
{
    let specs = service_specs();
    let mut v: Vec<ServiceSpec> = Vec::new();
    v.push(specs[0]);
    v.push(specs[1]);
    v
}

/// A workspace: the directory that holds the sources of both services.
#[derive(Debug, Clone)]
pub struct Workspace {
    pub root: String,
    pub services: Vec<ServiceSpec>,
}

/// The directory `k` steps above `cwd`, taken by its components; `cwd` as
/// given for `k == 0`.
pub open spec fn ancestor(cwd: Seq<char>, k: int) -> Seq<char> {
    if k == 0 {
        cwd
    } else {
        render(is_root(cwd), path_parts(cwd).subrange(0, path_parts(cwd).len() - k))
    }
}

/// How many steps up from `cwd` there are before the search gives up.
pub open spec fn ancestor_count(cwd: Seq<char>) -> nat {
    path_parts(cwd).len()
}

/// A call of `f` with the text `t` answered `b`.
pub open spec fn answered<F: Fn(&str) -> bool>(f: F, t: Seq<char>, b: bool) -> bool {
    exists|s: &str| s@ == t && #[trigger] f.ensures((s,), b)
}

pub open spec fn discover_failure_message(cwd: Seq<char>) -> Seq<char> {
    "failed to locate workspace root from "@ + cwd
}

impl Workspace {
    /// Finds the workspace from `current_dir` upwards: the first directory,
    /// from `current_dir` itself through each parent, for which
    /// `has_service_dirs` answers `true` (the manager asks whether both
    /// service directories are there).
    pub fn discover<F: Fn(&str) -> bool>(current_dir: &str, has_service_dirs: F) -> (r: Result<Workspace, String>)
        requires
            forall|s: &str| has_service_dirs.requires((s,)),
        ensures
            r matches Ok(ws) ==> (exists|k: int|
                0 <= k <= ancestor_count(current_dir@) && ws.root@ == ancestor(current_dir@, k)
                    && answered(has_service_dirs, ancestor(current_dir@, k), true) && forall|j: int|
                    0 <= j < k ==> answered(has_service_dirs, ancestor(current_dir@, j), false)),
            r matches Ok(ws) ==> (ws.services@.len() == 2 && ws.services@[0].id == ServiceId::LanceDb
                && ws.services@[1].id == ServiceId::DuckDb && is_builtin_spec(ws.services@[0])
                && is_builtin_spec(ws.services@[1])),
            r matches Err(msg) ==> (msg@ == discover_failure_message(current_dir@) && forall|j: int|
                0 <= j <= ancestor_count(current_dir@) ==> answered(
                    has_service_dirs,
                    ancestor(current_dir@, j),
                    false,
                )),
    {
        let first = has_service_dirs(current_dir);
        if first {
            assert(answered(has_service_dirs, ancestor(current_dir@, 0), true));
            return Ok(Workspace { root: String::from_str(current_dir), services: service_spec_list() });
        }
        assert(answered(has_service_dirs, ancestor(current_dir@, 0), false));
        let chars = chars_of(current_dir);
        let (root, mut parts) = path_parts_exec(&chars);
        let ghost n = parts@.len();
        assert(path_parts(current_dir@).subrange(0, n as int) =~= path_parts(current_dir@));
        while parts.len() > 0
            invariant
                forall|s: &str| has_service_dirs.requires((s,)),
                n == path_parts(current_dir@).len(),
                parts@.len() <= n,
                root == is_root(current_dir@),
                views(parts@) == path_parts(current_dir@).subrange(0, parts@.len() as int),
                forall|j: int|
                    0 <= j <= n - parts@.len() ==> answered(
                        has_service_dirs,
                        ancestor(current_dir@, j),
                        false,
                    ),
            decreases parts.len(),
        {
            proof {
                lemma_views_drop_last(parts@);
            }
            parts.pop();
            assert(views(parts@) =~= path_parts(current_dir@).subrange(0, parts@.len() as int));
            let cand = render_exec(root, &parts);
            let ghost k = n - parts@.len();
            assert(cand@ == ancestor(current_dir@, k));
            let b = has_service_dirs(cand.as_str());
            if b {
                assert(answered(has_service_dirs, ancestor(current_dir@, k), true));
                return Ok(Workspace { root: cand, services: service_spec_list() });
            }
            assert(answered(has_service_dirs, ancestor(current_dir@, k), false));
        }
        Err(concat2("failed to locate workspace root from ", current_dir))
    }
}

/// Where a service's config was read from, and what the manager takes
/// from it.
#[derive(Debug, Clone)]
pub struct ServiceConfigSummary {
    pub source_path: String,
    pub source_label: &'static str,
    pub raw_text: String,
    pub host: String,
    pub probe_host: String,
    pub port: u16,
    pub db_path: String,
    pub log_dir: String,
    pub log_file_name: String,
    pub log_path: String,
}

/// An optional JSON value by its mathematical value.
pub open spec fn opt_json(v: Option<&Json>) -> Option<JsonV> {
    match v {
        Some(j) => Some(j@),
        None => None,
    }
}

/// The text of an optional value, or `default` where there is none or it
/// is no string.
pub open spec fn text_or(v: Option<JsonV>, default: Seq<char>) -> Seq<char> {
    match v {
        Some(j) => match spec_as_str(j) {
            Some(t) => t,
            None => default,
        },
        None => default,
    }
}

/// The port a config gives: an unsigned integer cut to its low 16 bits (as
/// `as u16` does), or `default`.
pub open spec fn port_or(v: Option<JsonV>, default: u16) -> int {
    match v {
        Some(j) => match spec_as_u64(j) {
            Some(n) => (n % 65536) as int,
            None => default as int,
        },
        None => default as int,
    }
}

/// An entry of the config's `logging` object.
pub open spec fn logging_entry(config: JsonV, key: Seq<char>) -> Option<JsonV> {
    match spec_get(config, "logging"@) {
        Some(l) => spec_get(l, key),
        None => None,
    }
}

/// The host to probe for a configured host: a wildcard or blank host is
/// probed on the loopback address.
pub open spec fn spec_probe_host(host: Seq<char>) -> Seq<char> {
    let t = trim_seq(host);
    if t == "0.0.0.0"@ || t == "::"@ || t == "[::]"@ || t.len() == 0 {
        "127.0.0.1"@
    } else {
        t
    }
}

/// Where a service writes its logs, as the manager works it out from the
/// config.
pub open spec fn spec_log_dir(id: ServiceId, configured: Seq<char>, db_path: Seq<char>, base_dir: Seq<char>) -> Seq<char> {
    if trim_seq(configured).len() > 0 {
        normalize_drop(join_path(base_dir, configured))
    } else {
        match id {
            ServiceId::LanceDb => if looks_like_uri(db_path) {
                normalize_drop(join_path(base_dir, "vldb-lancedb-logs"@))
            } else {
                normalize_drop(join_path(db_path, "logs"@))
            },
            ServiceId::DuckDb => {
                let parent = match parent_of(db_path) {
                    Some(p) => p,
                    None => "."@,
                };
                match file_name_of(db_path) {
                    Some(name) => normalize_drop(join_path(parent, stem_of(name) + "_log"@)),
                    None => normalize_drop(join_path(parent, "duckdb_log"@)),
                }
            },
        }
    }
}

/// The database location a config gives: a URI as it is, a path resolved
/// against the config's directory.
pub open spec fn spec_db_path(raw: Seq<char>, base_dir: Seq<char>) -> Seq<char> {
    if looks_like_uri(raw) {
        raw
    } else {
        normalize_drop(join_path(base_dir, raw))
    }
}

/// The directory a config's relative paths are resolved against.
pub open spec fn spec_config_dir(source_path: Seq<char>, workspace_root: Seq<char>) -> Seq<char> {
    match parent_of(source_path) {
        Some(p) => p,
        None => workspace_root,
    }
}

/// The probe host of a configured host.
pub fn normalize_probe_host(host: &str) -> (r: String)
    ensures
        r@ == spec_probe_host(host@),
{
    proof {
        reveal_strlit("0.0.0.0");
        reveal_strlit("::");
        reveal_strlit("[::]");
    }
    let trimmed = trim_string(host);
    let tc = chars_of(&trimmed);
    if crate::text::eq_str(&tc, "0.0.0.0") || crate::text::eq_str(&tc, "::")
        || crate::text::eq_str(&tc, "[::]") || tc.len() == 0 {
        String::from_str("127.0.0.1")
    } else {
        trimmed
    }
}

/// The log directory of a service from its config.
pub fn resolve_log_dir(spec: ServiceSpec, configured_log_dir: &str, db_path: &str, base_dir: &str) -> (r: String)
    ensures
        r@ == spec_log_dir(spec.id, configured_log_dir@, db_path@, base_dir@),
{
    let configured = crate::text::trim_chars(configured_log_dir);
    if configured.len() > 0 {
        let joined = join_path_exec(base_dir, configured_log_dir);
        return normalize_drop_exec(&joined);
    }
    match spec.id {
        ServiceId::LanceDb => {
            if looks_like_uri_exec(db_path) {
                let joined = join_path_exec(base_dir, "vldb-lancedb-logs");
                normalize_drop_exec(&joined)
            } else {
                let joined = join_path_exec(db_path, "logs");
                normalize_drop_exec(&joined)
            }
        },
        ServiceId::DuckDb => {
            let parent = match parent_exec(db_path) {
                Some(p) => p,
                None => String::from_str("."),
            };
            match file_name_exec(db_path) {
                Some(name) => {
                    let stem = stem_exec(&name);
                    let mut dir_name = string_from_chars(&stem);
                    push_all(&mut dir_name, "_log");
                    let joined = join_path_exec(&parent, &dir_name);
                    normalize_drop_exec(&joined)
                },
                None => {
                    let joined = join_path_exec(&parent, "duckdb_log");
                    normalize_drop_exec(&joined)
                },
            }
        },
    }
}

/// The text of an optional value, or `default`.
fn text_or_exec(v: Option<&Json>, default: &str) -> (r: String)
    ensures
        r@ == text_or(opt_json(v), default@),
{
    match v {
        Some(j) => match j.as_str() {
            Some(t) => t.clone(),
            None => String::from_str(default),
        },
        None => String::from_str(default),
    }
}

/// What a summary of a service's config holds, for the config parsed to
/// `config` from `raw_text` read at `source_path`.
pub open spec fn summary_holds(
    r: ServiceConfigSummary,
    spec: ServiceSpec,
    workspace_root: Seq<char>,
    source_path: Seq<char>,
    source_label: Seq<char>,
    raw_text: Seq<char>,
    config: JsonV,
) -> bool {
    &&& r.source_path@ == source_path
    &&& r.source_label@ == source_label
    &&& r.raw_text@ == raw_text
    &&& r.host@ == text_or(spec_get(config, "host"@), spec.default_host@)
    &&& r.probe_host@ == spec_probe_host(r.host@)
    &&& r.port as int == port_or(spec_get(config, "port"@), spec.default_port)
    &&& r.db_path@ == spec_db_path(
        text_or(spec_get(config, "db_path"@), spec.default_db_path@),
        spec_config_dir(source_path, workspace_root),
    )
    &&& r.log_file_name@ == text_or(logging_entry(config, "log_file_name"@), spec.default_log_file_name@)
    &&& r.log_dir@ == spec_log_dir(
        spec.id,
        text_or(logging_entry(config, "log_dir"@), Seq::empty()),
        r.db_path@,
        spec_config_dir(source_path, workspace_root),
    )
    &&& r.log_path@ == join_path(r.log_dir@, r.log_file_name@)
}

/// What the manager takes from a service's config, read from
/// `source_path` (a `"workspace"` or `"example"` config) and parsed to
/// `config`.
pub fn summarize_service_config(
    spec: ServiceSpec,
    workspace_root: &str,
    source_path: String,
    source_label: &'static str,
    raw_text: String,
    config: &Json,
) -> (r: ServiceConfigSummary)
    ensures
        summary_holds(r, spec, workspace_root@, source_path@, source_label@, raw_text@, config@),
{
    let host = text_or_exec(config.get("host"), spec.default_host);
    let port: u16 = match config.get("port") {
        Some(v) => match v.as_u64() {
            Some(n) => {
                assert(n as u16 == n % 65536) by (bit_vector);
                n as u16
            },
            None => spec.default_port,
        },
        None => spec.default_port,
    };
    let db_path_raw = text_or_exec(config.get("db_path"), spec.default_db_path);
    let base_dir = match parent_exec(&source_path) {
        Some(p) => p,
        None => String::from_str(workspace_root),
    };
    let db_path = if looks_like_uri_exec(&db_path_raw) {
        db_path_raw
    } else {
        let joined = join_path_exec(&base_dir, &db_path_raw);
        normalize_drop_exec(&joined)
    };
    let logging = config.get("logging");
    let (log_file_name, configured_log_dir) = match logging {
        Some(l) => (
            text_or_exec(l.get("log_file_name"), spec.default_log_file_name),
            text_or_exec(l.get("log_dir"), ""),
        ),
        None => (String::from_str(spec.default_log_file_name), String::new()),
    };
    proof {
        reveal_strlit("");
    }
    let log_dir = resolve_log_dir(spec, &configured_log_dir, &db_path, &base_dir);
    let log_path = join_path_exec(&log_dir, &log_file_name);
    let probe_host = normalize_probe_host(&host);
    ServiceConfigSummary {
        source_path,
        source_label,
        raw_text,
        host,
        probe_host,
        port,
        db_path,
        log_dir,
        log_file_name,
        log_path,
    }
}

/// What the manager takes from a service's config text read from
/// `source_path`: the summary of the text parsed as JSON, or, where it does
/// not parse, the message that names the file.
pub fn service_config_from_text(
    spec: ServiceSpec,
    workspace_root: &str,
    source_path: String,
    source_label: &'static str,
    raw_text: String,
) -> (r: Result<ServiceConfigSummary, String>)
    ensures
        match crate::json::json_parse(raw_text@) {
            Ok(j) => r matches Ok(s) && summary_holds(
                s,
                spec,
                workspace_root@,
                source_path@,
                source_label@,
                raw_text@,
                j,
            ),
            Err(_) => r matches Err(m) && m@ == "failed to parse "@ + source_path@,
        },
{
    match crate::json::parse_json_text(&raw_text) {
        Ok(config) => Ok(summarize_service_config(spec, workspace_root, source_path, source_label, raw_text, &config)),
        Err(_) => Err(concat2("failed to parse ", &source_path)),
    }
}

pub open spec fn spec_workspace_config_path(s: ServiceSpec, root: Seq<char>) -> Seq<char> {
    join_path(spec_directory(s, root), s.folder_name@ + ".json"@)
}

pub open spec fn spec_example_config_path(s: ServiceSpec, root: Seq<char>) -> Seq<char> {
    join_path(spec_directory(s, root), s.folder_name@ + ".json.example"@)
}

/// The config the manager reads for a service: the workspace config where
/// `is_file` finds it, else the example config, each with its label.
pub fn select_config_source<F: Fn(&str) -> bool>(spec: ServiceSpec, workspace_root: &str, is_file: F) -> (r: Result<(String, &'static str), String>)
    requires
        forall|s: &str| is_file.requires((s,)),
    ensures
        match r {
            Ok((path, label)) => {
                ||| (label@ == "workspace"@ && path@ == spec_workspace_config_path(spec, workspace_root@)
                    && answered(is_file, path@, true))
                ||| (label@ == "example"@ && path@ == spec_example_config_path(spec, workspace_root@)
                    && answered(is_file, spec_workspace_config_path(spec, workspace_root@), false)
                    && answered(is_file, path@, true))
            },
            Err(msg) => msg@ == "missing config files for "@ + spec.folder_name@ && answered(
                is_file,
                spec_workspace_config_path(spec, workspace_root@),
                false,
            ) && answered(is_file, spec_example_config_path(spec, workspace_root@), false),
        },
{
    let workspace_config = spec.workspace_config_path(workspace_root);
    let example_config = spec.example_config_path(workspace_root);
    let has_workspace = is_file(workspace_config.as_str());
    if has_workspace {
        return Ok((workspace_config, "workspace"));
    }
    let has_example = is_file(example_config.as_str());
    if has_example {
        return Ok((example_config, "example"));
    }
    Err(concat2("missing config files for ", spec.folder_name))
}

pub open spec fn missing_binary_message(s: ServiceSpec, path: Seq<char>) -> Seq<char> {
    s.folder_name@ + " binary not found at "@ + path + ". Build it first."@
}

pub open spec fn missing_config_message(s: ServiceSpec, path: Seq<char>) -> Seq<char> {
    "workspace config missing for "@ + s.folder_name@ + " at "@ + path
}

/// What starting a service needs: its built program and its workspace
/// config, both found by `is_file`; gives their paths, or the message that
/// names the first that is missing.
pub fn start_paths<F: Fn(&str) -> bool>(
    spec: ServiceSpec,
    workspace_root: &str,
    profile: BuildProfile,
    windows: bool,
    is_file: F,
) -> (r: Result<(String, String), String>)
    requires
        forall|s: &str| is_file.requires((s,)),
    ensures
        ({
            let binary = spec_binary_path(spec, workspace_root@, profile, windows);
            let config = spec_workspace_config_path(spec, workspace_root@);
            match r {
                Ok((b, c)) => b@ == binary && c@ == config && answered(is_file, binary, true)
                    && answered(is_file, config, true),
                Err(msg) => (answered(is_file, binary, false) && msg@ == missing_binary_message(
                    spec,
                    binary,
                )) || (answered(is_file, binary, true) && answered(is_file, config, false)
                    && msg@ == missing_config_message(spec, config)),
            }
        }),
{
    let binary = spec.binary_path(workspace_root, profile, windows);
    let has_binary = is_file(binary.as_str());
    if !has_binary {
        let mut msg = concat2(spec.folder_name, " binary not found at ");
        push_all(&mut msg, &binary);
        push_all(&mut msg, ". Build it first.");
        return Err(msg);
    }
    let config = spec.workspace_config_path(workspace_root);
    let has_config = is_file(config.as_str());
    if !has_config {
        let mut msg = concat3("workspace config missing for ", spec.folder_name, " at ");
        push_all(&mut msg, &config);
        return Err(msg);
    }
    Ok((binary, config))
}

/// Which stream a log line came from.
#[derive(Debug, Clone, Copy, PartialEq, Eq, Structural)]
pub enum LogScope {
    Build,
    Stdout,
    Stderr,
}

pub open spec fn scope_label(s: LogScope) -> Seq<char> {
    match s {
        LogScope::Build => "build"@,
        LogScope::Stdout => "stdout"@,
        LogScope::Stderr => "stderr"@,
    }
}

impl LogScope {
    /// The scope's name in the log view.
    pub fn label(self) -> (r: &'static str)
        ensures
            r@ == scope_label(self),
    {
        match self {
            LogScope::Build => "build",
            LogScope::Stdout => "stdout",
            LogScope::Stderr => "stderr",
        }
    }
}

/// The outcome of the last build of a service.
#[derive(Debug, Clone)]
pub struct BuildRecord {
    pub profile: BuildProfile,
    pub finished_at: String,
    pub success: bool,
    pub exit_code: Option<i32>,
}

/// How a service the manager ran last ended.
#[derive(Debug, Clone)]
pub struct ExitRecord {
    pub finished_at: String,
    pub exit_code: Option<i32>,
}

/// What the workers that build and run services report.
#[derive(Debug)]
pub enum BackgroundEvent {
    LogLine { service: ServiceId, scope: LogScope, line: String },
    BuildFinished { service: ServiceId, profile: BuildProfile, success: bool, exit_code: Option<i32> },
}

/// How a `cargo build` went, as its worker saw it.
#[derive(Debug)]
pub enum BuildOutcome {
    /// The build could not be started; the error text.
    SpawnFailed(String),
    /// Waiting for the build failed; the error text.
    WaitFailed(String),
    /// The build ended with this success flag and exit code.
    Exited { success: bool, exit_code: Option<i32> },
}

/// The events a build worker sends for the outcome of a build: a failure
/// is logged first, and every outcome ends with `BuildFinished`.
pub fn build_outcome_events(service: ServiceId, profile: BuildProfile, outcome: BuildOutcome) -> (r: Vec<BackgroundEvent>)
    ensures
        match outcome {
            BuildOutcome::Exited { success, exit_code } => r@.len() == 1 && r@[0]
                == BackgroundEvent::BuildFinished { service, profile, success, exit_code },
            BuildOutcome::SpawnFailed(e) => r@.len() == 2 && (r@[0] matches BackgroundEvent::LogLine {
                service: s,
                scope: LogScope::Build,
                line,
            } && s == service && line@ == "failed to spawn cargo build: "@ + e@) && r@[1]
                == BackgroundEvent::BuildFinished { service, profile, success: false, exit_code: None },
            BuildOutcome::WaitFailed(e) => r@.len() == 2 && (r@[0] matches BackgroundEvent::LogLine {
                service: s,
                scope: LogScope::Build,
                line,
            } && s == service && line@ == "cargo build wait failed: "@ + e@) && r@[1]
                == BackgroundEvent::BuildFinished { service, profile, success: false, exit_code: None },
        },
{
    let mut events: Vec<BackgroundEvent> = Vec::new();
    match outcome {
        BuildOutcome::Exited { success, exit_code } => {
            events.push(BackgroundEvent::BuildFinished { service, profile, success, exit_code });
        },
        BuildOutcome::SpawnFailed(e) => {
            let line = concat2("failed to spawn cargo build: ", &e);
            events.push(BackgroundEvent::LogLine { service, scope: LogScope::Build, line });
            events.push(
                BackgroundEvent::BuildFinished { service, profile, success: false, exit_code: None },
            );
        },
        BuildOutcome::WaitFailed(e) => {
            let line = concat2("cargo build wait failed: ", &e);
            events.push(BackgroundEvent::LogLine { service, scope: LogScope::Build, line });
            events.push(
                BackgroundEvent::BuildFinished { service, profile, success: false, exit_code: None },
            );
        },
    }
    events
}

/// A line of a service's output without its line break; `None` for a line
/// that is empty then.
pub open spec fn trim_line_break(s: Seq<char>) -> Seq<char>
    decreases s.len(),
{
    if s.len() > 0 && (s.last() == '\r' || s.last() == '\n') {
        trim_line_break(s.drop_last())
    } else {
        s
    }
}

/// The text of an output line as it is logged: trailing `\r` and `\n`
/// removed, and nothing for a line that is then empty.
pub fn log_line_text(raw: &str) -> (r: Option<String>)
    ensures
        trim_line_break(raw@).len() == 0 ==> r is None,
        trim_line_break(raw@).len() > 0 ==> (r matches Some(t) && t@ == trim_line_break(raw@)),
{
    let chars = chars_of(raw);
    let mut end = chars.len();
    assert(chars@.subrange(0, end as int) =~= raw@);
    while end > 0 && (chars[end - 1] == '\r' || chars[end - 1] == '\n')
        invariant
            0 <= end <= chars.len(),
            chars@ == raw@,
            trim_line_break(raw@) == trim_line_break(chars@.subrange(0, end as int)),
        decreases end,
    {
        assert(chars@.subrange(0, end as int).drop_last() =~= chars@.subrange(0, end - 1));
        end -= 1;
    }
    if end == 0 {
        return None;
    }
    Some(crate::text::string_from_range(&chars, 0, end))
}

/// The state a service is shown in.
#[derive(Debug, Clone, Copy, PartialEq, Eq, Structural)]
pub enum ServiceStatus {
    Building,
    Starting,
    Running,
    External,
    Failed,
    Stopped,
}

pub open spec fn spec_status(build_running: bool, has_process: bool, probe_ok: bool, has_error: bool) -> ServiceStatus {
    if build_running {
        ServiceStatus::Building
    } else if has_process {
        if probe_ok {
            ServiceStatus::Running
        } else {
            ServiceStatus::Starting
        }
    } else if probe_ok {
        ServiceStatus::External
    } else if has_error {
        ServiceStatus::Failed
    } else {
        ServiceStatus::Stopped
    }
}

/// The state of a service: a build outranks everything; a process the
/// manager started is `Running` once its port answers; a port that answers
/// without such a process belongs to an `External` one; else the last error
/// decides between `Failed` and `Stopped`.
pub fn service_status(build_running: bool, has_managed_process: bool, last_probe_ok: bool, has_last_error: bool) -> (r: ServiceStatus)
    ensures
        r == spec_status(build_running, has_managed_process, last_probe_ok, has_last_error),
{
    if build_running {
        return ServiceStatus::Building;
    }
    if has_managed_process {
        if last_probe_ok {
            return ServiceStatus::Running;
        }
        return ServiceStatus::Starting;
    }
    if last_probe_ok {
        return ServiceStatus::External;
    }
    if has_last_error {
        return ServiceStatus::Failed;
    }
    ServiceStatus::Stopped
}

/// A number below 100 in two digits.
pub open spec fn pad2(n: nat) -> Seq<char> {
    if n < 10 {
        seq!['0'] + dec(n)
    } else {
        dec(n)
    }
}

/// An uptime as the manager shows it: hours and minutes, minutes and
/// seconds, or seconds alone.
pub open spec fn spec_format_duration(secs: nat) -> Seq<char> {
    let hours = secs / 3600;
    let minutes = (secs % 3600) / 60;
    let remain = secs % 60;
    if hours > 0 {
        dec(hours) + "h "@ + pad2(minutes) + "m"@
    } else if minutes > 0 {
        dec(minutes) + "m "@ + pad2(remain) + "s"@
    } else {
        dec(remain) + "s"@
    }
}

/// The two decimal digits of a number below 100.
pub open spec fn two_digits(n: nat) -> Seq<char> {
    seq![crate::text::digit_char(n / 10), crate::text::digit_char(n % 10)]
}

proof fn lemma_pad2_two_digits(n: nat)
    requires
        n < 100,
    ensures
        pad2(n) == two_digits(n),
{
    if n < 10 {
        assert(crate::text::digit_char(0) == '0');
        assert(pad2(n) =~= two_digits(n));
    } else {
        assert(dec(n / 10) == seq![crate::text::digit_char(n / 10)]);
        assert(pad2(n) =~= two_digits(n));
    }
}

/// What an uptime text says: for an hour or more, the whole hours elapsed
/// (however many) and the minutes past them, so that the time shown is at
/// most the time elapsed and less than a minute short of it; under an hour,
/// the minutes and seconds, which add up to the time elapsed; under a
/// minute, the seconds.
pub proof fn lemma_uptime_text(secs: nat)
    ensures
        secs >= 3600 ==> exists|h: nat, m: nat|
            #![trigger dec(h), two_digits(m)]
            {
                &&& h >= 1 && m < 60
                &&& h * 3600 + m * 60 <= secs < h * 3600 + m * 60 + 60
                &&& spec_format_duration(secs) == dec(h) + "h "@ + two_digits(m) + "m"@
            },
        60 <= secs < 3600 ==> exists|m: nat, sec: nat|
            #![trigger dec(m), two_digits(sec)]
            {
                &&& 1 <= m < 60 && sec < 60
                &&& m * 60 + sec == secs
                &&& spec_format_duration(secs) == dec(m) + "m "@ + two_digits(sec) + "s"@
            },
        secs < 60 ==> spec_format_duration(secs) == dec(secs) + "s"@,
{
    let h = secs / 3600;
    let m = (secs % 3600) / 60;
    let sec = secs % 60;
    if secs >= 3600 {
        lemma_pad2_two_digits(m);
        assert(h * 3600 + m * 60 <= secs < h * 3600 + m * 60 + 60) by (nonlinear_arith)
            requires
                h == secs / 3600,
                m == (secs % 3600) / 60,
        ;
        assert(dec(h) == dec(h) && two_digits(m) == two_digits(m));
    } else if secs >= 60 {
        lemma_pad2_two_digits(sec);
        assert(m == secs / 60 && m * 60 + sec == secs);
        assert(dec(m) == dec(m) && two_digits(sec) == two_digits(sec));
    }
}

/// A number below 100 in two digits.
fn render_pad2(n: u128) -> (r: String)
    requires
        n < 100,
    ensures
        r@ == pad2(n as nat),
{
    if n < 10 {
        let mut s = String::from_str("0");
        let d = render_u128(n);
        push_all(&mut s, &d);
        proof {
            reveal_strlit("0");
        }
        s
    } else {
        render_u128(n)
    }
}

/// The uptime text of a duration (its whole seconds).
pub fn format_duration(duration: TimeSpan) -> (r: String)
    ensures
        r@ == spec_format_duration((duration.nanos / 1_000_000_000) as nat),
{
    let seconds = duration.as_secs();
    let hours = seconds / 3600;
    let minutes = (seconds % 3600) / 60;
    let remain = seconds % 60;
    if hours > 0 {
        let mut s = render_u128(hours);
        push_all(&mut s, "h ");
        let m = render_pad2(minutes);
        push_all(&mut s, &m);
        push_all(&mut s, "m");
        return s;
    }
    if minutes > 0 {
        let mut s = render_u128(minutes);
        push_all(&mut s, "m ");
        let m = render_pad2(remain);
        push_all(&mut s, &m);
        push_all(&mut s, "s");
        return s;
    }
    let mut s = render_u128(remain);
    push_all(&mut s, "s");
    s
}

pub open spec fn spec_exit_code(code: Option<i32>) -> Seq<char> {
    match code {
        Some(v) => dec_int(v as int),
        None => "signal/unknown"@,
    }
}

/// The text of a process exit code; a process ended by a signal has none.
pub fn format_exit_code(code: Option<i32>) -> (r: String)
    ensures
        r@ == spec_exit_code(code),
{
    match code {
        Some(v) => render_i128(v as i128),
        None => String::from_str("signal/unknown"),
    }
}

} // verus!
