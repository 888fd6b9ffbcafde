//! Installed service instances: their records, the names and addresses
//! they may take, and the requests that create or change them.
use vstd::prelude::*;
use crate::manager_service::{answered, service_label, ServiceId};
use crate::json::{entry_views, push_entry, Json, JsonV};
use crate::paths::{
    file_name_exec, file_name_of, is_root, join_path, join_path_exec, paths_overlap, spec_paths_overlap,
    stem_exec, stem_of,
};
use crate::text::{
    ascii_lower, ascii_lower_seq, chars_of, concat2, concat3, has_prefix, lemma_text_le_total,
    lemma_text_le_transitive, push_all, push_char, string_from_range, text_le, text_le_exec,
};

verus! {

/// The text in the manager's language: the first in Chinese, the second in
/// English.
pub open spec fn pick(zh: bool, zh_text: Seq<char>, en_text: Seq<char>) -> Seq<char> {
    if zh {
        zh_text
    } else {
        en_text
    }
}

/// The text in the manager's language.
pub fn pick_text(zh: bool, zh_text: &'static str, en_text: &'static str) -> (r: &'static str)
    ensures
        r@ == pick(zh, zh_text@, en_text@),
{
    if zh {
        zh_text
    } else {
        en_text
    }
}

/// Whether a language setting means Chinese.
pub fn uses_chinese(language: &str) -> (r: bool)
    ensures
        r == has_prefix(language@, "zh"@),
{
    let chars = chars_of(language);
    crate::text::starts_with_seq(&chars, "zh")
}

/// The language the manager switches to from `language`.
pub fn toggled_language(language: &str) -> (r: String)
    ensures
        has_prefix(language@, "zh"@) ==> r@ == "en"@,
        !has_prefix(language@, "zh"@) ==> r@ == "zh-CN"@,
{
    if uses_chinese(language) {
        String::from_str("en")
    } else {
        String::from_str("zh-CN")
    }
}

/// The locations the manager keeps its files in.
#[derive(Debug, Clone)]
pub struct ManagerPaths {
    pub global_home: String,
    pub global_config_path: String,
    pub run_dir: String,
    pub install_dir: String,
    pub bin_dir: String,
    pub config_dir: String,
    pub examples_dir: String,
    pub logs_dir: String,
    pub tools_dir: String,
}

/// The settings the manager keeps between sessions.
#[derive(Debug, Clone)]
pub struct ManagerState {
    pub language: String,
    pub release_tag: Option<String>,
    pub manager_version: String,
    pub lancedb_root: String,
    pub duckdb_root: String,
    pub initialized: bool,
}

/// An installed instance of a service, as its config file and the system's
/// service registry describe it.
#[derive(Debug, Clone)]
pub struct InstalledInstance {
    pub service: ServiceId,
    pub instance_name: String,
    pub config_path: String,
    pub host: String,
    pub port: u16,
    pub db_path: String,
    pub service_name: String,
    pub registered: bool,
    pub running: bool,
}

pub open spec fn spec_display_name(service: ServiceId, instance_name: Seq<char>) -> Seq<char> {
    service_label(service) + " / "@ + instance_name
}

impl InstalledInstance {
    /// `service / instance`, the name the instance is listed and sorted by.
    pub fn display_name(&self) -> (r: String)
        ensures
            r@ == spec_display_name(self.service, self.instance_name@),
    {
        let label = self.service.label();
        let mut s = concat2(label, " / ");
        push_all(&mut s, &self.instance_name);
        s
    }
}

/// The name an instance is listed by.
pub open spec fn display_key(inst: InstalledInstance) -> Seq<char> {
    spec_display_name(inst.service, inst.instance_name@)
}

/// The instances are in text order of their display names.
pub open spec fn sorted_by_display_name(s: Seq<InstalledInstance>) -> bool {
    forall|i: int, j: int| 0 <= i < j < s.len() ==> text_le(display_key(s[i]), display_key(s[j]))
}

/// The instances in text order of their display names, equal names in the
/// order they came in.
pub fn sort_by_display_name(items: Vec<InstalledInstance>) -> (r: Vec<InstalledInstance>)
    ensures
        r@.to_multiset() == items@.to_multiset(),
        r.len() == items.len(),
        sorted_by_display_name(r@),
{
    let ghost orig = items@;
    let mut rest = items;
    let mut out: Vec<InstalledInstance> = Vec::new();
    assert(orig.subrange(orig.len() as int, orig.len() as int) =~= Seq::<InstalledInstance>::empty());
    while rest.len() > 0
        invariant
            rest.len() <= orig.len(),
            rest@ == orig.subrange(0, rest.len() as int),
            out@.to_multiset() == orig.subrange(rest.len() as int, orig.len() as int).to_multiset(),
            out.len() + rest.len() == orig.len(),
            sorted_by_display_name(out@),
        decreases rest.len(),
    {
        let n = rest.len();
        let x = rest.pop().unwrap();
        assert(x == orig[n - 1]);
        let key = chars_of(&x.display_name());
        let mut p: usize = 0;
        while p < out.len()
            invariant
                0 <= p <= out.len(),
                key@ == display_key(x),
                sorted_by_display_name(out@),
                forall|k: int| 0 <= k < p ==> text_le(display_key(#[trigger] out@[k]), display_key(x)),
            ensures
                0 <= p <= out.len(),
                forall|k: int| 0 <= k < p ==> text_le(display_key(#[trigger] out@[k]), display_key(x)),
                p < out.len() ==> text_le(display_key(x), display_key(out@[p as int])),
            decreases out.len() - p,
        {
            let other = chars_of(&out[p].display_name());
            if text_le_exec(&key, &other) {
                break;
            }
            proof {
                lemma_text_le_total(display_key(x), display_key(out@[p as int]));
            }
            p += 1;
        }
        proof {
            if p < out.len() {
                assert(text_le(display_key(x), display_key(out@[p as int])));
            }
            assert forall|k: int| p <= k < out.len() implies text_le(display_key(x), display_key(#[trigger] out@[k])) by {
                if k > p {
                    lemma_text_le_transitive(display_key(x), display_key(out@[p as int]), display_key(out@[k]));
                }
            }
        }
        let ghost before = out@;
        out.insert(p, x);
        proof {
            assert(out@ == before.insert(p as int, x));
            let tail = orig.subrange(n as int, orig.len() as int);
            assert(orig.subrange(n - 1, orig.len() as int) =~= tail.insert(0, x));
            vstd::seq_lib::to_multiset_insert(tail, 0, x);
            vstd::seq_lib::to_multiset_insert(before, p as int, x);
            assert(sorted_by_display_name(out@)) by {
                assert forall|i: int, j: int| 0 <= i < j < out@.len() implies text_le(display_key(out@[i]), display_key(out@[j])) by {
                    if j < p {
                        assert(out@[i] == before[i] && out@[j] == before[j]);
                    } else if j == p {
                        assert(out@[i] == before[i]);
                    } else if i == p {
                        assert(out@[j] == before[j - 1]);
                    } else if i < p {
                        assert(out@[i] == before[i] && out@[j] == before[j - 1]);
                    } else {
                        assert(out@[i] == before[i - 1] && out@[j] == before[j - 1]);
                    }
                }
            }
        }
    }
    assert(orig.subrange(0, orig.len() as int) =~= orig);
    out
}

/// What the user asks for when installing or changing one instance.
#[derive(Debug, Clone)]
pub struct InstanceRequest {
    pub service: ServiceId,
    pub instance_name: String,
    pub bind_host: String,
    pub port: u16,
    pub data_path: String,
    pub service_name: String,
}

/// What the user asks for when installing both services for the first time.
#[derive(Debug, Clone)]
pub struct InitRequest {
    pub lancedb_root: String,
    pub duckdb_root: String,
    pub bind_host: String,
    pub lancedb_port: u16,
    pub duckdb_port: u16,
    pub lancedb_service_name: String,
    pub duckdb_service_name: String,
}

/// What an update check found.
#[derive(Debug, Clone)]
pub struct UpdateCheck {
    pub current_manager_version: String,
    pub latest_release_tag: Option<String>,
    pub installed_release_tag: Option<String>,
    pub manager_update_available: bool,
    pub binary_update_available: bool,
}

/// A setting that is blank is no setting.
pub fn string_option(value: String) -> (r: Option<String>)
    ensures
        crate::text::all_ws(value@) ==> r is None,
        !crate::text::all_ws(value@) ==> (r matches Some(v) && v@ == value@),
{
    if crate::text::is_blank(&value) {
        None
    } else {
        Some(value)
    }
}

pub open spec fn spec_legacy_service_name(service: ServiceId, instance_name: Seq<char>) -> Seq<char> {
    service_label(service) + "-"@ + instance_name
}

/// The name an instance is registered under when its config names none.
pub fn legacy_service_name(service: ServiceId, instance_name: &str) -> (r: String)
    ensures
        r@ == spec_legacy_service_name(service, instance_name@),
{
    concat3(service.label(), "-", instance_name)
}

pub open spec fn lancedb_config_prefix() -> Seq<char> {
    "vldb-lancedb-"@
}

pub open spec fn duckdb_config_prefix() -> Seq<char> {
    "vldb-duckdb-"@
}

/// The service and instance an instance config file belongs to, from the
/// stem of its name: `vldb-lancedb-<instance>` or `vldb-duckdb-<instance>`.
pub open spec fn spec_instance_meta(path: Seq<char>) -> Result<(ServiceId, Seq<char>), Seq<char>> {
    match file_name_of(path) {
        None => Err("invalid config file name"@),
        Some(name) => {
            let stem = stem_of(name);
            if has_prefix(stem, lancedb_config_prefix()) {
                Ok((ServiceId::LanceDb, stem.subrange(lancedb_config_prefix().len() as int, stem.len() as int)))
            } else if has_prefix(stem, duckdb_config_prefix()) {
                Ok((ServiceId::DuckDb, stem.subrange(duckdb_config_prefix().len() as int, stem.len() as int)))
            } else {
                Err("unsupported instance config file "@ + path)
            }
        },
    }
}

/// Reads the service and instance of an instance config file from its path.
pub fn parse_instance_meta(path: &str) -> (r: Result<(ServiceId, String), String>)
    ensures
        match (r, spec_instance_meta(path@)) {
            (Ok((s, n)), Ok((t, m))) => s == t && n@ == m,
            (Err(e), Err(f)) => e@ == f,
            _ => false,
        },
{
    proof {
        reveal_strlit("vldb-lancedb-");
        reveal_strlit("vldb-duckdb-");
    }
    let name = match file_name_exec(path) {
        Some(n) => n,
        None => return Err(String::from_str("invalid config file name")),
    };
    let stem = stem_exec(&name);
    if crate::text::starts_with_seq(&stem, "vldb-lancedb-") {
        return Ok((ServiceId::LanceDb, string_from_range(&stem, 13, stem.len())));
    }
    if crate::text::starts_with_seq(&stem, "vldb-duckdb-") {
        return Ok((ServiceId::DuckDb, string_from_range(&stem, 12, stem.len())));
    }
    Err(concat2("unsupported instance config file ", path))
}

/// Two texts are equal when ASCII letters are compared without case
/// (`str::eq_ignore_ascii_case`).
pub open spec fn same_ignoring_ascii_case(a: Seq<char>, b: Seq<char>) -> bool {
    ascii_lower_seq(a) == ascii_lower_seq(b)
}

/// Compares two texts with ASCII letters in either case.
pub fn eq_ignore_ascii_case(a: &str, b: &str) -> (r: bool)
    ensures
        r == same_ignoring_ascii_case(a@, b@),
{
    let la = crate::text::ascii_lower_chars(a);
    let lb = crate::text::ascii_lower_chars(b);
    if la.len() != lb.len() {
        return false;
    }
    let mut i: usize = 0;
    while i < la.len()
        invariant
            0 <= i <= la.len(),
            la.len() == lb.len(),
            la@ == ascii_lower_seq(a@),
            lb@ == ascii_lower_seq(b@),
            forall|j: int| 0 <= j < i ==> la@[j] == lb@[j],
        decreases la.len() - i,
    {
        if la[i] != lb[i] {
            assert(la@[i as int] != lb@[i as int]);
            return false;
        }
        i += 1;
    }
    assert(la@ =~= lb@);
    true
}

/// A character an instance name may hold at position `idx`: a letter or
/// digit anywhere, `-` or `_` after the first.
pub open spec fn instance_name_char_ok(c: char, idx: int) -> bool {
    ('A' <= c <= 'Z') || ('a' <= c <= 'z') || ('0' <= c <= '9') || ((c == '-' || c == '_') && idx
        != 0)
}

/// A character a service name may hold at position `idx`: a letter or
/// digit anywhere, `.`, `-` or `_` after the first.
pub open spec fn service_name_char_ok(c: char, idx: int) -> bool {
    ('A' <= c <= 'Z') || ('a' <= c <= 'z') || ('0' <= c <= '9') || ((c == '.' || c == '-' || c
        == '_') && idx != 0)
}

/// The error an instance name gets, if any. Every allowed character is
/// ASCII, so counting characters counts bytes.
pub open spec fn spec_instance_name_error(s: Seq<char>, zh: bool) -> Option<Seq<char>> {
    if s.len() == 0 {
        Some(pick(zh, "实例名称不能为空"@, "Instance name cannot be empty"@))
    } else if !(s.len() <= 32 && forall|i: int| 0 <= i < s.len() ==> instance_name_char_ok(#[trigger] s[i], i)) {
        Some(
            pick(
                zh,
                "实例名只能包含字母、数字、连字符和下划线，且长度不超过 32"@,
                "Instance names may only contain letters, digits, hyphens, and underscores, and must be at most 32 characters"@,
            ),
        )
    } else {
        None
    }
}

/// A service name is well formed: not empty, at most 64 allowed characters.
pub open spec fn service_name_ok(s: Seq<char>) -> bool {
    s.len() > 0 && s.len() <= 64 && forall|i: int| 0 <= i < s.len() ==> service_name_char_ok(#[trigger] s[i], i)
}

pub open spec fn service_name_syntax_message(zh: bool) -> Seq<char> {
    pick(
        zh,
        "服务名只能包含字母、数字、点、连字符和下划线，且长度不超过 64"@,
        "Service names may only contain letters, digits, dots, hyphens, and underscores, and must be at most 64 characters"@,
    )
}

/// Checks an instance name.
pub fn validate_instance_name(candidate: &str, zh: bool) -> (r: Result<(), String>)
    ensures
        match (r, spec_instance_name_error(candidate@, zh)) {
            (Ok(()), None) => true,
            (Err(e), Some(m)) => e@ == m,
            _ => false,
        },
{
    let chars = chars_of(candidate);
    if chars.len() == 0 {
        return Err(String::from_str(pick_text(zh, "实例名称不能为空", "Instance name cannot be empty")));
    }
    let mut ok = chars.len() <= 32;
    let mut i: usize = 0;
    while i < chars.len()
        invariant
            0 <= i <= chars.len(),
            chars@ == candidate@,
            ok == (chars.len() <= 32 && forall|j: int| 0 <= j < i ==> instance_name_char_ok(#[trigger] chars@[j], j)),
        decreases chars.len() - i,
    {
        let c = chars[i];
        let c_ok = ('A' <= c && c <= 'Z') || ('a' <= c && c <= 'z') || ('0' <= c && c <= '9') || ((c
            == '-' || c == '_') && i != 0);
        proof {
            if ok && !c_ok {
                assert(!instance_name_char_ok(chars@[i as int], i as int));
            }
        }
        ok = ok && c_ok;
        i += 1;
    }
    if !ok {
        return Err(
            String::from_str(
                pick_text(
                    zh,
                    "实例名只能包含字母、数字、连字符和下划线，且长度不超过 32",
                    "Instance names may only contain letters, digits, hyphens, and underscores, and must be at most 32 characters",
                ),
            ),
        );
    }
    Ok(())
}

/// Whether a service name is well formed.
pub fn service_name_well_formed(candidate: &str) -> (r: bool)
    ensures
        r == service_name_ok(candidate@),
{
    let chars = chars_of(candidate);
    let mut ok = chars.len() > 0 && chars.len() <= 64;
    let mut i: usize = 0;
    while i < chars.len()
        invariant
            0 <= i <= chars.len(),
            chars@ == candidate@,
            ok == (chars.len() > 0 && chars.len() <= 64 && forall|j: int| 0 <= j < i ==> service_name_char_ok(#[trigger] chars@[j], j)),
        decreases chars.len() - i,
    {
        let c = chars[i];
        let c_ok = ('A' <= c && c <= 'Z') || ('a' <= c && c <= 'z') || ('0' <= c && c <= '9') || ((c
            == '.' || c == '-' || c == '_') && i != 0);
        proof {
            if ok && !c_ok {
                assert(!service_name_char_ok(chars@[i as int], i as int));
            }
        }
        ok = ok && c_ok;
        i += 1;
    }
    ok
}

/// The instance is another one than `service`/`instance_name`.
pub open spec fn is_other_instance(inst: InstalledInstance, service: ServiceId, instance_name: Seq<char>) -> bool {
    !(inst.service == service && inst.instance_name@ == instance_name)
}

/// Another instance is registered under the candidate service name.
pub open spec fn name_conflicts(inst: InstalledInstance, service: ServiceId, instance_name: Seq<char>, candidate: Seq<char>) -> bool {
    is_other_instance(inst, service, instance_name) && same_ignoring_ascii_case(inst.service_name@, candidate)
}

pub open spec fn name_conflict_message(inst: InstalledInstance, zh: bool) -> Seq<char> {
    if zh {
        "服务名与 "@ + service_label(inst.service) + "/"@ + inst.instance_name@ + " 冲突："@
            + inst.service_name@
    } else {
        "Service name conflicts with "@ + service_label(inst.service) + "/"@ + inst.instance_name@
            + ": "@ + inst.service_name@
    }
}

pub open spec fn duplicate_service_message(candidate: Seq<char>, zh: bool) -> Seq<char> {
    if zh {
        "系统中已经存在同名服务："@ + candidate
    } else {
        "A service with the same name already exists: "@ + candidate
    }
}

/// An optional text by its view.
pub open spec fn opt_str_view(o: Option<&str>) -> Option<Seq<char>> {
    match o {
        Some(t) => Some(t@),
        None => None,
    }
}

/// The current registration name differs from the candidate (or there is
/// none).
pub open spec fn differs_from_current(current: Option<Seq<char>>, candidate: Seq<char>) -> bool {
    match current {
        Some(c) => !same_ignoring_ascii_case(c, candidate),
        None => true,
    }
}

/// The first of `instances` whose service name the candidate takes.
pub open spec fn first_name_conflict(
    instances: Seq<InstalledInstance>,
    service: ServiceId,
    instance_name: Seq<char>,
    candidate: Seq<char>,
    k: int,
) -> bool {
    &&& 0 <= k < instances.len()
    &&& name_conflicts(instances[k], service, instance_name, candidate)
    &&& forall|j: int| 0 <= j < k ==> !name_conflicts(#[trigger] instances[j], service, instance_name, candidate)
}

/// The service name passes: well formed, taken by no other instance, and
/// either not registered in the system or registered as the instance itself.
pub open spec fn service_name_accepted<F: Fn(&str) -> bool>(
    candidate: Seq<char>,
    service: ServiceId,
    instance_name: Seq<char>,
    current_name: Option<Seq<char>>,
    instances: Seq<InstalledInstance>,
    is_registered: F,
) -> bool {
    &&& service_name_ok(candidate)
    &&& forall|j: int| 0 <= j < instances.len() ==> !name_conflicts(#[trigger] instances[j], service, instance_name, candidate)
    &&& (answered(is_registered, candidate, false) || (answered(is_registered, candidate, true)
        && !differs_from_current(current_name, candidate)))
}

/// The service name is refused with the error `e`.
pub open spec fn service_name_refused<F: Fn(&str) -> bool>(
    candidate: Seq<char>,
    service: ServiceId,
    instance_name: Seq<char>,
    current_name: Option<Seq<char>>,
    instances: Seq<InstalledInstance>,
    is_registered: F,
    zh: bool,
    e: Seq<char>,
) -> bool {
    ||| (!service_name_ok(candidate) && e == service_name_syntax_message(zh))
    ||| (service_name_ok(candidate) && exists|k: int|
        first_name_conflict(instances, service, instance_name, candidate, k) && e
            == name_conflict_message(#[trigger] instances[k], zh))
    ||| (service_name_ok(candidate) && (forall|j: int|
        0 <= j < instances.len() ==> !name_conflicts(#[trigger] instances[j], service, instance_name, candidate))
        && answered(is_registered, candidate, true) && differs_from_current(current_name, candidate) && e
        == duplicate_service_message(candidate, zh))
}

/// Checks the service name an instance is to be registered under: it must
/// be well formed, taken by no other instance (in any letter case), and not
/// be registered in the system already, unless it is the instance's own
/// current name. `is_registered` asks the system's service registry.
pub fn validate_service_name<F: Fn(&str) -> bool>(
    candidate: &str,
    service: ServiceId,
    instance_name: &str,
    current_name: Option<&str>,
    instances: &Vec<InstalledInstance>,
    is_registered: F,
    zh: bool,
) -> (r: Result<(), String>)
    requires
        forall|s: &str| is_registered.requires((s,)),
    ensures
        match r {
            Ok(()) => service_name_accepted(
                candidate@,
                service,
                instance_name@,
                opt_str_view(current_name),
                instances@,
                is_registered,
            ),
            Err(e) => service_name_refused(
                candidate@,
                service,
                instance_name@,
                opt_str_view(current_name),
                instances@,
                is_registered,
                zh,
                e@,
            ),
        },
{
    if !service_name_well_formed(candidate) {
        return Err(
            String::from_str(
                pick_text(
                    zh,
                    "服务名只能包含字母、数字、点、连字符和下划线，且长度不超过 64",
                    "Service names may only contain letters, digits, dots, hyphens, and underscores, and must be at most 64 characters",
                ),
            ),
        );
    }
    let mut i: usize = 0;
    while i < instances.len()
        invariant
            0 <= i <= instances.len(),
            service_name_ok(candidate@),
            forall|j: int|
                0 <= j < i ==> !name_conflicts(
                    #[trigger] instances@[j],
                    service,
                    instance_name@,
                    candidate@,
                ),
        decreases instances.len() - i,
    {
        let inst = &instances[i];
        let same = inst.service == service && crate::text::eq_str(
            &chars_of(&inst.instance_name),
            instance_name,
        );
        if !same && eq_ignore_ascii_case(&inst.service_name, candidate) {
            let label = inst.service.label();
            let mut msg = if zh {
                concat3("服务名与 ", label, "/")
            } else {
                concat3("Service name conflicts with ", label, "/")
            };
            push_all(&mut msg, &inst.instance_name);
            push_all(&mut msg, if zh { " 冲突：" } else { ": " });
            push_all(&mut msg, &inst.service_name);
            assert(first_name_conflict(instances@, service, instance_name@, candidate@, i as int));
            assert(msg@ == name_conflict_message(instances@[i as int], zh));
            return Err(msg);
        }
        i += 1;
    }
    let registered = is_registered(candidate);
    let differs = match current_name {
        Some(c) => !eq_ignore_ascii_case(c, candidate),
        None => true,
    };
    if registered && differs {
        let msg = if zh {
            concat2("系统中已经存在同名服务：", candidate)
        } else {
            concat2("A service with the same name already exists: ", candidate)
        };
        return Err(msg);
    }
    Ok(())
}

pub open spec fn port_conflict_text(port: u16, inst: InstalledInstance, zh: bool) -> Seq<char> {
    if zh {
        "端口 "@ + crate::text::dec(port as nat) + " 已被 "@ + service_label(inst.service) + "/"@
            + inst.instance_name@ + " 预留，请更换端口"@
    } else {
        "Port "@ + crate::text::dec(port as nat) + " is already reserved by "@ + service_label(
            inst.service,
        ) + "/"@ + inst.instance_name@ + ", please choose another port"@
    }
}

/// Another instance has the port reserved.
pub open spec fn port_taken_by(inst: InstalledInstance, port: u16, service: ServiceId, instance_name: Seq<char>) -> bool {
    is_other_instance(inst, service, instance_name) && inst.port == port
}

/// The message for the first other instance that has the port reserved, if
/// any.
pub fn port_conflict_message(
    candidate_port: u16,
    service: ServiceId,
    instance_name: &str,
    instances: &Vec<InstalledInstance>,
    zh: bool,
) -> (r: Option<String>)
    ensures
        r is None <==> forall|j: int|
            0 <= j < instances@.len() ==> !port_taken_by(
                #[trigger] instances@[j],
                candidate_port,
                service,
                instance_name@,
            ),
        r matches Some(m) ==> exists|k: int|
            0 <= k < instances@.len() && port_taken_by(instances@[k], candidate_port, service, instance_name@)
                && (forall|j: int|
                0 <= j < k ==> !port_taken_by(
                    #[trigger] instances@[j],
                    candidate_port,
                    service,
                    instance_name@,
                )) && m@ == port_conflict_text(candidate_port, #[trigger] instances@[k], zh),
{
    let mut i: usize = 0;
    while i < instances.len()
        invariant
            0 <= i <= instances.len(),
            forall|j: int|
                0 <= j < i ==> !port_taken_by(
                    #[trigger] instances@[j],
                    candidate_port,
                    service,
                    instance_name@,
                ),
        decreases instances.len() - i,
    {
        let inst = &instances[i];
        let same = inst.service == service && crate::text::eq_str(
            &chars_of(&inst.instance_name),
            instance_name,
        );
        if !same && inst.port == candidate_port {
            let port_text = crate::text::render_u128(candidate_port as u128);
            let label = inst.service.label();
            let mut msg = if zh {
                concat2("端口 ", &port_text)
            } else {
                concat2("Port ", &port_text)
            };
            push_all(&mut msg, if zh { " 已被 " } else { " is already reserved by " });
            push_all(&mut msg, label);
            push_all(&mut msg, "/");
            push_all(&mut msg, &inst.instance_name);
            push_all(&mut msg, if zh { " 预留，请更换端口" } else { ", please choose another port" });
            assert(msg@ == port_conflict_text(candidate_port, instances@[i as int], zh));
            return Some(msg);
        }
        i += 1;
    }
    None
}

pub open spec fn port_range_message(zh: bool) -> Seq<char> {
    pick(zh, "端口必须在 1 到 65535 之间"@, "Port must be between 1 and 65535"@)
}

pub open spec fn port_in_use_message(port: u16, zh: bool) -> Seq<char> {
    if zh {
        "端口 "@ + crate::text::dec(port as nat) + " 已被其他服务、容器或进程占用，请更换端口"@
    } else {
        "Port "@ + crate::text::dec(port as nat)
            + " is already in use by another service, container, or process. Please choose another port"@
    }
}

/// The instance keeps its current port under its current registration.
pub open spec fn keeps_own_port(candidate: u16, current_port: Option<u16>, current_service_name: Option<Seq<char>>) -> bool {
    current_port == Some(candidate) && current_service_name is Some
}

/// The port passes: not 0, reserved by no other instance, and free, or the
/// instance's own port while it runs or while the port is free.
pub open spec fn port_accepted<F: Fn(&str) -> bool, G: Fn(u16) -> bool>(
    candidate: u16,
    service: ServiceId,
    instance_name: Seq<char>,
    current_port: Option<u16>,
    current_service_name: Option<Seq<char>>,
    instances: Seq<InstalledInstance>,
    is_running: F,
    port_available: G,
) -> bool {
    &&& candidate != 0
    &&& forall|j: int| 0 <= j < instances.len() ==> !port_taken_by(#[trigger] instances[j], candidate, service, instance_name)
    &&& ((keeps_own_port(candidate, current_port, current_service_name) && (answered(
        is_running,
        current_service_name->Some_0,
        true,
    ) || port_available.ensures((candidate,), true))) || port_available.ensures((candidate,), true))
}

/// The port is refused with the error `e`.
pub open spec fn port_refused<G: Fn(u16) -> bool>(
    candidate: u16,
    service: ServiceId,
    instance_name: Seq<char>,
    instances: Seq<InstalledInstance>,
    port_available: G,
    zh: bool,
    e: Seq<char>,
) -> bool {
    ||| (candidate == 0 && e == port_range_message(zh))
    ||| (candidate != 0 && exists|k: int|
        0 <= k < instances.len() && port_taken_by(instances[k], candidate, service, instance_name) && e
            == port_conflict_text(candidate, #[trigger] instances[k], zh))
    ||| (candidate != 0 && port_available.ensures((candidate,), false) && e == port_in_use_message(candidate, zh))
}

/// Checks the port an instance is to listen on: not 0, reserved by no other
/// instance, and free on this machine, unless it is the instance's current
/// port and the instance is running (`is_running` asks the service
/// registry) or the port is free (`port_available` tries to bind it).
pub fn validate_port<F: Fn(&str) -> bool, G: Fn(u16) -> bool>(
    candidate: u16,
    service: ServiceId,
    instance_name: &str,
    current_port: Option<u16>,
    current_service_name: Option<&str>,
    instances: &Vec<InstalledInstance>,
    is_running: F,
    port_available: G,
    zh: bool,
) -> (r: Result<(), String>)
    requires
        forall|s: &str| is_running.requires((s,)),
        forall|p: u16| port_available.requires((p,)),
    ensures
        candidate == 0 ==> (r matches Err(e) && e@ == port_range_message(zh)),
        match r {
            Ok(()) => port_accepted(
                candidate,
                service,
                instance_name@,
                current_port,
                opt_str_view(current_service_name),
                instances@,
                is_running,
                port_available,
            ),
            Err(e) => port_refused(candidate, service, instance_name@, instances@, port_available, zh, e@),
        },
{
    if candidate == 0 {
        return Err(String::from_str(pick_text(zh, "端口必须在 1 到 65535 之间", "Port must be between 1 and 65535")));
    }
    match port_conflict_message(candidate, service, instance_name, instances, zh) {
        Some(m) => return Err(m),
        None => {},
    }
    if current_port == Some(candidate) {
        match current_service_name {
            Some(name) => {
                let running = is_running(name);
                if running {
                    assert(answered(is_running, name@, true));
                    return Ok(());
                }
                let free = port_available(candidate);
                if free {
                    return Ok(());
                }
            },
            None => {},
        }
    }
    let free = port_available(candidate);
    if !free {
        let port_text = crate::text::render_u128(candidate as u128);
        let mut msg = if zh {
            concat2("端口 ", &port_text)
        } else {
            concat2("Port ", &port_text)
        };
        push_all(
            &mut msg,
            if zh {
                " 已被其他服务、容器或进程占用，请更换端口"
            } else {
                " is already in use by another service, container, or process. Please choose another port"
            },
        );
        return Err(msg);
    }
    Ok(())
}

pub open spec fn distinct_ports_message(zh: bool) -> Seq<char> {
    pick(zh, "LanceDB 和 DuckDB 必须使用不同端口"@, "LanceDB and DuckDB must use different ports"@)
}

/// The two services of a first installation must listen on different ports.
pub fn validate_distinct_ports(left: u16, right: u16, zh: bool) -> (r: Result<(), String>)
    ensures
        left == right ==> (r matches Err(e) && e@ == distinct_ports_message(zh)),
        left != right ==> r is Ok,
{
    if left == right {
        return Err(String::from_str(pick_text(zh, "LanceDB 和 DuckDB 必须使用不同端口", "LanceDB and DuckDB must use different ports")));
    }
    Ok(())
}

/// A dotted IPv4 address: four parts, each a number from 0 to 255 as
/// `u8::from_str` reads it.
pub open spec fn ipv4_ok(s: Seq<char>) -> bool {
    let parts = crate::text::split_on(s, '.');
    parts.len() == 4 && forall|i: int| 0 <= i < 4 ==> #[trigger] crate::text::parse_unsigned(parts[i], 255) is Some
}

/// The four numbers of a dotted IPv4 address.
pub fn parse_ipv4(candidate: &str) -> (r: Option<[u8; 4]>)
    ensures
        r is Some <==> ipv4_ok(candidate@),
        r matches Some(a) ==> forall|i: int|
            0 <= i < 4 ==> crate::text::parse_unsigned(crate::text::split_on(candidate@, '.')[i], 255)
                == Some(#[trigger] a@[i] as nat),
{
    let chars = chars_of(candidate);
    let parts = crate::text::split_on_exec(&chars, '.');
    if parts.len() != 4 {
        return None;
    }
    let ghost pv = crate::text::split_on(candidate@, '.');
    let mut values: Vec<u8> = Vec::new();
    let mut i: usize = 0;
    while i < 4
        invariant
            0 <= i <= 4,
            parts@.len() == 4,
            crate::paths::views(parts@) == pv,
            pv == crate::text::split_on(candidate@, '.'),
            values@.len() == i,
            forall|j: int|
                0 <= j < i ==> crate::text::parse_unsigned(pv[j], 255) == Some(
                    #[trigger] values@[j] as nat,
                ),
        decreases 4 - i,
    {
        assert(parts@[i as int]@ == pv[i as int]);
        match crate::text::parse_unsigned_chars(&parts[i], 255) {
            Some(v) => {
                values.push(v as u8);
            },
            None => {
                assert(!ipv4_ok(candidate@));
                return None;
            },
        }
        i += 1;
    }
    let a = [values[0], values[1], values[2], values[3]];
    assert(a@[0] == values@[0] && a@[1] == values@[1] && a@[2] == values@[2] && a@[3] == values@[3]);
    assert(ipv4_ok(candidate@)) by {
        assert forall|j: int| 0 <= j < 4 implies #[trigger] crate::text::parse_unsigned(pv[j], 255) is Some by {
            assert(crate::text::parse_unsigned(pv[j], 255) == Some(values@[j] as nat));
        }
    }
    Some(a)
}

pub open spec fn bind_ip_message(zh: bool) -> Seq<char> {
    pick(zh, "绑定 IP 格式不正确，请输入合法的 IPv4 地址"@, "Bind IP is invalid. Please enter a valid IPv4 address"@)
}

/// The address a service binds must be a dotted IPv4 address.
pub fn validate_bind_ip(candidate: &str, zh: bool) -> (r: Result<(), String>)
    ensures
        ipv4_ok(candidate@) ==> r is Ok,
        !ipv4_ok(candidate@) ==> (r matches Err(e) && e@ == bind_ip_message(zh)),
{
    if parse_ipv4(candidate).is_some() {
        return Ok(());
    }
    Err(String::from_str(pick_text(zh, "绑定 IP 格式不正确，请输入合法的 IPv4 地址", "Bind IP is invalid. Please enter a valid IPv4 address")))
}

/// A path as the user typed it, with what the file system says of it: the
/// path it resolves to (itself where it cannot be resolved) and whether
/// something other than a directory already stands there.
#[derive(Debug, Clone)]
pub struct PathOnDisk {
    pub text: String,
    pub resolved: String,
    pub occupied_by_file: bool,
}

impl PathOnDisk {
    /// The typed path, the resolved path and the flag.
    pub open spec fn views(self) -> (Seq<char>, Seq<char>, bool) {
        (self.text@, self.resolved@, self.occupied_by_file)
    }
}

pub open spec fn not_absolute_message(label: Seq<char>, zh: bool) -> Seq<char> {
    if zh {
        label + " 必须是绝对路径"@
    } else {
        label + " must be an absolute path"@
    }
}

pub open spec fn not_directory_message(label: Seq<char>, zh: bool) -> Seq<char> {
    if zh {
        label + " 已存在且不是目录"@
    } else {
        label + " already exists and is not a directory"@
    }
}

/// The error a directory the manager is to create gets, if any: it must be
/// absolute and must not be taken by a file.
pub open spec fn spec_absolute_dir_error(text: Seq<char>, occupied_by_file: bool, label: Seq<char>, zh: bool) -> Option<Seq<char>> {
    if !is_root(text) {
        Some(not_absolute_message(label, zh))
    } else if occupied_by_file {
        Some(not_directory_message(label, zh))
    } else {
        None
    }
}

/// Checks a directory the manager is to create.
pub fn validate_absolute_dir(dir: &PathOnDisk, label: &str, zh: bool) -> (r: Result<(), String>)
    ensures
        match (r, spec_absolute_dir_error(dir.text@, dir.occupied_by_file, label@, zh)) {
            (Ok(()), None) => true,
            (Err(e), Some(m)) => e@ == m,
            _ => false,
        },
{
    let chars = chars_of(&dir.text);
    if !(chars.len() > 0 && chars[0] == '/') {
        return Err(concat2(label, if zh { " 必须是绝对路径" } else { " must be an absolute path" }));
    }
    if dir.occupied_by_file {
        return Err(
            concat2(label, if zh { " 已存在且不是目录" } else { " already exists and is not a directory" }),
        );
    }
    Ok(())
}

pub open spec fn lancedb_root_label(zh: bool) -> Seq<char> {
    pick(zh, "LanceDB 数据根目录"@, "LanceDB data root"@)
}

pub open spec fn duckdb_root_label(zh: bool) -> Seq<char> {
    pick(zh, "DuckDB 数据根目录"@, "DuckDB data root"@)
}

/// The error the two data roots of a first installation get, if any: each
/// must be a usable directory, they must not overlap, and neither may lie
/// within (or contain) the installation directory, whose resolved path is
/// `install_dir`.
pub open spec fn spec_data_roots_error(lance: (Seq<char>, Seq<char>, bool), duck: (Seq<char>, Seq<char>, bool), install_dir: Seq<char>, zh: bool) -> Option<Seq<char>> {
    if spec_absolute_dir_error(lance.0, lance.2, lancedb_root_label(zh), zh) is Some {
        spec_absolute_dir_error(lance.0, lance.2, lancedb_root_label(zh), zh)
    } else if spec_absolute_dir_error(duck.0, duck.2, duckdb_root_label(zh), zh) is Some {
        spec_absolute_dir_error(duck.0, duck.2, duckdb_root_label(zh), zh)
    } else if spec_paths_overlap(lance.1, duck.1) {
        Some(pick(zh, "LanceDB 和 DuckDB 的数据根目录不能重叠"@, "LanceDB and DuckDB data roots must not overlap"@))
    } else if spec_paths_overlap(install_dir, lance.1) {
        Some(
            pick(
                zh,
                "LanceDB 数据根目录必须位于安装目录之外"@,
                "LanceDB data root must stay outside the installation directory"@,
            ),
        )
    } else if spec_paths_overlap(install_dir, duck.1) {
        Some(
            pick(
                zh,
                "DuckDB 数据根目录必须位于安装目录之外"@,
                "DuckDB data root must stay outside the installation directory"@,
            ),
        )
    } else {
        None
    }
}

/// Checks the two data roots of a first installation.
pub fn validate_data_roots(lance: &PathOnDisk, duck: &PathOnDisk, install_dir: &str, zh: bool) -> (r: Result<(), String>)
    ensures
        match (r, spec_data_roots_error(lance.views(), duck.views(), install_dir@, zh)) {
            (Ok(()), None) => true,
            (Err(e), Some(m)) => e@ == m,
            _ => false,
        },
{
    let lance_label = pick_text(zh, "LanceDB 数据根目录", "LanceDB data root");
    validate_absolute_dir(lance, lance_label, zh)?;
    let duck_label = pick_text(zh, "DuckDB 数据根目录", "DuckDB data root");
    validate_absolute_dir(duck, duck_label, zh)?;
    if paths_overlap(&lance.resolved, &duck.resolved) {
        return Err(
            String::from_str(
                pick_text(zh, "LanceDB 和 DuckDB 的数据根目录不能重叠", "LanceDB and DuckDB data roots must not overlap"),
            ),
        );
    }
    if paths_overlap(install_dir, &lance.resolved) {
        return Err(
            String::from_str(
                pick_text(
                    zh,
                    "LanceDB 数据根目录必须位于安装目录之外",
                    "LanceDB data root must stay outside the installation directory",
                ),
            ),
        );
    }
    if paths_overlap(install_dir, &duck.resolved) {
        return Err(
            String::from_str(
                pick_text(
                    zh,
                    "DuckDB 数据根目录必须位于安装目录之外",
                    "DuckDB data root must stay outside the installation directory",
                ),
            ),
        );
    }
    Ok(())
}

/// Another instance keeps its data where the candidate path overlaps it.
pub open spec fn data_path_conflicts(inst: InstalledInstance, service: ServiceId, instance_name: Seq<char>, resolved: Seq<char>) -> bool {
    is_other_instance(inst, service, instance_name) && spec_paths_overlap(resolved, inst.db_path@)
}

pub open spec fn data_conflict_message(inst: InstalledInstance, zh: bool) -> Seq<char> {
    if zh {
        "数据路径与 "@ + service_label(inst.service) + "/"@ + inst.instance_name@ + " 冲突："@ + inst.db_path@
    } else {
        "Data path conflicts with "@ + service_label(inst.service) + "/"@ + inst.instance_name@ + ": "@
            + inst.db_path@
    }
}

/// The first of `instances` whose data the candidate path overlaps is at `k`.
pub open spec fn first_data_conflict(
    instances: Seq<InstalledInstance>,
    service: ServiceId,
    instance_name: Seq<char>,
    resolved: Seq<char>,
    k: int,
) -> bool {
    &&& 0 <= k < instances.len()
    &&& data_path_conflicts(instances[k], service, instance_name, resolved)
    &&& forall|j: int| 0 <= j < k ==> !data_path_conflicts(#[trigger] instances[j], service, instance_name, resolved)
}

pub open spec fn relative_data_path_message(zh: bool) -> Seq<char> {
    pick(zh, "请使用绝对数据路径"@, "Please use an absolute data path"@)
}

pub open spec fn data_in_install_dir_message(zh: bool) -> Seq<char> {
    pick(zh, "数据库路径必须位于安装目录之外"@, "Database path must stay outside the installation directory"@)
}

/// The error the data path of an instance gets, if any; `resolved` is the
/// path as the file system resolves it.
pub open spec fn spec_data_path_error(
    candidate: Seq<char>,
    resolved: Seq<char>,
    service: ServiceId,
    instance_name: Seq<char>,
    install_dir: Seq<char>,
    instances: Seq<InstalledInstance>,
    zh: bool,
) -> Option<Seq<char>> {
    if !is_root(candidate) {
        Some(relative_data_path_message(zh))
    } else if spec_paths_overlap(install_dir, resolved) {
        Some(data_in_install_dir_message(zh))
    } else if exists|k: int| first_data_conflict(instances, service, instance_name, resolved, k) {
        Some(data_conflict_message(instances[choose|k: int| first_data_conflict(instances, service, instance_name, resolved, k)], zh))
    } else {
        None
    }
}

/// Checks where an instance is to keep its data: an absolute path, outside
/// the installation directory (resolved: `install_dir`), overlapping no other
/// instance's data path (each listed resolved).
pub fn validate_data_path(
    candidate: &str,
    resolved: &str,
    service: ServiceId,
    instance_name: &str,
    install_dir: &str,
    instances: &Vec<InstalledInstance>,
    zh: bool,
) -> (r: Result<(), String>)
    ensures
        match (r, spec_data_path_error(candidate@, resolved@, service, instance_name@, install_dir@, instances@, zh)) {
            (Ok(()), None) => true,
            (Err(e), Some(m)) => e@ == m,
            _ => false,
        },
{
    let chars = chars_of(candidate);
    if !(chars.len() > 0 && chars[0] == '/') {
        return Err(String::from_str(pick_text(zh, "请使用绝对数据路径", "Please use an absolute data path")));
    }
    if paths_overlap(install_dir, resolved) {
        return Err(
            String::from_str(
                pick_text(zh, "数据库路径必须位于安装目录之外", "Database path must stay outside the installation directory"),
            ),
        );
    }
    let mut i: usize = 0;
    while i < instances.len()
        invariant
            0 <= i <= instances.len(),
            is_root(candidate@),
            !spec_paths_overlap(install_dir@, resolved@),
            forall|j: int|
                0 <= j < i ==> !data_path_conflicts(
                    #[trigger] instances@[j],
                    service,
                    instance_name@,
                    resolved@,
                ),
        decreases instances.len() - i,
    {
        let inst = &instances[i];
        let same = inst.service == service && crate::text::eq_str(&chars_of(&inst.instance_name), instance_name);
        if !same && paths_overlap(resolved, &inst.db_path) {
            let label = inst.service.label();
            let mut msg = if zh {
                concat3("数据路径与 ", label, "/")
            } else {
                concat3("Data path conflicts with ", label, "/")
            };
            push_all(&mut msg, &inst.instance_name);
            push_all(&mut msg, if zh { " 冲突：" } else { ": " });
            push_all(&mut msg, &inst.db_path);
            proof {
                assert(first_data_conflict(instances@, service, instance_name@, resolved@, i as int));
                let k = choose|k: int| first_data_conflict(instances@, service, instance_name@, resolved@, k);
                if k < i {
                    assert(!data_path_conflicts(instances@[k], service, instance_name@, resolved@));
                } else if k > i {
                    assert(!data_path_conflicts(instances@[i as int], service, instance_name@, resolved@));
                }
            }
            assert(msg@ == data_conflict_message(instances@[i as int], zh));
            return Err(msg);
        }
        i += 1;
    }
    Ok(())
}

/// The port of the instance being changed, if any.
pub open spec fn current_port_of(current: Option<&InstalledInstance>) -> Option<u16> {
    match current {
        Some(c) => Some(c.port),
        None => None,
    }
}

/// The service name of the instance being changed, if any.
pub open spec fn current_name_of(current: Option<&InstalledInstance>) -> Option<Seq<char>> {
    match current {
        Some(c) => Some(c.service_name@),
        None => None,
    }
}

/// Checks a request to install an instance (`current` is `None`) or to
/// change one (`current` is the instance as it stands), step by step: the
/// bind address, the instance name, the port, the data path (resolved:
/// `data_path_resolved`) and the service name; the first step that fails
/// gives the error.
pub fn validate_instance_request<F: Fn(&str) -> bool, G: Fn(u16) -> bool, H: Fn(&str) -> bool>(
    request: &InstanceRequest,
    current: Option<&InstalledInstance>,
    data_path_resolved: &str,
    install_dir: &str,
    instances: &Vec<InstalledInstance>,
    is_running: F,
    port_available: G,
    is_registered: H,
    zh: bool,
) -> (r: Result<(), String>)
    requires
        forall|s: &str| is_running.requires((s,)),
        forall|p: u16| port_available.requires((p,)),
        forall|s: &str| is_registered.requires((s,)),
    ensures
        match r {
            Ok(()) => {
                &&& ipv4_ok(request.bind_host@)
                &&& spec_instance_name_error(request.instance_name@, zh) is None
                &&& port_accepted(
                    request.port,
                    request.service,
                    request.instance_name@,
                    current_port_of(current),
                    current_name_of(current),
                    instances@,
                    is_running,
                    port_available,
                )
                &&& spec_data_path_error(
                    request.data_path@,
                    data_path_resolved@,
                    request.service,
                    request.instance_name@,
                    install_dir@,
                    instances@,
                    zh,
                ) is None
                &&& service_name_accepted(
                    request.service_name@,
                    request.service,
                    request.instance_name@,
                    current_name_of(current),
                    instances@,
                    is_registered,
                )
            },
            Err(e) => {
                ||| (!ipv4_ok(request.bind_host@) && e@ == bind_ip_message(zh))
                ||| (ipv4_ok(request.bind_host@) && spec_instance_name_error(request.instance_name@, zh)
                    == Some(e@))
                ||| (ipv4_ok(request.bind_host@) && spec_instance_name_error(request.instance_name@, zh) is None
                    && port_refused(
                    request.port,
                    request.service,
                    request.instance_name@,
                    instances@,
                    port_available,
                    zh,
                    e@,
                ))
                ||| (ipv4_ok(request.bind_host@) && spec_instance_name_error(request.instance_name@, zh) is None
                    && port_accepted(
                    request.port,
                    request.service,
                    request.instance_name@,
                    current_port_of(current),
                    current_name_of(current),
                    instances@,
                    is_running,
                    port_available,
                ) && spec_data_path_error(
                    request.data_path@,
                    data_path_resolved@,
                    request.service,
                    request.instance_name@,
                    install_dir@,
                    instances@,
                    zh,
                ) == Some(e@))
                ||| (ipv4_ok(request.bind_host@) && spec_instance_name_error(request.instance_name@, zh) is None
                    && port_accepted(
                    request.port,
                    request.service,
                    request.instance_name@,
                    current_port_of(current),
                    current_name_of(current),
                    instances@,
                    is_running,
                    port_available,
                ) && spec_data_path_error(
                    request.data_path@,
                    data_path_resolved@,
                    request.service,
                    request.instance_name@,
                    install_dir@,
                    instances@,
                    zh,
                ) is None && service_name_refused(
                    request.service_name@,
                    request.service,
                    request.instance_name@,
                    current_name_of(current),
                    instances@,
                    is_registered,
                    zh,
                    e@,
                ))
            },
        },
{
    validate_bind_ip(&request.bind_host, zh)?;
    validate_instance_name(&request.instance_name, zh)?;
    let current_port: Option<u16> = match current {
        Some(c) => Some(c.port),
        None => None,
    };
    let current_name: Option<&str> = match current {
        Some(c) => Some(c.service_name.as_str()),
        None => None,
    };
    validate_port(
        request.port,
        request.service,
        &request.instance_name,
        current_port,
        current_name,
        instances,
        is_running,
        port_available,
        zh,
    )?;
    validate_data_path(
        &request.data_path,
        data_path_resolved,
        request.service,
        &request.instance_name,
        install_dir,
        instances,
        zh,
    )?;
    validate_service_name(
        &request.service_name,
        request.service,
        &request.instance_name,
        current_name,
        instances,
        is_registered,
        zh,
    )?;
    Ok(())
}

/// Checks a request for a first installation, step by step: the two data
/// roots (as the file system sees them), the bind address, the two ports and
/// the two service names, each for the instance `default`; the first step
/// that fails gives the error.
pub fn validate_init_request<H: Fn(&str) -> bool>(
    request: &InitRequest,
    lance_resolved: &str,
    lance_occupied_by_file: bool,
    duck_resolved: &str,
    duck_occupied_by_file: bool,
    install_dir: &str,
    instances: &Vec<InstalledInstance>,
    is_registered: H,
    zh: bool,
) -> (r: Result<(), String>)
    requires
        forall|s: &str| is_registered.requires((s,)),
    ensures
        match r {
            Ok(()) => {
                &&& spec_data_roots_error(
                    (request.lancedb_root@, lance_resolved@, lance_occupied_by_file),
                    (request.duckdb_root@, duck_resolved@, duck_occupied_by_file),
                    install_dir@,
                    zh,
                ) is None
                &&& ipv4_ok(request.bind_host@)
                &&& request.lancedb_port != request.duckdb_port
                &&& service_name_accepted(
                    request.lancedb_service_name@,
                    ServiceId::LanceDb,
                    "default"@,
                    None,
                    instances@,
                    is_registered,
                )
                &&& service_name_accepted(
                    request.duckdb_service_name@,
                    ServiceId::DuckDb,
                    "default"@,
                    None,
                    instances@,
                    is_registered,
                )
            },
            Err(e) => {
                ||| spec_data_roots_error(
                    (request.lancedb_root@, lance_resolved@, lance_occupied_by_file),
                    (request.duckdb_root@, duck_resolved@, duck_occupied_by_file),
                    install_dir@,
                    zh,
                ) == Some(e@)
                ||| (spec_data_roots_error(
                    (request.lancedb_root@, lance_resolved@, lance_occupied_by_file),
                    (request.duckdb_root@, duck_resolved@, duck_occupied_by_file),
                    install_dir@,
                    zh,
                ) is None && !ipv4_ok(
                    request.bind_host@,
                ) && e@ == bind_ip_message(zh))
                ||| (spec_data_roots_error(
                    (request.lancedb_root@, lance_resolved@, lance_occupied_by_file),
                    (request.duckdb_root@, duck_resolved@, duck_occupied_by_file),
                    install_dir@,
                    zh,
                ) is None && ipv4_ok(
                    request.bind_host@,
                ) && request.lancedb_port == request.duckdb_port && e@ == distinct_ports_message(zh))
                ||| (spec_data_roots_error(
                    (request.lancedb_root@, lance_resolved@, lance_occupied_by_file),
                    (request.duckdb_root@, duck_resolved@, duck_occupied_by_file),
                    install_dir@,
                    zh,
                ) is None && ipv4_ok(
                    request.bind_host@,
                ) && request.lancedb_port != request.duckdb_port && service_name_refused(
                    request.lancedb_service_name@,
                    ServiceId::LanceDb,
                    "default"@,
                    None,
                    instances@,
                    is_registered,
                    zh,
                    e@,
                ))
                ||| (spec_data_roots_error(
                    (request.lancedb_root@, lance_resolved@, lance_occupied_by_file),
                    (request.duckdb_root@, duck_resolved@, duck_occupied_by_file),
                    install_dir@,
                    zh,
                ) is None && ipv4_ok(
                    request.bind_host@,
                ) && request.lancedb_port != request.duckdb_port && service_name_accepted(
                    request.lancedb_service_name@,
                    ServiceId::LanceDb,
                    "default"@,
                    None,
                    instances@,
                    is_registered,
                ) && service_name_refused(
                    request.duckdb_service_name@,
                    ServiceId::DuckDb,
                    "default"@,
                    None,
                    instances@,
                    is_registered,
                    zh,
                    e@,
                ))
            },
        },
{
    let lance_root = PathOnDisk {
        text: request.lancedb_root.clone(),
        resolved: String::from_str(lance_resolved),
        occupied_by_file: lance_occupied_by_file,
    };
    let duck_root = PathOnDisk {
        text: request.duckdb_root.clone(),
        resolved: String::from_str(duck_resolved),
        occupied_by_file: duck_occupied_by_file,
    };
    validate_data_roots(&lance_root, &duck_root, install_dir, zh)?;
    validate_bind_ip(&request.bind_host, zh)?;
    validate_distinct_ports(request.lancedb_port, request.duckdb_port, zh)?;
    validate_service_name(
        &request.lancedb_service_name,
        ServiceId::LanceDb,
        "default",
        None,
        instances,
        &is_registered,
        zh,
    )?;
    validate_service_name(
        &request.duckdb_service_name,
        ServiceId::DuckDb,
        "default",
        None,
        instances,
        &is_registered,
        zh,
    )?;
    Ok(())
}

/// The service name an instance is offered first: the preferred one unless
/// it is blank, else the name it would have had when config files named
/// none.
pub open spec fn spec_base_service_name(service: ServiceId, instance_name: Seq<char>, preferred: Option<Seq<char>>) -> Seq<char> {
    match preferred {
        Some(p) => if crate::text::all_ws(p) {
            spec_legacy_service_name(service, instance_name)
        } else {
            p
        },
        None => spec_legacy_service_name(service, instance_name),
    }
}

/// The names offered in turn: the base name, then `base-2`, `base-3`, ...
pub open spec fn numbered_service_name(base: Seq<char>, k: nat) -> Seq<char> {
    if k < 2 {
        base
    } else {
        base + "-"@ + crate::text::dec(k)
    }
}

/// The name offered in turn `k` is refused by the service-name checks.
pub open spec fn offered_name_refused<F: Fn(&str) -> bool>(
    base: Seq<char>,
    k: nat,
    service: ServiceId,
    instance_name: Seq<char>,
    current_name: Option<Seq<char>>,
    instances: Seq<InstalledInstance>,
    is_registered: F,
) -> bool {
    exists|e: Seq<char>|
        #[trigger] service_name_refused(
            numbered_service_name(base, k),
            service,
            instance_name,
            current_name,
            instances,
            is_registered,
            false,
            e,
        )
}

/// The first of the names `base`, `base-2`, `base-3`, ... that passes the
/// service-name checks; `None` only when the counter runs out with every
/// name refused.
pub fn new_unique_service_name<H: Fn(&str) -> bool>(
    service: ServiceId,
    instance_name: &str,
    preferred_name: Option<&str>,
    current_name: Option<&str>,
    instances: &Vec<InstalledInstance>,
    is_registered: H,
) -> (r: Option<String>)
    requires
        forall|s: &str| is_registered.requires((s,)),
    ensures
        ({
            let base = spec_base_service_name(service, instance_name@, opt_str_view(preferred_name));
            &&& r matches Some(n) ==> service_name_accepted(
                n@,
                service,
                instance_name@,
                opt_str_view(current_name),
                instances@,
                is_registered,
            ) && exists|k: nat|
                (k == 0 || 2 <= k < usize::MAX) && n@ == numbered_service_name(base, k) && (k >= 2 ==> {
                    &&& offered_name_refused(
                        base,
                        0,
                        service,
                        instance_name@,
                        opt_str_view(current_name),
                        instances@,
                        is_registered,
                    )
                    &&& forall|m: nat|
                        2 <= m < k ==> #[trigger] offered_name_refused(
                            base,
                            m,
                            service,
                            instance_name@,
                            opt_str_view(current_name),
                            instances@,
                            is_registered,
                        )
                })
            &&& r is None ==> {
                &&& offered_name_refused(
                    base,
                    0,
                    service,
                    instance_name@,
                    opt_str_view(current_name),
                    instances@,
                    is_registered,
                )
                &&& forall|m: nat|
                    2 <= m < usize::MAX ==> #[trigger] offered_name_refused(
                        base,
                        m,
                        service,
                        instance_name@,
                        opt_str_view(current_name),
                        instances@,
                        is_registered,
                    )
            }
        }),
{
    let base = match preferred_name {
        Some(p) => if crate::text::is_blank(p) {
            legacy_service_name(service, instance_name)
        } else {
            String::from_str(p)
        },
        None => legacy_service_name(service, instance_name),
    };
    let ghost base_view = spec_base_service_name(service, instance_name@, opt_str_view(preferred_name));
    let ghost current = opt_str_view(current_name);
    assert(base@ == base_view);
    match validate_service_name(&base, service, instance_name, current_name, instances, &is_registered, false) {
        Ok(()) => {
            assert(base@ == numbered_service_name(base_view, 0));
            return Some(base);
        },
        Err(e) => {
            assert(base@ == numbered_service_name(base_view, 0));
            assert(service_name_refused(
                numbered_service_name(base_view, 0),
                service,
                instance_name@,
                current,
                instances@,
                is_registered,
                false,
                e@,
            ));
        },
    }
    let mut suffix: usize = 2;
    while suffix < usize::MAX
        invariant
            2 <= suffix,
            base@ == base_view,
            base_view == spec_base_service_name(service, instance_name@, opt_str_view(preferred_name)),
            current == opt_str_view(current_name),
            forall|s: &str| is_registered.requires((s,)),
            offered_name_refused(base_view, 0, service, instance_name@, current, instances@, is_registered),
            forall|m: nat|
                2 <= m < suffix ==> #[trigger] offered_name_refused(
                    base_view,
                    m,
                    service,
                    instance_name@,
                    current,
                    instances@,
                    is_registered,
                ),
        decreases usize::MAX - suffix,
    {
        let mut candidate = base.clone();
        push_all(&mut candidate, "-");
        push_all(&mut candidate, &crate::text::render_u128(suffix as u128));
        assert(candidate@ == numbered_service_name(base_view, suffix as nat));
        match validate_service_name(&candidate, service, instance_name, current_name, instances, &is_registered, false) {
            Ok(()) => {
                assert(2 <= suffix < usize::MAX && candidate@ == numbered_service_name(
                    base_view,
                    suffix as nat,
                ));
                return Some(candidate);
            },
            Err(e) => {
                assert(service_name_refused(
                    numbered_service_name(base_view, suffix as nat),
                    service,
                    instance_name@,
                    current,
                    instances@,
                    is_registered,
                    false,
                    e@,
                ));
                assert(offered_name_refused(
                    base_view,
                    suffix as nat,
                    service,
                    instance_name@,
                    current,
                    instances@,
                    is_registered,
                ));
            },
        }
        suffix += 1;
    }
    None
}

/// Some instance of the service is installed.
pub open spec fn has_instance_of(instances: Seq<InstalledInstance>, service: ServiceId) -> bool {
    exists|j: int| 0 <= j < instances.len() && (#[trigger] instances[j]).service == service
}

/// The services that are installed, LanceDB first: those whose binary is in
/// place or that have an instance.
pub open spec fn spec_installed_kinds(lance_binary: bool, duck_binary: bool, instances: Seq<InstalledInstance>) -> Seq<ServiceId> {
    let lance = if lance_binary || has_instance_of(instances, ServiceId::LanceDb) {
        seq![ServiceId::LanceDb]
    } else {
        Seq::empty()
    };
    let duck = if duck_binary || has_instance_of(instances, ServiceId::DuckDb) {
        seq![ServiceId::DuckDb]
    } else {
        Seq::empty()
    };
    lance + duck
}

/// Whether some instance of the service is installed.
pub fn any_instance_of(instances: &Vec<InstalledInstance>, service: ServiceId) -> (r: bool)
    ensures
        r == has_instance_of(instances@, service),
{
    let mut i: usize = 0;
    while i < instances.len()
        invariant
            0 <= i <= instances.len(),
            forall|j: int| 0 <= j < i ==> (#[trigger] instances@[j]).service != service,
        decreases instances.len() - i,
    {
        if instances[i].service == service {
            return true;
        }
        i += 1;
    }
    false
}

/// The services that are installed; `lance_binary` and `duck_binary` say
/// whether each service's binary is in place.
pub fn installed_service_kinds(lance_binary: bool, duck_binary: bool, instances: &Vec<InstalledInstance>) -> (r: Vec<ServiceId>)
    ensures
        r@ == spec_installed_kinds(lance_binary, duck_binary, instances@),
{
    let mut kinds: Vec<ServiceId> = Vec::new();
    if lance_binary || any_instance_of(instances, ServiceId::LanceDb) {
        kinds.push(ServiceId::LanceDb);
    }
    if duck_binary || any_instance_of(instances, ServiceId::DuckDb) {
        kinds.push(ServiceId::DuckDb);
    }
    assert(kinds@ =~= spec_installed_kinds(lance_binary, duck_binary, instances@));
    kinds
}

/// Each character of `s` replaced by its text under `f`, in order.
pub open spec fn flat_map_chars(s: Seq<char>, f: spec_fn(char) -> Seq<char>) -> Seq<char>
    decreases s.len(),
{
    if s.len() == 0 {
        Seq::empty()
    } else {
        flat_map_chars(s.drop_last(), f) + f(s.last())
    }
}

pub open spec fn ps_quote_char(c: char) -> Seq<char> {
    if c == '\'' {
        "''"@
    } else {
        seq![c]
    }
}

pub open spec fn xml_char(c: char) -> Seq<char> {
    if c == '&' {
        "&amp;"@
    } else if c == '<' {
        "&lt;"@
    } else if c == '>' {
        "&gt;"@
    } else if c == '"' {
        "&quot;"@
    } else if c == '\'' {
        "&apos;"@
    } else {
        seq![c]
    }
}

/// A text for the inside of a single-quoted PowerShell string: each `'`
/// doubled.
pub fn ps_literal(value: &str) -> (r: String)
    ensures
        r@ == flat_map_chars(value@, |c: char| ps_quote_char(c)),
{
    proof {
        reveal_strlit("''");
    }
    let chars = chars_of(value);
    let mut out = String::new();
    let mut i: usize = 0;
    while i < chars.len()
        invariant
            0 <= i <= chars.len(),
            chars@ == value@,
            out@ == flat_map_chars(chars@.subrange(0, i as int), |c: char| ps_quote_char(c)),
        decreases chars.len() - i,
    {
        let c = chars[i];
        assert(chars@.subrange(0, i + 1).drop_last() =~= chars@.subrange(0, i as int));
        if c == '\'' {
            push_all(&mut out, "''");
        } else {
            push_char(&mut out, c);
        }
        i += 1;
    }
    assert(chars@.subrange(0, chars.len() as int) =~= chars@);
    out
}

/// A text for XML content or attributes: `&`, `<`, `>`, `"` and `'` as
/// entities.
pub fn xml_escape(value: &str) -> (r: String)
    ensures
        r@ == flat_map_chars(value@, |c: char| xml_char(c)),
{
    proof {
        reveal_strlit("&amp;");
        reveal_strlit("&lt;");
        reveal_strlit("&gt;");
        reveal_strlit("&quot;");
        reveal_strlit("&apos;");
    }
    let chars = chars_of(value);
    let mut out = String::new();
    let mut i: usize = 0;
    while i < chars.len()
        invariant
            0 <= i <= chars.len(),
            chars@ == value@,
            out@ == flat_map_chars(chars@.subrange(0, i as int), |c: char| xml_char(c)),
        decreases chars.len() - i,
    {
        let c = chars[i];
        assert(chars@.subrange(0, i + 1).drop_last() =~= chars@.subrange(0, i as int));
        if c == '&' {
            push_all(&mut out, "&amp;");
        } else if c == '<' {
            push_all(&mut out, "&lt;");
        } else if c == '>' {
            push_all(&mut out, "&gt;");
        } else if c == '"' {
            push_all(&mut out, "&quot;");
        } else if c == '\'' {
            push_all(&mut out, "&apos;");
        } else {
            push_char(&mut out, c);
        }
        i += 1;
    }
    assert(chars@.subrange(0, chars.len() as int) =~= chars@);
    out
}

/// The release target of a platform, by `std::env::consts::OS` and `ARCH`.
pub open spec fn spec_target_triple(os: Seq<char>, arch: Seq<char>) -> Result<Seq<char>, Seq<char>> {
    if os == "windows"@ && arch == "x86_64"@ {
        Ok("x86_64-pc-windows-msvc"@)
    } else if os == "windows"@ && arch == "aarch64"@ {
        Ok("aarch64-pc-windows-msvc"@)
    } else if os == "linux"@ && arch == "x86_64"@ {
        Ok("x86_64-unknown-linux-gnu"@)
    } else if os == "linux"@ && arch == "aarch64"@ {
        Ok("aarch64-unknown-linux-gnu"@)
    } else if os == "macos"@ && arch == "x86_64"@ {
        Ok("x86_64-apple-darwin"@)
    } else if os == "macos"@ && arch == "aarch64"@ {
        Ok("aarch64-apple-darwin"@)
    } else {
        Err("unsupported platform "@ + os + "/"@ + arch)
    }
}

/// The release target of the platform `os`/`arch`.
pub fn detect_target_triple(os: &str, arch: &str) -> (r: Result<String, String>)
    ensures
        match (r, spec_target_triple(os@, arch@)) {
            (Ok(a), Ok(b)) => a@ == b,
            (Err(a), Err(b)) => a@ == b,
            _ => false,
        },
{
    let oc = chars_of(os);
    let ac = chars_of(arch);
    let eq = |v: &Vec<char>, t: &str| -> (b: bool)
        ensures
            b == (v@ == t@),
        { crate::text::eq_str(v, t) };
    let target = if eq(&oc, "windows") && eq(&ac, "x86_64") {
        "x86_64-pc-windows-msvc"
    } else if eq(&oc, "windows") && eq(&ac, "aarch64") {
        "aarch64-pc-windows-msvc"
    } else if eq(&oc, "linux") && eq(&ac, "x86_64") {
        "x86_64-unknown-linux-gnu"
    } else if eq(&oc, "linux") && eq(&ac, "aarch64") {
        "aarch64-unknown-linux-gnu"
    } else if eq(&oc, "macos") && eq(&ac, "x86_64") {
        "x86_64-apple-darwin"
    } else if eq(&oc, "macos") && eq(&ac, "aarch64") {
        "aarch64-apple-darwin"
    } else {
        let mut msg = concat2("unsupported platform ", os);
        push_all(&mut msg, "/");
        push_all(&mut msg, arch);
        return Err(msg);
    };
    Ok(String::from_str(target))
}

pub open spec fn spec_instance_file_name(service: ServiceId, instance_name: Seq<char>) -> Seq<char> {
    service_label(service) + "-"@ + instance_name + ".json"@
}

/// The config file of an instance, in the manager's config directory.
pub fn instance_config_path(config_dir: &str, service: ServiceId, instance_name: &str) -> (r: String)
    ensures
        r@ == join_path(config_dir@, spec_instance_file_name(service, instance_name@)),
{
    let mut name = concat3(service.label(), "-", instance_name);
    push_all(&mut name, ".json");
    join_path_exec(config_dir, &name)
}

pub open spec fn spec_binary_file_name(service: ServiceId, windows: bool) -> Seq<char> {
    if windows {
        service_label(service) + ".exe"@
    } else {
        service_label(service)
    }
}

/// The installed program of a service, in the manager's `bin` directory.
pub fn service_binary_path(bin_dir: &str, service: ServiceId, windows: bool) -> (r: String)
    ensures
        r@ == join_path(bin_dir@, spec_binary_file_name(service, windows)),
{
    let name = crate::manager_service::executable_name(service.label(), windows);
    join_path_exec(bin_dir, &name)
}

/// The script that runs an instance, in the manager's `run` directory.
pub fn runner_path(run_dir: &str, service: ServiceId, instance_name: &str) -> (r: String)
    ensures
        r@ == join_path(run_dir@, service_label(service) + "-"@ + instance_name@ + ".sh"@),
{
    let mut name = concat3(service.label(), "-", instance_name);
    push_all(&mut name, ".sh");
    join_path_exec(run_dir, &name)
}

/// The directory of an instance's Windows service wrapper.
pub fn windows_wrapper_dir(run_dir: &str, service: ServiceId, instance_name: &str) -> (r: String)
    ensures
        r@ == join_path(join_path(run_dir@, "services"@), service_label(service) + "-"@ + instance_name@),
{
    let services = join_path_exec(run_dir, "services");
    let name = concat3(service.label(), "-", instance_name);
    join_path_exec(&services, &name)
}

/// A file in the config directory is an instance config when its name is
/// `vldb-lancedb-*.json` or `vldb-duckdb-*.json`.
pub open spec fn is_instance_config_name(name: Seq<char>) -> bool {
    (has_prefix(name, "vldb-lancedb-"@) || has_prefix(name, "vldb-duckdb-"@)) && crate::text::has_suffix(
        name,
        ".json"@,
    )
}

/// Whether a file name is that of an instance config.
pub fn is_instance_config_file_name(name: &str) -> (r: bool)
    ensures
        r == is_instance_config_name(name@),
{
    let chars = chars_of(name);
    (crate::text::starts_with_seq(&chars, "vldb-lancedb-") || crate::text::starts_with_seq(
        &chars,
        "vldb-duckdb-",
    )) && crate::text::ends_with_seq(&chars, ".json")
}

pub open spec fn spec_runner_script(binary: Seq<char>, config: Seq<char>) -> Seq<char> {
    "#!/usr/bin/env bash\nexec \""@ + binary + "\" --config \""@ + config + "\"\n"@
}

/// The script a Unix service manager runs for an instance.
pub fn runner_script(binary: &str, config: &str) -> (r: String)
    ensures
        r@ == spec_runner_script(binary@, config@),
{
    let mut s = concat3("#!/usr/bin/env bash\nexec \"", binary, "\" --config \"");
    push_all(&mut s, config);
    push_all(&mut s, "\"\n");
    s
}

pub open spec fn spec_unix_launcher(exe: Seq<char>) -> Seq<char> {
    "#!/usr/bin/env bash\nexec \""@ + exe + "\" \"$@\"\n"@
}

/// The `vldb` command on Unix: it runs the manager with its arguments.
pub fn unix_launcher_script(manager_exe: &str) -> (r: String)
    ensures
        r@ == spec_unix_launcher(manager_exe@),
{
    concat3("#!/usr/bin/env bash\nexec \"", manager_exe, "\" \"$@\"\n")
}

pub open spec fn cmd_quote_char(c: char) -> Seq<char> {
    if c == '"' {
        "\"\""@
    } else {
        seq![c]
    }
}

/// A text for the inside of a double-quoted `cmd` or PowerShell string:
/// each `"` doubled.
pub fn double_quote_marks(value: &str) -> (r: String)
    ensures
        r@ == flat_map_chars(value@, |c: char| cmd_quote_char(c)),
{
    proof {
        reveal_strlit("\"\"");
    }
    let chars = chars_of(value);
    let mut out = String::new();
    let mut i: usize = 0;
    while i < chars.len()
        invariant
            0 <= i <= chars.len(),
            chars@ == value@,
            out@ == flat_map_chars(chars@.subrange(0, i as int), |c: char| cmd_quote_char(c)),
        decreases chars.len() - i,
    {
        let c = chars[i];
        assert(chars@.subrange(0, i + 1).drop_last() =~= chars@.subrange(0, i as int));
        if c == '"' {
            push_all(&mut out, "\"\"");
        } else {
            push_char(&mut out, c);
        }
        i += 1;
    }
    assert(chars@.subrange(0, chars.len() as int) =~= chars@);
    out
}

pub open spec fn spec_cmd_launcher(exe: Seq<char>) -> Seq<char> {
    "@echo off\r\n\""@ + flat_map_chars(exe, |c: char| cmd_quote_char(c)) + "\" %*\r\n"@
}

pub open spec fn spec_ps1_launcher(exe: Seq<char>) -> Seq<char> {
    "& \""@ + flat_map_chars(exe, |c: char| cmd_quote_char(c)) + "\" @args\r\n"@
}

/// The `vldb.cmd` and `vldb.ps1` launchers on Windows.
pub fn windows_launcher_scripts(manager_exe: &str) -> (r: (String, String))
    ensures
        r.0@ == spec_cmd_launcher(manager_exe@),
        r.1@ == spec_ps1_launcher(manager_exe@),
{
    let quoted = double_quote_marks(manager_exe);
    let cmd = concat3("@echo off\r\n\"", &quoted, "\" %*\r\n");
    let ps1 = concat3("& \"", &quoted, "\" @args\r\n");
    (cmd, ps1)
}

pub open spec fn spec_systemd_unit(name: Seq<char>, runner: Seq<char>, workdir: Seq<char>, root: bool) -> Seq<char> {
    "[Unit]\nDescription="@ + name + "\nAfter=network.target\n\n[Service]\nType=simple\nExecStart="@
        + runner + "\nRestart=always\nRestartSec=3\nWorkingDirectory="@ + workdir
        + "\n\n[Install]\nWantedBy="@ + (if root {
        "multi-user.target"@
    } else {
        "default.target"@
    }) + "\n"@
}

/// The systemd unit of an instance; a system unit for root, a user unit
/// otherwise.
pub fn systemd_unit(registered_name: &str, runner: &str, workdir: &str, root: bool) -> (r: String)
    ensures
        r@ == spec_systemd_unit(registered_name@, runner@, workdir@, root),
{
    let mut s = concat2("[Unit]\nDescription=", registered_name);
    push_all(&mut s, "\nAfter=network.target\n\n[Service]\nType=simple\nExecStart=");
    push_all(&mut s, runner);
    push_all(&mut s, "\nRestart=always\nRestartSec=3\nWorkingDirectory=");
    push_all(&mut s, workdir);
    push_all(&mut s, "\n\n[Install]\nWantedBy=");
    push_all(&mut s, if root { "multi-user.target" } else { "default.target" });
    push_all(&mut s, "\n");
    s
}

pub open spec fn xml_text(s: Seq<char>) -> Seq<char> {
    flat_map_chars(s, |c: char| xml_char(c))
}

pub open spec fn spec_launchd_plist(name: Seq<char>, runner: Seq<char>, workdir: Seq<char>) -> Seq<char> {
    "<?xml version=\"1.0\" encoding=\"UTF-8\"?>\n<!DOCTYPE plist PUBLIC \"-//Apple//DTD PLIST 1.0//EN\" \"http://www.apple.com/DTDs/PropertyList-1.0.dtd\">\n<plist version=\"1.0\">\n  <dict>\n    <key>Label</key>\n    <string>"@
        + xml_text(name)
        + "</string>\n    <key>ProgramArguments</key>\n    <array>\n      <string>"@
        + xml_text(runner)
        + "</string>\n    </array>\n    <key>RunAtLoad</key>\n    <true/>\n    <key>KeepAlive</key>\n    <true/>\n    <key>WorkingDirectory</key>\n    <string>"@
        + xml_text(workdir) + "</string>\n  </dict>\n</plist>\n"@
}

/// The launchd property list of an instance.
pub fn launchd_plist(registered_name: &str, runner: &str, workdir: &str) -> (r: String)
    ensures
        r@ == spec_launchd_plist(registered_name@, runner@, workdir@),
{
    let mut s = String::from_str(
        "<?xml version=\"1.0\" encoding=\"UTF-8\"?>\n<!DOCTYPE plist PUBLIC \"-//Apple//DTD PLIST 1.0//EN\" \"http://www.apple.com/DTDs/PropertyList-1.0.dtd\">\n<plist version=\"1.0\">\n  <dict>\n    <key>Label</key>\n    <string>",
    );
    push_all(&mut s, &xml_escape(registered_name));
    push_all(&mut s, "</string>\n    <key>ProgramArguments</key>\n    <array>\n      <string>");
    push_all(&mut s, &xml_escape(runner));
    push_all(
        &mut s,
        "</string>\n    </array>\n    <key>RunAtLoad</key>\n    <true/>\n    <key>KeepAlive</key>\n    <true/>\n    <key>WorkingDirectory</key>\n    <string>",
    );
    push_all(&mut s, &xml_escape(workdir));
    push_all(&mut s, "</string>\n  </dict>\n</plist>\n");
    s
}

pub open spec fn spec_winsw_xml(name: Seq<char>, binary: Seq<char>, config: Seq<char>, workdir: Seq<char>, logdir: Seq<char>) -> Seq<char> {
    "<service>\n  <id>"@ + xml_text(name) + "</id>\n  <name>"@ + xml_text(name)
        + "</name>\n  <description>"@ + xml_text(name) + "</description>\n  <executable>"@
        + xml_text(binary) + "</executable>\n  <arguments>--config &quot;"@ + xml_text(config)
        + "&quot;</arguments>\n  <workingdirectory>"@ + xml_text(workdir)
        + "</workingdirectory>\n  <startmode>Automatic</startmode>\n  <stoptimeout>15 sec</stoptimeout>\n  <onfailure action=\"restart\" delay=\"10 sec\" />\n  <onfailure action=\"restart\" delay=\"10 sec\" />\n  <onfailure action=\"restart\" delay=\"30 sec\" />\n  <logpath>"@
        + xml_text(logdir) + "</logpath>\n  <log mode=\"roll\" />\n</service>\n"@
}

/// The WinSW description of an instance's Windows service.
pub fn winsw_xml(registered_name: &str, binary: &str, config: &str, workdir: &str, logdir: &str) -> (r: String)
    ensures
        r@ == spec_winsw_xml(registered_name@, binary@, config@, workdir@, logdir@),
{
    let name = xml_escape(registered_name);
    let mut s = concat3("<service>\n  <id>", &name, "</id>\n  <name>");
    push_all(&mut s, &name);
    push_all(&mut s, "</name>\n  <description>");
    push_all(&mut s, &name);
    push_all(&mut s, "</description>\n  <executable>");
    push_all(&mut s, &xml_escape(binary));
    push_all(&mut s, "</executable>\n  <arguments>--config &quot;");
    push_all(&mut s, &xml_escape(config));
    push_all(&mut s, "&quot;</arguments>\n  <workingdirectory>");
    push_all(&mut s, &xml_escape(workdir));
    push_all(
        &mut s,
        "</workingdirectory>\n  <startmode>Automatic</startmode>\n  <stoptimeout>15 sec</stoptimeout>\n  <onfailure action=\"restart\" delay=\"10 sec\" />\n  <onfailure action=\"restart\" delay=\"10 sec\" />\n  <onfailure action=\"restart\" delay=\"30 sec\" />\n  <logpath>",
    );
    push_all(&mut s, &xml_escape(logdir));
    push_all(&mut s, "</logpath>\n  <log mode=\"roll\" />\n</service>\n");
    s
}

/// The logging section a new instance config gets.
pub open spec fn spec_default_logging(service: ServiceId) -> JsonV {
    match service {
        ServiceId::LanceDb => JsonV::Object(
            seq![
                ("enabled"@, JsonV::Bool(true)),
                ("file_enabled"@, JsonV::Bool(true)),
                ("stderr_enabled"@, JsonV::Bool(true)),
                ("request_log_enabled"@, JsonV::Bool(true)),
                ("slow_request_log_enabled"@, JsonV::Bool(true)),
                ("slow_request_threshold_ms"@, JsonV::Int(1000)),
                ("include_request_details_in_slow_log"@, JsonV::Bool(true)),
                ("request_preview_chars"@, JsonV::Int(160)),
                ("log_dir"@, JsonV::Str(Seq::empty())),
                ("log_file_name"@, JsonV::Str("vldb-lancedb.log"@)),
            ],
        ),
        ServiceId::DuckDb => JsonV::Object(
            seq![
                ("enabled"@, JsonV::Bool(true)),
                ("file_enabled"@, JsonV::Bool(true)),
                ("stderr_enabled"@, JsonV::Bool(true)),
                ("request_log_enabled"@, JsonV::Bool(true)),
                ("slow_query_log_enabled"@, JsonV::Bool(true)),
                ("slow_query_threshold_ms"@, JsonV::Int(1000)),
                ("slow_query_full_sql_enabled"@, JsonV::Bool(true)),
                ("sql_preview_chars"@, JsonV::Int(160)),
                ("log_dir"@, JsonV::Str(Seq::empty())),
                ("log_file_name"@, JsonV::Str("vldb-duckdb.log"@)),
            ],
        ),
    }
}

/// The logging section a new instance config gets.
pub fn default_logging_value(service: ServiceId) -> (r: Json)
    ensures
        r@ == spec_default_logging(service),
{
    let mut e: Vec<(String, Json)> = Vec::new();
    proof {
        assert(entry_views(e@) =~= Seq::<(Seq<char>, JsonV)>::empty());
    }
    push_entry(&mut e, "enabled", Json::Bool(true));
    push_entry(&mut e, "file_enabled", Json::Bool(true));
    push_entry(&mut e, "stderr_enabled", Json::Bool(true));
    push_entry(&mut e, "request_log_enabled", Json::Bool(true));
    match service {
        ServiceId::LanceDb => {
            push_entry(&mut e, "slow_request_log_enabled", Json::Bool(true));
            push_entry(&mut e, "slow_request_threshold_ms", Json::Int(1000));
            push_entry(&mut e, "include_request_details_in_slow_log", Json::Bool(true));
            push_entry(&mut e, "request_preview_chars", Json::Int(160));
            push_entry(&mut e, "log_dir", Json::Str(String::new()));
            push_entry(&mut e, "log_file_name", Json::Str(String::from_str("vldb-lancedb.log")));
            proof {
                reveal_strlit("");
            }
            assert(entry_views(e@) =~= spec_default_logging(service)->Object_0);
        },
        ServiceId::DuckDb => {
            push_entry(&mut e, "slow_query_log_enabled", Json::Bool(true));
            push_entry(&mut e, "slow_query_threshold_ms", Json::Int(1000));
            push_entry(&mut e, "slow_query_full_sql_enabled", Json::Bool(true));
            push_entry(&mut e, "sql_preview_chars", Json::Int(160));
            push_entry(&mut e, "log_dir", Json::Str(String::new()));
            push_entry(&mut e, "log_file_name", Json::Str(String::from_str("vldb-duckdb.log")));
            proof {
                reveal_strlit("");
            }
            assert(entry_views(e@) =~= spec_default_logging(service)->Object_0);
        },
    }
    Json::Object(e)
}

/// The config written for an instance: its address, data path, service
/// name and logging section (the one it had, or the default), and for
/// DuckDB a memory limit of `2GB` and 4 threads.
pub open spec fn spec_instance_config(
    service: ServiceId,
    bind_host: Seq<char>,
    port: u16,
    data_path: Seq<char>,
    service_name: Seq<char>,
    logging: JsonV,
) -> JsonV {
    let base = seq![
        ("host"@, JsonV::Str(bind_host)),
        ("port"@, JsonV::Int(port as int)),
        ("db_path"@, JsonV::Str(data_path)),
        ("service_name"@, JsonV::Str(service_name)),
        ("logging"@, logging),
    ];
    match service {
        ServiceId::LanceDb => JsonV::Object(base),
        ServiceId::DuckDb => JsonV::Object(
            base + seq![("memory_limit"@, JsonV::Str("2GB"@)), ("threads"@, JsonV::Int(4))],
        ),
    }
}

/// The logging section kept from an earlier config, or the default one.
pub open spec fn opt_logging_view(existing: Option<Json>, service: ServiceId) -> JsonV {
    match existing {
        Some(l) => l@,
        None => spec_default_logging(service),
    }
}

/// The config an instance request writes; `existing_logging` is the logging
/// section of the config the instance had, if any.
pub fn instance_config_value(request: &InstanceRequest, existing_logging: Option<Json>) -> (r: Json)
    ensures
        r@ == spec_instance_config(
            request.service,
            request.bind_host@,
            request.port,
            request.data_path@,
            request.service_name@,
            opt_logging_view(existing_logging, request.service),
        ),
{
    let ghost logging_view = opt_logging_view(existing_logging, request.service);
    let logging = match existing_logging {
        Some(l) => l,
        None => default_logging_value(request.service),
    };
    let mut e: Vec<(String, Json)> = Vec::new();
    proof {
        assert(entry_views(e@) =~= Seq::<(Seq<char>, JsonV)>::empty());
    }
    push_entry(&mut e, "host", Json::Str(request.bind_host.clone()));
    push_entry(&mut e, "port", Json::Int(request.port as i64));
    push_entry(&mut e, "db_path", Json::Str(request.data_path.clone()));
    push_entry(&mut e, "service_name", Json::Str(request.service_name.clone()));
    push_entry(&mut e, "logging", logging);
    if request.service == ServiceId::DuckDb {
        push_entry(&mut e, "memory_limit", Json::Str(String::from_str("2GB")));
        push_entry(&mut e, "threads", Json::Int(4));
    }
    let ghost want = spec_instance_config(
        request.service,
        request.bind_host@,
        request.port,
        request.data_path@,
        request.service_name@,
        logging_view,
    );
    assert(entry_views(e@) =~= want->Object_0);
    Json::Object(e)
}

pub open spec fn spec_global_home(home: Seq<char>) -> Seq<char> {
    join_path(join_path(home, ".vulcan"@), "vldb"@)
}

/// Where the manager keeps its files: its home under `~/.vulcan/vldb`, and
/// the directories of the installation at `install_dir`.
pub fn manager_layout(home: &str, install_dir: &str) -> (r: ManagerPaths)
    ensures
        r.global_home@ == spec_global_home(home@),
        r.global_config_path@ == join_path(spec_global_home(home@), "config.json"@),
        r.run_dir@ == join_path(spec_global_home(home@), "run"@),
        r.logs_dir@ == join_path(spec_global_home(home@), "logs"@),
        r.install_dir@ == install_dir@,
        r.bin_dir@ == join_path(install_dir@, "bin"@),
        r.config_dir@ == join_path(install_dir@, "config"@),
        r.examples_dir@ == join_path(join_path(install_dir@, "share"@), "examples"@),
        r.tools_dir@ == join_path(install_dir@, "tools"@),
{
    let vulcan = join_path_exec(home, ".vulcan");
    let global_home = join_path_exec(&vulcan, "vldb");
    let global_config_path = join_path_exec(&global_home, "config.json");
    let run_dir = join_path_exec(&global_home, "run");
    let logs_dir = join_path_exec(&global_home, "logs");
    let share = join_path_exec(install_dir, "share");
    ManagerPaths {
        global_config_path,
        run_dir,
        logs_dir,
        install_dir: String::from_str(install_dir),
        bin_dir: join_path_exec(install_dir, "bin"),
        config_dir: join_path_exec(install_dir, "config"),
        examples_dir: join_path_exec(&share, "examples"),
        tools_dir: join_path_exec(install_dir, "tools"),
        global_home,
    }
}

/// A stored location where it is set, else `fallback`.
pub fn configured_or(stored: &str, fallback: &str) -> (r: String)
    ensures
        !crate::text::all_ws(stored@) ==> r@ == stored@,
        crate::text::all_ws(stored@) ==> r@ == fallback@,
{
    if crate::text::is_blank(stored) {
        String::from_str(fallback)
    } else {
        String::from_str(stored)
    }
}

/// The default data directory of an instance: its name under the service's
/// data root, and for DuckDB the file `duckdb.db` in it.
pub fn default_instance_data_path(lancedb_root: &str, duckdb_root: &str, service: ServiceId, instance_name: &str) -> (r: String)
    ensures
        service is LanceDb ==> r@ == join_path(lancedb_root@, instance_name@),
        service is DuckDb ==> r@ == join_path(join_path(duckdb_root@, instance_name@), "duckdb.db"@),
{
    match service {
        ServiceId::LanceDb => join_path_exec(lancedb_root, instance_name),
        ServiceId::DuckDb => {
            let dir = join_path_exec(duckdb_root, instance_name);
            join_path_exec(&dir, "duckdb.db")
        },
    }
}

pub open spec fn home_message() -> Seq<char> {
    "failed to resolve user home directory"@
}

/// The systemd unit file of a registered service: a system unit for root,
/// a user unit under the home directory otherwise.
pub fn systemd_unit_path(service_name: &str, root: bool, home: Option<&str>) -> (r: Result<String, String>)
    ensures
        root ==> (r matches Ok(p) && p@ == "/etc/systemd/system/"@ + service_name@ + ".service"@),
        !root && home is None ==> (r matches Err(e) && e@ == home_message()),
        !root && home is Some ==> (r matches Ok(p) && p@ == join_path(
            join_path(join_path(join_path(home->Some_0@, ".config"@), "systemd"@), "user"@),
            service_name@ + ".service"@,
        )),
{
    if root {
        return Ok(concat3("/etc/systemd/system/", service_name, ".service"));
    }
    match home {
        None => Err(String::from_str("failed to resolve user home directory")),
        Some(h) => {
            let a = join_path_exec(h, ".config");
            let b = join_path_exec(&a, "systemd");
            let c = join_path_exec(&b, "user");
            let name = concat2(service_name, ".service");
            Ok(join_path_exec(&c, &name))
        },
    }
}

/// The launchd property list of a registered service: a daemon for root on
/// macOS, an agent under the home directory (or `.`) otherwise.
pub fn launchd_plist_path(service_name: &str, macos_root: bool, home: Option<&str>) -> (r: String)
    ensures
        macos_root ==> r@ == "/Library/LaunchDaemons/"@ + service_name@ + ".plist"@,
        !macos_root ==> r@ == join_path(
            join_path(
                join_path(
                    match home {
                        Some(h) => h@,
                        None => "."@,
                    },
                    "Library"@,
                ),
                "LaunchAgents"@,
            ),
            service_name@ + ".plist"@,
        ),
{
    if macos_root {
        return concat3("/Library/LaunchDaemons/", service_name, ".plist");
    }
    let base = match home {
        Some(h) => String::from_str(h),
        None => String::from_str("."),
    };
    let a = join_path_exec(&base, "Library");
    let b = join_path_exec(&a, "LaunchAgents");
    let name = concat2(service_name, ".plist");
    join_path_exec(&b, &name)
}

/// Where the `vldb` command is installed: in the installation's `bin` on
/// Windows, in `/usr/local/bin` for root, else in `~/.local/bin`.
pub fn global_launcher_path(install_dir: &str, windows: bool, root: bool, home: Option<&str>) -> (r: String)
    ensures
        windows ==> r@ == join_path(join_path(install_dir@, "bin"@), "vldb"@),
        !windows && root ==> r@ == "/usr/local/bin/vldb"@,
        !windows && !root ==> r@ == join_path(
            join_path(
                join_path(
                    match home {
                        Some(h) => h@,
                        None => "."@,
                    },
                    ".local"@,
                ),
                "bin"@,
            ),
            "vldb"@,
        ),
{
    if windows {
        let bin = join_path_exec(install_dir, "bin");
        return join_path_exec(&bin, "vldb");
    }
    if root {
        return String::from_str("/usr/local/bin/vldb");
    }
    let base = match home {
        Some(h) => String::from_str(h),
        None => String::from_str("."),
    };
    let a = join_path_exec(&base, ".local");
    let b = join_path_exec(&a, "bin");
    join_path_exec(&b, "vldb")
}

/// The message after switching the language to `language`.
pub fn language_switched_message(language: &str) -> (r: String)
    ensures
        has_prefix(language@, "zh"@) ==> r@ == "语言已切换到 "@ + language@,
        !has_prefix(language@, "zh"@) ==> r@ == "Language switched to "@ + language@,
{
    if uses_chinese(language) {
        concat2("语言已切换到 ", language)
    } else {
        concat2("Language switched to ", language)
    }
}


/// The settings of an instance's config file that the manager reads.
#[derive(Debug, Clone)]
pub struct InstanceFields {
    pub host: String,
    pub port: u16,
    pub db_path: String,
    pub service_name: Option<String>,
}

/// A field that may be left out: missing or `null` is nothing, otherwise
/// it must hold a value that `ok` accepts.
pub open spec fn optional_ok(v: Option<JsonV>, ok: spec_fn(JsonV) -> bool) -> bool {
    match v {
        None => true,
        Some(JsonV::Null) => true,
        Some(x) => ok(x),
    }
}

/// The config file holds what an instance needs: an object with a text
/// `host`, a `port` from 0 to 65535 and a text `db_path`, and, where given,
/// a text `service_name` and `memory_limit` and a whole `threads` count.
pub open spec fn instance_config_ok(c: JsonV) -> bool {
    &&& c is Object
    &&& crate::json::spec_get(c, "host"@) matches Some(h) && crate::json::spec_as_str(h) is Some
    &&& crate::json::spec_get(c, "port"@) matches Some(p) && (crate::json::spec_as_u64(p) matches Some(n) && n <= 65535)
    &&& crate::json::spec_get(c, "db_path"@) matches Some(d) && crate::json::spec_as_str(d) is Some
    &&& optional_ok(crate::json::spec_get(c, "service_name"@), |x: JsonV| crate::json::spec_as_str(x) is Some)
    &&& optional_ok(crate::json::spec_get(c, "memory_limit"@), |x: JsonV| crate::json::spec_as_str(x) is Some)
    &&& optional_ok(
        crate::json::spec_get(c, "threads"@),
        |x: JsonV| (crate::json::spec_as_u64(x) matches Some(n) && n <= usize::MAX),
    )
}

/// `f` holds the fields a config gives: its host, port and database path,
/// and its service name where it names one.
pub open spec fn fields_read(config: JsonV, f: InstanceFields) -> bool {
    &&& crate::json::spec_get(config, "host"@) == Some(JsonV::Str(f.host@))
    &&& crate::json::spec_get(config, "port"@) matches Some(p) && crate::json::spec_as_u64(p) == Some(
        f.port as nat,
    )
    &&& crate::json::spec_get(config, "db_path"@) == Some(JsonV::Str(f.db_path@))
    &&& match f.service_name {
        Some(n) => crate::json::spec_get(config, "service_name"@) == Some(JsonV::Str(n@)),
        None => optional_ok(crate::json::spec_get(config, "service_name"@), |x: JsonV| false),
    }
}

/// Reads what the manager needs from an instance's parsed config file;
/// `None` for a config that does not hold it.
pub fn instance_fields(config: &Json) -> (r: Option<InstanceFields>)
    ensures
        r is Some <==> instance_config_ok(config@),
        r matches Some(f) ==> fields_read(config@, f),
{
    match config {
        Json::Object(_) => {},
        _ => return None,
    }
    let host = match config.get("host") {
        Some(h) => match h.as_str() {
            Some(t) => t.clone(),
            None => return None,
        },
        None => return None,
    };
    let port: u16 = match config.get("port") {
        Some(p) => match p.as_u64() {
            Some(n) => if n <= 65535 {
                n as u16
            } else {
                return None;
            },
            None => return None,
        },
        None => return None,
    };
    let db_path = match config.get("db_path") {
        Some(d) => match d.as_str() {
            Some(t) => t.clone(),
            None => return None,
        },
        None => return None,
    };
    let service_name = match config.get("service_name") {
        None => None,
        Some(v) => if v.is_null() {
            None
        } else {
            match v.as_str() {
                Some(t) => Some(t.clone()),
                None => return None,
            }
        },
    };
    match config.get("memory_limit") {
        None => {},
        Some(v) => if !v.is_null() && v.as_str().is_none() {
            return None;
        },
    }
    match config.get("threads") {
        None => {},
        Some(v) => if !v.is_null() {
            match v.as_u64() {
                Some(n) => if n > usize::MAX as u64 {
                    return None;
                },
                None => return None,
            }
        },
    }
    Some(InstanceFields { host, port, db_path, service_name })
}

/// Takes the value of the last entry named `key` out of an object's entries.
fn take_entry(input: Vec<(String, Json)>, key: &str) -> (r: Option<Json>)
    ensures
        match crate::json::entry_lookup(entry_views(input@), key@) {
            Some(v) => r matches Some(j) && j@ == v,
            None => r is None,
        },
{
    let ghost original = entry_views(input@);
    let mut entries = input;
    while entries.len() > 0
        invariant
            original == entry_views(input@),
            crate::json::entry_lookup(entry_views(entries@), key@) == crate::json::entry_lookup(original, key@),
        decreases entries.len(),
    {
        let ghost before = entries@;
        let (k, v) = entries.pop().unwrap();
        proof {
            assert(before.subrange(0, before.len() - 1) =~= entries@);
            assert(entry_views(before) == entry_views(entries@).push((k@, v@)));
            assert(entry_views(before).drop_last() =~= entry_views(entries@));
        }
        if crate::text::eq_str(&chars_of(&k), key) {
            assert(entry_views(before).last() == (k@, v@));
            assert(crate::json::entry_lookup(entry_views(before), key@) == Some(v@));
            return Some(v);
        }
    }
    None
}

/// The logging section of an instance's config, kept when the config is
/// written again: its `logging` entry, or `null` where it has none.
pub fn logging_value(config: Json) -> (r: Json)
    ensures
        r@ == match crate::json::spec_get(config@, "logging"@) {
            Some(v) => v,
            None => JsonV::Null,
        },
{
    match config {
        Json::Object(entries) => match take_entry(entries, "logging") {
            Some(v) => v,
            None => Json::Null,
        },
        _ => Json::Null,
    }
}

/// An instance's config file from its text read at `path`: the config
/// parsed as JSON, when it holds what the manager needs, with its fields;
/// otherwise the message that names the file.
pub fn instance_config_from_text(path: &str, text: &str) -> (r: Result<(Json, InstanceFields), String>)
    ensures
        match crate::json::json_parse(text@) {
            Ok(j) => if instance_config_ok(j) {
                r matches Ok((c, f)) && c@ == j && fields_read(j, f)
            } else {
                r matches Err(m) && m@ == "failed to parse "@ + path@
            },
            Err(_) => r matches Err(m) && m@ == "failed to parse "@ + path@,
        },
{
    match crate::json::parse_json_text(text) {
        Ok(config) => match instance_fields(&config) {
            Some(fields) => Ok((config, fields)),
            None => Err(concat2("failed to parse ", path)),
        },
        Err(_) => Err(concat2("failed to parse ", path)),
    }
}


/// A config file written for an instance reads back as what was asked for:
/// it holds everything the manager reads, with the requested address, port,
/// data path and service name, whatever logging section it keeps.
pub proof fn lemma_config_reads_back(
    service: ServiceId,
    bind_host: Seq<char>,
    port: u16,
    data_path: Seq<char>,
    service_name: Seq<char>,
    logging: JsonV,
)
    ensures
        ({
            let c = spec_instance_config(service, bind_host, port, data_path, service_name, logging);
            &&& instance_config_ok(c)
            &&& crate::json::spec_get(c, "host"@) == Some(JsonV::Str(bind_host))
            &&& crate::json::spec_get(c, "port"@) == Some(JsonV::Int(port as int))
            &&& crate::json::spec_get(c, "db_path"@) == Some(JsonV::Str(data_path))
            &&& crate::json::spec_get(c, "service_name"@) == Some(JsonV::Str(service_name))
        }),
{
    reveal_strlit("host");
    reveal_strlit("port");
    reveal_strlit("db_path");
    reveal_strlit("service_name");
    reveal_strlit("logging");
    reveal_strlit("memory_limit");
    reveal_strlit("threads");
    let keys = seq!["host"@, "port"@, "db_path"@, "service_name"@, "logging"@, "memory_limit"@, "threads"@];
    assert forall|i: int, j: int| 0 <= i < j < 7 implies keys[i] != keys[j] by {
        if keys[i].len() == keys[j].len() {
            assert(keys[i][0] != keys[j][0]);
        }
    }
    let e0 = seq![("host"@, JsonV::Str(bind_host))];
    let e1 = e0.push(("port"@, JsonV::Int(port as int)));
    let e2 = e1.push(("db_path"@, JsonV::Str(data_path)));
    let e3 = e2.push(("service_name"@, JsonV::Str(service_name)));
    let e4 = e3.push(("logging"@, logging));
    let e5 = e4.push(("memory_limit"@, JsonV::Str("2GB"@)));
    let e6 = e5.push(("threads"@, JsonV::Int(4)));
    assert(e0.drop_last() =~= Seq::<(Seq<char>, JsonV)>::empty());
    assert(e1.drop_last() =~= e0);
    assert(e2.drop_last() =~= e1);
    assert(e3.drop_last() =~= e2);
    assert(e4.drop_last() =~= e3);
    assert(e5.drop_last() =~= e4);
    assert(e6.drop_last() =~= e5);
    assert(e4 =~= e3.push(e4.last()));
    lemma_lookups(e0, e1, e2, e3, e4, keys, bind_host, port, data_path, service_name);
    lemma_lookup_skips(e4, keys[0], e5.last());
    lemma_lookup_skips(e4, keys[1], e5.last());
    lemma_lookup_skips(e4, keys[2], e5.last());
    lemma_lookup_skips(e4, keys[3], e5.last());
    lemma_lookup_skips(e5, keys[0], e6.last());
    lemma_lookup_skips(e5, keys[1], e6.last());
    lemma_lookup_skips(e5, keys[2], e6.last());
    lemma_lookup_skips(e5, keys[3], e6.last());
    assert(e6.last().0 == keys[6]);
    assert(crate::json::entry_lookup(e6, keys[6]) == Some(JsonV::Int(4)));
    assert(crate::json::entry_lookup(e5, keys[5]) == Some(JsonV::Str("2GB"@)));
    assert(crate::json::entry_lookup(e6, keys[5]) == Some(JsonV::Str("2GB"@)));
    let base = seq![
        ("host"@, JsonV::Str(bind_host)),
        ("port"@, JsonV::Int(port as int)),
        ("db_path"@, JsonV::Str(data_path)),
        ("service_name"@, JsonV::Str(service_name)),
        ("logging"@, logging),
    ];
    assert(base =~= e4);
    assert(base + seq![("memory_limit"@, JsonV::Str("2GB"@)), ("threads"@, JsonV::Int(4))] =~= e6);
    assert(e0 =~= seq![e0.last()]);
    assert(e1 =~= e0.push(e1.last()));
    assert(e2 =~= e1.push(e2.last()));
    assert(e3 =~= e2.push(e3.last()));
    lemma_absent(e0, e1, e2, e3, e4, keys, 5);
    lemma_absent(e0, e1, e2, e3, e4, keys, 6);
}

/// Looking a key up past a last entry for another key.
proof fn lemma_lookup_skips(entries: Seq<(Seq<char>, JsonV)>, key: Seq<char>, last: (Seq<char>, JsonV))
    requires
        last.0 != key,
    ensures
        crate::json::entry_lookup(entries.push(last), key) == crate::json::entry_lookup(entries, key),
{
    crate::json::lemma_lookup_after_append(entries, last.0, last.1, key);
}

proof fn lemma_lookups(
    e0: Seq<(Seq<char>, JsonV)>,
    e1: Seq<(Seq<char>, JsonV)>,
    e2: Seq<(Seq<char>, JsonV)>,
    e3: Seq<(Seq<char>, JsonV)>,
    e4: Seq<(Seq<char>, JsonV)>,
    keys: Seq<Seq<char>>,
    bind_host: Seq<char>,
    port: u16,
    data_path: Seq<char>,
    service_name: Seq<char>,
)
    requires
        keys.len() == 7,
        forall|i: int, j: int| 0 <= i < j < 7 ==> keys[i] != keys[j],
        e0 == seq![(keys[0], JsonV::Str(bind_host))],
        e1 == e0.push((keys[1], JsonV::Int(port as int))),
        e2 == e1.push((keys[2], JsonV::Str(data_path))),
        e3 == e2.push((keys[3], JsonV::Str(service_name))),
        e4 == e3.push(e4.last()),
        e4.last().0 == keys[4],
    ensures
        crate::json::entry_lookup(e4, keys[0]) == Some(JsonV::Str(bind_host)),
        crate::json::entry_lookup(e4, keys[1]) == Some(JsonV::Int(port as int)),
        crate::json::entry_lookup(e4, keys[2]) == Some(JsonV::Str(data_path)),
        crate::json::entry_lookup(e4, keys[3]) == Some(JsonV::Str(service_name)),
{
    assert(keys[1] != keys[0]);
    assert(keys[2] != keys[0] && keys[2] != keys[1]);
    assert(keys[3] != keys[0] && keys[3] != keys[1] && keys[3] != keys[2]);
    assert(keys[4] != keys[0] && keys[4] != keys[1] && keys[4] != keys[2] && keys[4] != keys[3]);
    assert(crate::json::entry_lookup(e0, keys[0]) == Some(JsonV::Str(bind_host)));
    lemma_lookup_skips(e0, keys[0], (keys[1], JsonV::Int(port as int)));
    assert(crate::json::entry_lookup(e1, keys[1]) == Some(JsonV::Int(port as int)));
    lemma_lookup_skips(e1, keys[0], (keys[2], JsonV::Str(data_path)));
    lemma_lookup_skips(e1, keys[1], (keys[2], JsonV::Str(data_path)));
    assert(crate::json::entry_lookup(e2, keys[2]) == Some(JsonV::Str(data_path)));
    lemma_lookup_skips(e2, keys[0], (keys[3], JsonV::Str(service_name)));
    lemma_lookup_skips(e2, keys[1], (keys[3], JsonV::Str(service_name)));
    lemma_lookup_skips(e2, keys[2], (keys[3], JsonV::Str(service_name)));
    assert(crate::json::entry_lookup(e3, keys[3]) == Some(JsonV::Str(service_name)));
    lemma_lookup_skips(e3, keys[0], e4.last());
    lemma_lookup_skips(e3, keys[1], e4.last());
    lemma_lookup_skips(e3, keys[2], e4.last());
    lemma_lookup_skips(e3, keys[3], e4.last());
}

/// A key that none of the first five entries has is not found in them.
proof fn lemma_absent(
    e0: Seq<(Seq<char>, JsonV)>,
    e1: Seq<(Seq<char>, JsonV)>,
    e2: Seq<(Seq<char>, JsonV)>,
    e3: Seq<(Seq<char>, JsonV)>,
    e4: Seq<(Seq<char>, JsonV)>,
    keys: Seq<Seq<char>>,
    k: int,
)
    requires
        keys.len() == 7,
        5 <= k < 7,
        forall|i: int, j: int| 0 <= i < j < 7 ==> keys[i] != keys[j],
        e0 == seq![e0.last()],
        e0.last().0 == keys[0],
        e1 == e0.push(e1.last()),
        e1.last().0 == keys[1],
        e2 == e1.push(e2.last()),
        e2.last().0 == keys[2],
        e3 == e2.push(e3.last()),
        e3.last().0 == keys[3],
        e4 == e3.push(e4.last()),
        e4.last().0 == keys[4],
    ensures
        crate::json::entry_lookup(e4, keys[k]) is None,
{
    assert(keys[0] != keys[k] && keys[1] != keys[k] && keys[2] != keys[k] && keys[3] != keys[k] && keys[4] != keys[k]);
    let empty = Seq::<(Seq<char>, JsonV)>::empty();
    assert(crate::json::entry_lookup(empty, keys[k]) is None);
    assert(e0 =~= empty.push(e0.last()));
    lemma_lookup_skips(empty, keys[k], e0.last());
    lemma_lookup_skips(e0, keys[k], e1.last());
    lemma_lookup_skips(e1, keys[k], e2.last());
    lemma_lookup_skips(e2, keys[k], e3.last());
    lemma_lookup_skips(e3, keys[k], e4.last());
}
} // verus!
