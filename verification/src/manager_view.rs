//! What the manager's screens show: the text of each panel, row by row,
//! in the manager's language. Drawing it is left to the terminal front end.
use vstd::prelude::*;
use crate::manager_form::{spec_sanitize, sanitize_display_text, ActivePage};
use crate::manager_install::{pick, pick_text, InstalledInstance, UpdateCheck};
use crate::manager_service::{
    profile_label, service_label, spec_binary_path, spec_directory, spec_exit_code, BuildProfile,
    BuildRecord, ExitRecord, ServiceConfigSummary, ServiceId, ServiceSpec, ServiceStatus,
};
use crate::paths::join_path;
use crate::text::{concat2, concat3, dec, push_all, render_u128};

verus! {

/// The kind of a workspace service.
pub fn service_title(service: ServiceId, zh: bool) -> (r: &'static str)
    ensures
        service is LanceDb ==> r@ == pick(zh, "向量网关"@, "Vector Gateway"@),
        service is DuckDb ==> r@ == pick(zh, "SQL 网关"@, "SQL Gateway"@),
{
    match service {
        ServiceId::LanceDb => pick_text(zh, "向量网关", "Vector Gateway"),
        ServiceId::DuckDb => pick_text(zh, "SQL 网关", "SQL Gateway"),
    }
}

/// What a workspace service is for.
pub fn service_description(service: ServiceId, zh: bool) -> (r: &'static str)
    ensures
        service is LanceDb ==> r@ == pick(
            zh,
            "管理本地 LanceDB 向量表与语义检索。"@,
            "Manage local LanceDB vector tables and semantic search."@,
        ),
        service is DuckDb ==> r@ == pick(
            zh,
            "管理本地 DuckDB 分析查询与参数化 SQL 访问。"@,
            "Manage local DuckDB analytics and parameterized SQL access."@,
        ),
{
    match service {
        ServiceId::LanceDb => pick_text(
            zh,
            "管理本地 LanceDB 向量表与语义检索。",
            "Manage local LanceDB vector tables and semantic search.",
        ),
        ServiceId::DuckDb => pick_text(
            zh,
            "管理本地 DuckDB 分析查询与参数化 SQL 访问。",
            "Manage local DuckDB analytics and parameterized SQL access.",
        ),
    }
}

pub open spec fn spec_status_label(status: ServiceStatus, zh: bool) -> Seq<char> {
    match status {
        ServiceStatus::Building => pick(zh, "构建中"@, "BUILDING"@),
        ServiceStatus::Starting => pick(zh, "启动中"@, "STARTING"@),
        ServiceStatus::Running => pick(zh, "运行中"@, "RUNNING"@),
        ServiceStatus::External => pick(zh, "外部进程"@, "EXTERNAL"@),
        ServiceStatus::Failed => pick(zh, "失败"@, "FAILED"@),
        ServiceStatus::Stopped => pick(zh, "已停止"@, "STOPPED"@),
    }
}

/// The label of a workspace service's state.
pub fn workspace_status_label(status: ServiceStatus, zh: bool) -> (r: &'static str)
    ensures
        r@ == spec_status_label(status, zh),
{
    match status {
        ServiceStatus::Building => pick_text(zh, "构建中", "BUILDING"),
        ServiceStatus::Starting => pick_text(zh, "启动中", "STARTING"),
        ServiceStatus::Running => pick_text(zh, "运行中", "RUNNING"),
        ServiceStatus::External => pick_text(zh, "外部进程", "EXTERNAL"),
        ServiceStatus::Failed => pick_text(zh, "失败", "FAILED"),
        ServiceStatus::Stopped => pick_text(zh, "已停止", "STOPPED"),
    }
}

pub open spec fn spec_yes_no(value: bool, zh: bool) -> Seq<char> {
    if value {
        pick(zh, "是"@, "yes"@)
    } else {
        pick(zh, "否"@, "no"@)
    }
}

/// Yes or no.
pub fn yes_no(value: bool, zh: bool) -> (r: &'static str)
    ensures
        r@ == spec_yes_no(value, zh),
{
    if value {
        pick_text(zh, "是", "yes")
    } else {
        pick_text(zh, "否", "no")
    }
}

/// The value of a form field as shown: a service by its engine and package.
pub open spec fn spec_display_value(value: Seq<char>) -> Seq<char> {
    if value == "vldb-lancedb"@ {
        "LanceDB (vldb-lancedb)"@
    } else if value == "vldb-duckdb"@ {
        "DuckDB (vldb-duckdb)"@
    } else {
        value
    }
}

/// The value of a form field as shown.
pub fn display_field_value(value: &str, zh: bool) -> (r: String)
    ensures
        r@ == spec_display_value(value@),
{
    proof {
        reveal_strlit("vldb-lancedb");
        reveal_strlit("vldb-duckdb");
        assert("vldb-lancedb"@.len() != "vldb-duckdb"@.len());
    }
    let chars = crate::text::chars_of(value);
    if crate::text::eq_str(&chars, "vldb-lancedb") {
        String::from_str(pick_text(zh, "LanceDB (vldb-lancedb)", "LanceDB (vldb-lancedb)"))
    } else if crate::text::eq_str(&chars, "vldb-duckdb") {
        String::from_str(pick_text(zh, "DuckDB (vldb-duckdb)", "DuckDB (vldb-duckdb)"))
    } else {
        String::from_str(value)
    }
}

/// A process the session started, as its summary shows it.
#[derive(Debug, Clone)]
pub struct ProcessView {
    pub pid: u32,
    pub uptime: String,
    pub started_label: String,
    pub profile: BuildProfile,
}

/// A labelled row of a panel.
#[derive(Debug, Clone)]
pub struct Row {
    pub label: String,
    pub value: String,
}

fn row(label: &str, value: String) -> (r: Row)
    ensures
        r.label@ == label@,
        r.value@ == value@,
{
    Row { label: String::from_str(label), value }
}

pub open spec fn spec_process_line(p: Option<ProcessView>, zh: bool) -> Seq<char> {
    match p {
        Some(p) => "PID "@ + dec(p.pid as nat) + "   "@ + pick(zh, "运行时长"@, "Uptime"@) + " "@ + p.uptime@
            + "   "@ + pick(zh, "启动于"@, "Started"@) + " "@ + p.started_label@ + "   "@ + pick(
            zh,
            "配置"@,
            "Profile"@,
        ) + " "@ + profile_label(p.profile),
        None => pick(zh, "当前会话没有接管该进程"@, "Not managed by the current session"@),
    }
}

pub open spec fn spec_build_line(
    last: Option<BuildRecord>,
    build_running: bool,
    profile: BuildProfile,
    spinner: Seq<char>,
    zh: bool,
) -> Seq<char> {
    match last {
        Some(b) => profile_label(b.profile) + " "@ + pick(zh, "构建"@, "build"@) + " "@ + (if b.success {
            pick(zh, "成功"@, "ok"@)
        } else {
            pick(zh, "失败"@, "failed"@)
        }) + " "@ + b.finished_at@ + " (exit "@ + spec_exit_code(b.exit_code) + ")"@,
        None => if build_running {
            profile_label(profile) + " "@ + pick(zh, "构建中"@, "build in progress"@) + " "@ + spinner
        } else {
            pick(zh, "本次会话还没有执行 build"@, "No build in this session"@)
        },
    }
}

pub open spec fn spec_exit_line(last: Option<ExitRecord>, zh: bool) -> Seq<char> {
    match last {
        Some(e) => pick(zh, "上次退出码"@, "Last exit"@) + " "@ + spec_exit_code(e.exit_code) + " "@ + pick(
            zh,
            "时间"@,
            "at"@,
        ) + " "@ + e.finished_at@,
        None => pick(zh, "上次退出: 无"@, "Last exit: n/a"@),
    }
}

fn process_line(p: Option<&ProcessView>, zh: bool) -> (r: String)
    ensures
        r@ == spec_process_line(match p {
            Some(v) => Some(*v),
            None => None,
        }, zh),
{
    match p {
        Some(p) => {
            let mut s = concat2("PID ", &render_u128(p.pid as u128));
            push_all(&mut s, "   ");
            push_all(&mut s, pick_text(zh, "运行时长", "Uptime"));
            push_all(&mut s, " ");
            push_all(&mut s, &p.uptime);
            push_all(&mut s, "   ");
            push_all(&mut s, pick_text(zh, "启动于", "Started"));
            push_all(&mut s, " ");
            push_all(&mut s, &p.started_label);
            push_all(&mut s, "   ");
            push_all(&mut s, pick_text(zh, "配置", "Profile"));
            push_all(&mut s, " ");
            push_all(&mut s, p.profile.label());
            s
        },
        None => String::from_str(pick_text(zh, "当前会话没有接管该进程", "Not managed by the current session")),
    }
}

fn build_line(last: Option<&BuildRecord>, build_running: bool, profile: BuildProfile, spinner: &str, zh: bool) -> (r: String)
    ensures
        r@ == spec_build_line(match last {
            Some(v) => Some(*v),
            None => None,
        }, build_running, profile, spinner@, zh),
{
    match last {
        Some(b) => {
            let mut s = concat3(b.profile.label(), " ", pick_text(zh, "构建", "build"));
            push_all(&mut s, " ");
            push_all(&mut s, if b.success { pick_text(zh, "成功", "ok") } else { pick_text(zh, "失败", "failed") });
            push_all(&mut s, " ");
            push_all(&mut s, &b.finished_at);
            push_all(&mut s, " (exit ");
            push_all(&mut s, &crate::manager_service::format_exit_code(b.exit_code));
            push_all(&mut s, ")");
            s
        },
        None => if build_running {
            let mut s = concat3(profile.label(), " ", pick_text(zh, "构建中", "build in progress"));
            push_all(&mut s, " ");
            push_all(&mut s, spinner);
            s
        } else {
            String::from_str(pick_text(zh, "本次会话还没有执行 build", "No build in this session"))
        },
    }
}

fn exit_line(last: Option<&ExitRecord>, zh: bool) -> (r: String)
    ensures
        r@ == spec_exit_line(match last {
            Some(v) => Some(*v),
            None => None,
        }, zh),
{
    match last {
        Some(e) => {
            let mut s = concat3(pick_text(zh, "上次退出码", "Last exit"), " ", &crate::manager_service::format_exit_code(e.exit_code));
            push_all(&mut s, " ");
            push_all(&mut s, pick_text(zh, "时间", "at"));
            push_all(&mut s, " ");
            push_all(&mut s, &e.finished_at);
            s
        },
        None => String::from_str(pick_text(zh, "上次退出: 无", "Last exit: n/a")),
    }
}

/// The name of a config source in the manager's language.
pub open spec fn spec_source_label(label: Seq<char>, zh: bool) -> Seq<char> {
    if label == "workspace"@ {
        pick(zh, "工作区"@, "workspace"@)
    } else if label == "example"@ {
        pick(zh, "示例"@, "example"@)
    } else {
        label
    }
}

/// The rows of a workspace service's detail panel: where its manifest,
/// program, config, data and log are, where it listens, and how its process,
/// build and last exit stand.
pub fn service_summary_rows(
    spec: ServiceSpec,
    workspace_root: &str,
    profile: BuildProfile,
    windows: bool,
    config: Option<&ServiceConfigSummary>,
    last_probe_ok: bool,
    last_build: Option<&BuildRecord>,
    build_running: bool,
    spinner: &str,
    process: Option<&ProcessView>,
    last_exit: Option<&ExitRecord>,
    zh: bool,
) -> (r: Vec<Row>)
    ensures
        r@.len() == 9,
        r@[0].label@ == "Manifest"@ && r@[0].value@ == spec_sanitize(
            join_path(spec_directory(spec, workspace_root@), "Cargo.toml"@),
        ),
        r@[1].label@ == "Binary"@ && r@[1].value@ == spec_sanitize(
            spec_binary_path(spec, workspace_root@, profile, windows),
        ),
        r@[2].label@ == "Config"@ && r@[2].value@ == match config {
            Some(c) => spec_sanitize(c.source_path@) + " ("@ + spec_source_label(c.source_label@, zh) + ")"@,
            None => pick(zh, "无配置"@, "No config available"@),
        },
        r@[3].label@ == "Data"@ && r@[3].value@ == match config {
            Some(c) => c.db_path@,
            None => spec.default_db_path@,
        },
        r@[4].label@ == "Listen"@ && r@[4].value@ == match config {
            Some(c) => c.host@ + ":"@ + dec(c.port as nat) + " ("@ + (if last_probe_ok {
                pick(zh, "可达"@, "reachable"@)
            } else {
                pick(zh, "离线"@, "offline"@)
            }) + ")"@,
            None => spec.default_host@ + ":"@ + dec(spec.default_port as nat),
        },
        r@[5].label@ == "Log"@ && r@[5].value@ == match config {
            Some(c) => spec_sanitize(c.log_path@) + " [dir "@ + spec_sanitize(c.log_dir@) + " | file "@
                + c.log_file_name@ + "]"@,
            None => pick(zh, "未知"@, "unknown"@),
        },
        r@[6].label@ == "Runtime"@ && r@[6].value@ == spec_process_line(match process {
            Some(v) => Some(*v),
            None => None,
        }, zh),
        r@[7].label@ == "Build"@ && r@[7].value@ == spec_build_line(match last_build {
            Some(v) => Some(*v),
            None => None,
        }, build_running, profile, spinner@, zh),
        r@[8].label@ == "Lifecycle"@ && r@[8].value@ == spec_exit_line(match last_exit {
            Some(v) => Some(*v),
            None => None,
        }, zh),
{
    let mut rows: Vec<Row> = Vec::new();
    rows.push(row("Manifest", sanitize_display_text(&spec.manifest_path(workspace_root))));
    rows.push(row("Binary", sanitize_display_text(&spec.binary_path(workspace_root, profile, windows))));
    let config_text = match config {
        Some(c) => {
            let mut s = sanitize_display_text(&c.source_path);
            push_all(&mut s, " (");
            push_all(&mut s, &crate::manager_session::localized_source_label(c.source_label, zh));
            push_all(&mut s, ")");
            s
        },
        None => String::from_str(pick_text(zh, "无配置", "No config available")),
    };
    rows.push(row("Config", config_text));
    let data = match config {
        Some(c) => c.db_path.clone(),
        None => String::from_str(spec.default_db_path),
    };
    rows.push(row("Data", data));
    let listen = match config {
        Some(c) => {
            let mut s = concat3(&c.host, ":", &render_u128(c.port as u128));
            push_all(&mut s, " (");
            push_all(&mut s, if last_probe_ok { pick_text(zh, "可达", "reachable") } else { pick_text(zh, "离线", "offline") });
            push_all(&mut s, ")");
            s
        },
        None => concat3(spec.default_host, ":", &render_u128(spec.default_port as u128)),
    };
    rows.push(row("Listen", listen));
    let log = match config {
        Some(c) => {
            let mut s = sanitize_display_text(&c.log_path);
            push_all(&mut s, " [dir ");
            push_all(&mut s, &sanitize_display_text(&c.log_dir));
            push_all(&mut s, " | file ");
            push_all(&mut s, &c.log_file_name);
            push_all(&mut s, "]");
            s
        },
        None => String::from_str(pick_text(zh, "未知", "unknown")),
    };
    rows.push(row("Log", log));
    rows.push(row("Runtime", process_line(process, zh)));
    rows.push(row("Build", build_line(last_build, build_running, profile, spinner, zh)));
    rows.push(row("Lifecycle", exit_line(last_exit, zh)));
    rows
}

/// An entry of the list of installed instances.
#[derive(Debug, Clone)]
pub struct InstanceListItem {
    pub title: String,
    pub state: String,
    pub address: String,
    pub service_name: String,
}

pub open spec fn spec_instance_state(running: bool, zh: bool) -> Seq<char> {
    if running {
        pick(zh, "运行中"@, "RUNNING"@)
    } else {
        pick(zh, "已停止"@, "STOPPED"@)
    }
}

pub open spec fn spec_registration(registered: bool, zh: bool) -> Seq<char> {
    if registered {
        pick(zh, "已注册"@, "REGISTERED"@)
    } else {
        pick(zh, "未注册"@, "UNREGISTERED"@)
    }
}

/// The entries of the instance list: `service / instance` with its state,
/// and `host:port` with its registration and service name.
pub fn instance_list_items(instances: &Vec<InstalledInstance>, zh: bool) -> (r: Vec<InstanceListItem>)
    ensures
        r@.len() == instances@.len(),
        forall|i: int|
            0 <= i < r@.len() ==> {
                let inst = instances@[i];
                let item = #[trigger] r@[i];
                &&& item.title@ == service_label(inst.service) + " / "@ + inst.instance_name@
                &&& item.state@ == spec_instance_state(inst.running, zh)
                &&& item.address@ == inst.host@ + ":"@ + dec(inst.port as nat) + "   "@ + spec_registration(
                    inst.registered,
                    zh,
                )
                &&& item.service_name@ == inst.service_name@
            },
{
    let mut out: Vec<InstanceListItem> = Vec::new();
    let mut i: usize = 0;
    while i < instances.len()
        invariant
            0 <= i <= instances.len(),
            out@.len() == i,
            forall|k: int|
                0 <= k < i ==> {
                    let inst = instances@[k];
                    let item = #[trigger] out@[k];
                    &&& item.title@ == service_label(inst.service) + " / "@ + inst.instance_name@
                    &&& item.state@ == spec_instance_state(inst.running, zh)
                    &&& item.address@ == inst.host@ + ":"@ + dec(inst.port as nat) + "   "@
                        + spec_registration(inst.registered, zh)
                    &&& item.service_name@ == inst.service_name@
                },
        decreases instances.len() - i,
    {
        let inst = &instances[i];
        let title = inst.display_name();
        let state = String::from_str(
            if inst.running { pick_text(zh, "运行中", "RUNNING") } else { pick_text(zh, "已停止", "STOPPED") },
        );
        let mut address = concat3(&inst.host, ":", &render_u128(inst.port as u128));
        push_all(&mut address, "   ");
        push_all(
            &mut address,
            if inst.registered { pick_text(zh, "已注册", "REGISTERED") } else { pick_text(zh, "未注册", "UNREGISTERED") },
        );
        out.push(InstanceListItem { title, state, address, service_name: inst.service_name.clone() });
        i += 1;
    }
    out
}

/// The rows of the manager's state panel; the last ones tell what the last
/// update check found, or how to run one.
pub fn manager_summary_rows(
    initialized: bool,
    language: &str,
    manager_version: &str,
    install_dir: &str,
    lancedb_root: &str,
    duckdb_root: &str,
    update: Option<&UpdateCheck>,
    zh: bool,
) -> (r: Vec<Row>)
    ensures
        r@.len() == (if update is Some { 9int } else { 7int }),
        r@[0].label@ == pick(zh, "初始化"@, "Initialized"@) && r@[0].value@ == spec_yes_no(initialized, zh),
        r@[1].label@ == pick(zh, "语言"@, "Language"@) && r@[1].value@ == language@,
        r@[2].label@ == pick(zh, "管理器"@, "Manager"@) && r@[2].value@ == manager_version@,
        r@[3].label@ == pick(zh, "安装目录"@, "Install Dir"@) && r@[3].value@ == spec_sanitize(install_dir@),
        r@[4].label@ == pick(zh, "LanceDB 根"@, "LanceDB Root"@) && r@[4].value@ == spec_sanitize(lancedb_root@),
        r@[5].label@ == pick(zh, "DuckDB 根"@, "DuckDB Root"@) && r@[5].value@ == spec_sanitize(duckdb_root@),
        update is None ==> r@[6].label@ == pick(zh, "更新状态"@, "Update Status"@) && r@[6].value@ == pick(
            zh,
            "按 `c` 检查更新"@,
            "Press `c` to check updates"@,
        ),
        update matches Some(u) ==> r@[6].label@ == pick(zh, "最新 release"@, "Latest Release"@)
            && r@[6].value@ == match u.latest_release_tag {
            Some(t) => t@,
            None => pick(zh, "未知"@, "unknown"@),
        } && r@[7].label@ == pick(zh, "二进制更新"@, "Binary Update"@) && r@[7].value@ == (if u.binary_update_available {
            pick(zh, "可更新"@, "available"@)
        } else {
            pick(zh, "已最新"@, "up to date"@)
        }) && r@[8].label@ == pick(zh, "管理器更新"@, "Manager Update"@) && r@[8].value@ == (
        if u.manager_update_available {
            pick(zh, "可更新"@, "available"@)
        } else {
            pick(zh, "已最新"@, "up to date"@)
        }),
{
    let mut rows: Vec<Row> = Vec::new();
    rows.push(row(pick_text(zh, "初始化", "Initialized"), String::from_str(yes_no(initialized, zh))));
    rows.push(row(pick_text(zh, "语言", "Language"), String::from_str(language)));
    rows.push(row(pick_text(zh, "管理器", "Manager"), String::from_str(manager_version)));
    rows.push(row(pick_text(zh, "安装目录", "Install Dir"), sanitize_display_text(install_dir)));
    rows.push(row(pick_text(zh, "LanceDB 根", "LanceDB Root"), sanitize_display_text(lancedb_root)));
    rows.push(row(pick_text(zh, "DuckDB 根", "DuckDB Root"), sanitize_display_text(duckdb_root)));
    match update {
        Some(u) => {
            let latest = match &u.latest_release_tag {
                Some(t) => t.clone(),
                None => String::from_str(pick_text(zh, "未知", "unknown")),
            };
            rows.push(row(pick_text(zh, "最新 release", "Latest Release"), latest));
            rows.push(
                row(
                    pick_text(zh, "二进制更新", "Binary Update"),
                    String::from_str(
                        if u.binary_update_available { pick_text(zh, "可更新", "available") } else { pick_text(zh, "已最新", "up to date") },
                    ),
                ),
            );
            rows.push(
                row(
                    pick_text(zh, "管理器更新", "Manager Update"),
                    String::from_str(
                        if u.manager_update_available { pick_text(zh, "可更新", "available") } else { pick_text(zh, "已最新", "up to date") },
                    ),
                ),
            );
        },
        None => {
            rows.push(
                row(
                    pick_text(zh, "更新状态", "Update Status"),
                    String::from_str(pick_text(zh, "按 `c` 检查更新", "Press `c` to check updates")),
                ),
            );
        },
    }
    rows
}

/// The rows of the selected instance's panel.
pub fn selected_instance_rows(inst: &InstalledInstance, zh: bool) -> (r: Vec<Row>)
    ensures
        r@.len() == 8,
        r@[0].value@ == service_label(inst.service),
        r@[1].value@ == inst.instance_name@,
        r@[2].value@ == inst.host@ + ":"@ + dec(inst.port as nat),
        r@[3].value@ == spec_sanitize(inst.db_path@),
        r@[4].value@ == inst.service_name@,
        r@[5].value@ == spec_yes_no(inst.registered, zh),
        r@[6].value@ == spec_yes_no(inst.running, zh),
        r@[7].value@ == spec_sanitize(inst.config_path@),
{
    let mut rows: Vec<Row> = Vec::new();
    rows.push(row(pick_text(zh, "服务", "Service"), String::from_str(inst.service.label())));
    rows.push(row(pick_text(zh, "实例名", "Instance"), inst.instance_name.clone()));
    rows.push(row(pick_text(zh, "监听地址", "Listen"), concat3(&inst.host, ":", &render_u128(inst.port as u128))));
    rows.push(row(pick_text(zh, "数据路径", "Data Path"), sanitize_display_text(&inst.db_path)));
    rows.push(row(pick_text(zh, "服务名", "Service Name"), inst.service_name.clone()));
    rows.push(row(pick_text(zh, "注册状态", "Registered"), String::from_str(yes_no(inst.registered, zh))));
    rows.push(row(pick_text(zh, "运行状态", "Running"), String::from_str(yes_no(inst.running, zh))));
    rows.push(row(pick_text(zh, "配置文件", "Config"), sanitize_display_text(&inst.config_path)));
    rows
}

/// The shortcut lines under a page.
pub open spec fn spec_footer(page: ActivePage, zh: bool) -> Seq<Seq<char>> {
    match page {
        ActivePage::Installed => seq![
            pick(zh, "导航: Tab/左右切页  上下选择实例"@, "Navigation: Tab/Left/Right switch page  Up/Down select instance"@),
            pick(zh, "实例: `i` 首装  `n` 新增  `e` 修改  `d` 卸载"@, "Instances: `i` init  `n` install  `e` edit  `d` uninstall"@),
            pick(zh, "运行: `s` 启动  `x` 停止  `a` 全部启动  `z` 全部停止"@, "Runtime: `s` start  `x` stop  `a` start all  `z` stop all"@),
            pick(zh, "维护: `c` 检查更新  `u` 更新二进制  `t` 切换语言  `m` 刷新入口"@, "Maintenance: `c` check updates  `u` update binaries  `t` switch lang  `m` refresh launcher"@),
            pick(zh, "清理: `r` 移除入口  `w` 卸载全部  `q` 退出"@, "Cleanup: `r` remove launcher  `w` uninstall all  `q` quit"@),
        ],
        ActivePage::Workspace => seq![
            pick(zh, "导航: Tab/左右切页  上下选择服务"@, "Navigation: Tab/Left/Right switch page  Up/Down select service"@),
            pick(zh, "工作区: `g` 配置  `b` 构建  `s` 启动  `x` 停止  `r` 重启"@, "Workspace: `g` config  `b` build  `s` start  `x` stop  `r` restart"@),
            pick(zh, "批量: `p` debug/release  `a` 全部启动  `z` 全部停止  `q` 退出"@, "Batch: `p` debug/release  `a` start all  `z` stop all  `q` quit"@),
            pick(zh, "说明: 这里只控制仓库内工作区进程，不影响已安装系统实例。"@, "Note: This page only manages workspace-local processes, not installed system instances."@),
        ],
        ActivePage::Output => seq![
            pick(zh, "导航: Tab/左右切页"@, "Navigation: Tab/Left/Right switch page"@),
            pick(zh, "操作: `q` 退出"@, "Action: `q` quit"@),
        ],
    }
}

/// Static texts by their views.
pub open spec fn str_views(v: Seq<&'static str>) -> Seq<Seq<char>> {
    Seq::new(v.len(), |i: int| v[i]@)
}

/// The shortcut lines under a page.
pub fn footer_lines(page: ActivePage, zh: bool) -> (r: Vec<&'static str>)
    ensures
        str_views(r@) == spec_footer(page, zh),
{
    let mut lines: Vec<&'static str> = Vec::new();
    match page {
        ActivePage::Installed => {
            lines.push(pick_text(zh, "导航: Tab/左右切页  上下选择实例", "Navigation: Tab/Left/Right switch page  Up/Down select instance"));
            lines.push(pick_text(zh, "实例: `i` 首装  `n` 新增  `e` 修改  `d` 卸载", "Instances: `i` init  `n` install  `e` edit  `d` uninstall"));
            lines.push(pick_text(zh, "运行: `s` 启动  `x` 停止  `a` 全部启动  `z` 全部停止", "Runtime: `s` start  `x` stop  `a` start all  `z` stop all"));
            lines.push(pick_text(zh, "维护: `c` 检查更新  `u` 更新二进制  `t` 切换语言  `m` 刷新入口", "Maintenance: `c` check updates  `u` update binaries  `t` switch lang  `m` refresh launcher"));
            lines.push(pick_text(zh, "清理: `r` 移除入口  `w` 卸载全部  `q` 退出", "Cleanup: `r` remove launcher  `w` uninstall all  `q` quit"));
        },
        ActivePage::Workspace => {
            lines.push(pick_text(zh, "导航: Tab/左右切页  上下选择服务", "Navigation: Tab/Left/Right switch page  Up/Down select service"));
            lines.push(pick_text(zh, "工作区: `g` 配置  `b` 构建  `s` 启动  `x` 停止  `r` 重启", "Workspace: `g` config  `b` build  `s` start  `x` stop  `r` restart"));
            lines.push(pick_text(zh, "批量: `p` debug/release  `a` 全部启动  `z` 全部停止  `q` 退出", "Batch: `p` debug/release  `a` start all  `z` stop all  `q` quit"));
            lines.push(pick_text(zh, "说明: 这里只控制仓库内工作区进程，不影响已安装系统实例。", "Note: This page only manages workspace-local processes, not installed system instances."));
        },
        ActivePage::Output => {
            lines.push(pick_text(zh, "导航: Tab/左右切页", "Navigation: Tab/Left/Right switch page"));
            lines.push(pick_text(zh, "操作: `q` 退出", "Action: `q` quit"));
        },
    }
    assert(str_views(lines@) =~= spec_footer(page, zh));
    lines
}

/// `s` padded on the left with spaces to at least `width` characters
/// (`{:>width}`).
pub open spec fn pad_left(s: Seq<char>, width: nat) -> Seq<char> {
    if s.len() >= width {
        s
    } else {
        Seq::new((width - s.len()) as nat, |i: int| ' ') + s
    }
}

/// Pads a text on the left to `width` characters.
pub fn pad_left_exec(s: &str, width: usize) -> (r: String)
    ensures
        r@ == pad_left(s@, width as nat),
{
    let n = crate::text::chars_of(s).len();
    let mut r = String::new();
    let mut k: usize = n;
    while k < width
        invariant
            n <= k,
            k <= width || k == n,
            n == s@.len(),
            r@ == Seq::new((k - n) as nat, |i: int| ' '),
        decreases width - k,
    {
        crate::text::push_char(&mut r, ' ');
        assert(r@ =~= Seq::new((k + 1 - n) as nat, |i: int| ' '));
        k += 1;
    }
    push_all(&mut r, s);
    proof {
        if n >= width {
            assert(r@ =~= s@);
        } else {
            assert(k == width);
        }
    }
    r
}

/// A field row of a form: the cursor mark, the label right-aligned in 14
/// columns, and the value (with arrows on a choice).
pub open spec fn spec_field_line(field: crate::manager_form::FormField, selected: bool, zh: bool) -> Seq<char> {
    (if selected {
        "> "@
    } else {
        "  "@
    }) + pad_left(crate::manager_session::spec_field_label(field.key, zh), 14) + ": "@ + spec_display_value(field.value@) + (
    if field.kind is Choice {
        "  ◀ ▶"@
    } else {
        Seq::empty()
    })
}

/// The text of a form dialog, line by line: for a change of an instance
/// the target first, then one line per field, then the hint.
pub open spec fn spec_form_lines(form: crate::manager_form::FormState, zh: bool) -> Seq<Seq<char>> {
    let head: Seq<Seq<char>> = match form.mode {
        crate::manager_form::FormMode::Configure(inst) => seq![
            "target: "@ + service_label(inst.service) + " / "@ + inst.instance_name@,
            Seq::<char>::empty(),
        ],
        _ => Seq::empty(),
    };
    head + Seq::new(
        form.fields@.len(),
        |i: int| spec_field_line(form.fields@[i], i == form.selected_index, zh),
    ) + seq![Seq::<char>::empty(), crate::manager_session::spec_form_hint(form.mode, zh)]
}

/// The text of a form dialog.
pub fn form_lines(form: &crate::manager_form::FormState, zh: bool) -> (r: Vec<String>)
    ensures
        crate::manager_session::texts(r@) == spec_form_lines(*form, zh),
{
    let mut lines: Vec<String> = Vec::new();
    match &form.mode {
        crate::manager_form::FormMode::Configure(inst) => {
            let mut t = concat2("target: ", inst.service.label());
            push_all(&mut t, " / ");
            push_all(&mut t, &inst.instance_name);
            lines.push(t);
            lines.push(String::new());
        },
        _ => {},
    }
    let ghost head = crate::manager_session::texts(lines@);
    assert(head =~= match form.mode {
        crate::manager_form::FormMode::Configure(inst) => seq![
            "target: "@ + service_label(inst.service) + " / "@ + inst.instance_name@,
            Seq::<char>::empty(),
        ],
        _ => Seq::<Seq<char>>::empty(),
    });
    let mut i: usize = 0;
    while i < form.fields.len()
        invariant
            0 <= i <= form.fields.len(),
            crate::manager_session::texts(lines@) =~= head + Seq::new(
                i as nat,
                |k: int| spec_field_line(form.fields@[k], k == form.selected_index, zh),
            ),
        decreases form.fields.len() - i,
    {
        let field = &form.fields[i];
        let mut line = String::from_str(if i == form.selected_index { "> " } else { "  " });
        let label = crate::manager_session::field_label(field.key, zh);
        push_all(&mut line, &pad_left_exec(label, 14));
        push_all(&mut line, ": ");
        push_all(&mut line, &display_field_value(&field.value, zh));
        match &field.kind {
            crate::manager_form::FieldKind::Choice(_) => push_all(&mut line, "  ◀ ▶"),
            _ => {},
        }
        assert(line@ =~= spec_field_line(form.fields@[i as int], i == form.selected_index, zh));
        let ghost before = lines@;
        lines.push(line);
        assert(crate::manager_session::texts(lines@) =~= crate::manager_session::texts(before).push(
            line@,
        ));
        i += 1;
    }
    let ghost body = crate::manager_session::texts(lines@);
    lines.push(String::new());
    lines.push(String::from_str(crate::manager_session::form_hint(&form.mode, zh)));
    assert(crate::manager_session::texts(lines@) =~= body + seq![
        Seq::<char>::empty(),
        crate::manager_session::spec_form_hint(form.mode, zh),
    ]);
    lines
}

/// The line under a question.
pub fn confirm_hint(zh: bool) -> (r: &'static str)
    ensures
        r@ == pick(zh, "按 Enter / y 确认，Esc / n 取消。"@, "Press Enter / y to confirm, Esc / n to cancel."@),
{
    pick_text(zh, "按 Enter / y 确认，Esc / n 取消。", "Press Enter / y to confirm, Esc / n to cancel.")
}

/// What the output page shows before anything was captured.
pub fn no_output_message(zh: bool) -> (r: &'static str)
    ensures
        r@ == pick(zh, "当前还没有输出。"@, "No output captured yet."@),
{
    pick_text(zh, "当前还没有输出。", "No output captured yet.")
}

pub open spec fn spec_header_title(zh: bool, language: Seq<char>, release: Option<Seq<char>>) -> Seq<char> {
    "  "@ + pick(zh, "跨平台控制台"@, "Cross-platform control plane"@) + " | "@ + pick(zh, "语言"@, "lang"@) + " "@
        + language + " | release "@ + match release {
        Some(t) => t,
        None => pick(zh, "未安装"@, "not installed"@),
    }
}

pub open spec fn spec_header_places(zh: bool, workspace: Seq<char>, install_dir: Seq<char>, session: Seq<char>) -> Seq<char> {
    pick(zh, "工作区"@, "workspace"@) + " "@ + spec_sanitize(workspace) + "   "@ + pick(zh, "安装目录"@, "install"@)
        + " "@ + spec_sanitize(install_dir) + "   "@ + pick(zh, "会话"@, "session"@) + " "@ + session
}

/// The two lines of the overview under the manager's name: what it is, its
/// language and the installed release; then the workspace, the installation
/// directory and when the session began.
pub fn header_lines(zh: bool, language: &str, release: Option<&str>, workspace: &str, install_dir: &str, session: &str) -> (r: (String, String))
    ensures
        r.0@ == spec_header_title(
            zh,
            language@,
            match release {
                Some(t) => Some(t@),
                None => None,
            },
        ),
        r.1@ == spec_header_places(zh, workspace@, install_dir@, session@),
{
    let mut title = concat2("  ", pick_text(zh, "跨平台控制台", "Cross-platform control plane"));
    push_all(&mut title, " | ");
    push_all(&mut title, pick_text(zh, "语言", "lang"));
    push_all(&mut title, " ");
    push_all(&mut title, language);
    push_all(&mut title, " | release ");
    match release {
        Some(t) => push_all(&mut title, t),
        None => push_all(&mut title, pick_text(zh, "未安装", "not installed")),
    }
    let mut places = concat2(pick_text(zh, "工作区", "workspace"), " ");
    push_all(&mut places, &sanitize_display_text(workspace));
    push_all(&mut places, "   ");
    push_all(&mut places, pick_text(zh, "安装目录", "install"));
    push_all(&mut places, " ");
    push_all(&mut places, &sanitize_display_text(install_dir));
    push_all(&mut places, "   ");
    push_all(&mut places, pick_text(zh, "会话", "session"));
    push_all(&mut places, " ");
    push_all(&mut places, session);
    (title, places)
}

/// The two lines of a workspace service in the list: its folder and state,
/// then its kind and port (the configured one, or the default).
pub fn service_list_item(spec: &ServiceSpec, status: ServiceStatus, configured_port: Option<u16>, zh: bool) -> (r: (String, String))
    ensures
        r.0@ == spec.folder_name@ + "  "@ + spec_status_label(status, zh),
        r.1@ == (if spec.id is LanceDb {
            pick(zh, "向量网关"@, "Vector Gateway"@)
        } else {
            pick(zh, "SQL 网关"@, "SQL Gateway"@)
        }) + "  :"@ + dec(
            match configured_port {
                Some(p) => p as nat,
                None => spec.default_port as nat,
            },
        ),
{
    let first = concat3(spec.folder_name, "  ", workspace_status_label(status, zh));
    let port = match configured_port {
        Some(p) => p,
        None => spec.default_port,
    };
    let mut second = concat2(service_title(spec.id, zh), "  :");
    push_all(&mut second, &render_u128(port as u128));
    (first, second)
}

/// The size of a form dialog in a terminal of the given size: a row per
/// field and six more (eight when changing an instance), at most the
/// terminal's height; 84 columns, at most four less than its width.
pub fn form_popup_size(field_count: usize, configure: bool, area_width: u16, area_height: u16) -> (r: (u16, u16))
    ensures
        ({
            let rows = (field_count as u16) as int + if configure { 8int } else { 6int };
            let height = if rows > u16::MAX { u16::MAX as int } else { rows };
            r.1 == if height < area_height { height } else { area_height as int }
        }),
        r.0 == if 84 < area_width - 4 { 84 } else if area_width >= 4 { area_width - 4 } else { 0 },
{
    let extra: u16 = if configure { 8 } else { 6 };
    #[verifier::truncate]
    let fields = field_count as u16;
    let height = fields.saturating_add(extra);
    let height = if height < area_height { height } else { area_height };
    let avail = area_width.saturating_sub(4);
    let width = if 84 < avail { 84 } else { avail };
    (width, height)
}

/// The width of a question dialog: 72 columns, at most four less than the
/// terminal's width.
pub fn confirm_popup_width(area_width: u16) -> (r: u16)
    ensures
        r == if 72 < area_width - 4 { 72 } else if area_width >= 4 { area_width - 4 } else { 0 },
{
    let avail = area_width.saturating_sub(4);
    if 72 < avail { 72 } else { avail }
}

/// The space left above and to the left of a dialog of the given size that
/// is centred in the given area: half of what the dialog leaves free.
pub fn popup_margins(area_width: u16, area_height: u16, width: u16, height: u16) -> (r: (u16, u16))
    ensures
        r.0 == (if area_width >= width { (area_width - width) / 2 } else { 0 }),
        r.1 == (if area_height >= height { (area_height - height) / 2 } else { 0 }),
{
    (area_width.saturating_sub(width) / 2, area_height.saturating_sub(height) / 2)
}


/// The frames of the spinner shown while a build runs.
pub open spec fn spinner_frames() -> Seq<Seq<char>> {
    seq!["⠁"@, "⠂"@, "⠄"@, "⠂"@, "⠁"@, "⠈"@, "⠐"@, "⠠"@]
}

/// The spinner frame for a tick count, cycling through the eight frames.
pub fn spinner_frame(tick: usize) -> (r: &'static str)
    ensures
        r@ == spinner_frames()[(tick % 8) as int],
{
    let k = tick % 8;
    if k == 0 {
        "⠁"
    } else if k == 1 {
        "⠂"
    } else if k == 2 {
        "⠄"
    } else if k == 3 {
        "⠂"
    } else if k == 4 {
        "⠁"
    } else if k == 5 {
        "⠈"
    } else if k == 6 {
        "⠐"
    } else {
        "⠠"
    }
}


/// A panel of the manager's screens.
#[derive(Debug, Clone, Copy, PartialEq, Eq)]
pub enum Panel {
    Overview,
    Pages,
    Instances,
    ManagerState,
    SelectedInstance,
    InstanceConfig,
    WorkspaceServices,
    WorkspaceDetail,
    WorkspaceConfig,
    Output,
    Shortcuts,
}

pub open spec fn spec_panel_title(panel: Panel, zh: bool) -> Seq<char> {
    match panel {
        Panel::Overview => pick(zh, "概览"@, "Overview"@),
        Panel::Pages => pick(zh, "页面"@, "Pages"@),
        Panel::Instances => pick(zh, "实例列表"@, "Instances"@),
        Panel::ManagerState => pick(zh, "管理状态"@, "Manager State"@),
        Panel::SelectedInstance => pick(zh, "选中实例"@, "Selected Instance"@),
        Panel::InstanceConfig => pick(zh, "实例配置预览"@, "Instance Config"@),
        Panel::WorkspaceServices => pick(zh, "工作区服务"@, "Workspace Services"@),
        Panel::WorkspaceDetail => pick(zh, "工作区详情"@, "Workspace Detail"@),
        Panel::WorkspaceConfig => pick(zh, "工作区配置预览"@, "Workspace Config"@),
        Panel::Output => pick(zh, "输出日志"@, "Output"@),
        Panel::Shortcuts => pick(zh, "快捷键"@, "Shortcuts"@),
    }
}

/// The title of a panel.
pub fn panel_title(panel: Panel, zh: bool) -> (r: &'static str)
    ensures
        r@ == spec_panel_title(panel, zh),
{
    match panel {
        Panel::Overview => pick_text(zh, "概览", "Overview"),
        Panel::Pages => pick_text(zh, "页面", "Pages"),
        Panel::Instances => pick_text(zh, "实例列表", "Instances"),
        Panel::ManagerState => pick_text(zh, "管理状态", "Manager State"),
        Panel::SelectedInstance => pick_text(zh, "选中实例", "Selected Instance"),
        Panel::InstanceConfig => pick_text(zh, "实例配置预览", "Instance Config"),
        Panel::WorkspaceServices => pick_text(zh, "工作区服务", "Workspace Services"),
        Panel::WorkspaceDetail => pick_text(zh, "工作区详情", "Workspace Detail"),
        Panel::WorkspaceConfig => pick_text(zh, "工作区配置预览", "Workspace Config"),
        Panel::Output => pick_text(zh, "输出日志", "Output"),
        Panel::Shortcuts => pick_text(zh, "快捷键", "Shortcuts"),
    }
}

/// What the list of instances shows while there is none: that there is
/// none, and how to add one.
pub fn no_instances_lines(zh: bool) -> (r: (&'static str, &'static str))
    ensures
        r.0@ == pick(zh, "当前还没有已安装实例。"@, "No installed instances yet."@),
        r.1@ == pick(zh, "按 `i` 执行首次安装，或按 `n` 直接新增实例。"@, "Press `i` to initialize, or `n` to add one instance."@),
{
    (
        pick_text(zh, "当前还没有已安装实例。", "No installed instances yet."),
        pick_text(zh, "按 `i` 执行首次安装，或按 `n` 直接新增实例。", "Press `i` to initialize, or `n` to add one instance."),
    )
}

/// What the selected-instance panel shows with no instance selected.
pub fn no_selection_message(zh: bool) -> (r: &'static str)
    ensures
        r@ == pick(zh, "未选中实例。"@, "No instance selected."@),
{
    pick_text(zh, "未选中实例。", "No instance selected.")
}

/// The label of the last error met: on the workspace page (`workspace`) or
/// on the page of installed instances.
pub fn warning_label(workspace: bool, zh: bool) -> (r: &'static str)
    ensures
        workspace ==> r@ == pick(zh, "注意"@, "Attention"@),
        !workspace ==> r@ == pick(zh, "注意"@, "Warning"@),
{
    if workspace {
        pick_text(zh, "注意", "Attention")
    } else {
        pick_text(zh, "注意", "Warning")
    }
}

} // verus!
