//! What the manager's session decides between its outside work: which
//! entry of a list is selected, what the history keeps, how a config is
//! previewed, and what starting, stopping or building a workspace service
//! may do in the state it is in.
use vstd::prelude::*;
use std::collections::VecDeque;
use crate::manager_form::{sanitize_display_text, spec_sanitize, ActivePage, FormFieldKey, FormMode};
use crate::manager_install::pick;
use crate::manager_service::{
    profile_label, scope_label, service_label, service_short_label, spec_exit_code, BuildProfile,
    BuildRecord, ExitRecord, LogScope, ServiceId,
};
use crate::manager_reports::{failed_action_line, spec_failed_action, FailedAction};
use crate::text::{chars_of, concat2, concat3, dec, push_all, push_char, split_on, string_from_chars};

verus! {

/// The entry after `index` in a list of `len`, the first after the last;
/// 0 in an empty list.
pub open spec fn spec_cycle_next(index: int, len: int) -> int {
    if len == 0 {
        0
    } else {
        (index + 1) % len
    }
}

/// The entry before `index` in a list of `len`, the last before the first;
/// 0 in an empty list.
pub open spec fn spec_cycle_previous(index: int, len: int) -> int {
    if len == 0 {
        0
    } else if index == 0 {
        len - 1
    } else {
        index - 1
    }
}

/// The selection after a step down a list.
pub fn cycle_next(index: usize, len: usize) -> (r: usize)
    requires
        index < usize::MAX,
    ensures
        r as int == spec_cycle_next(index as int, len as int),
{
    if len == 0 {
        0
    } else {
        (index + 1) % len
    }
}

/// The selection after a step up a list.
pub fn cycle_previous(index: usize, len: usize) -> (r: usize)
    ensures
        r as int == spec_cycle_previous(index as int, len as int),
{
    if len == 0 {
        0
    } else if index == 0 {
        len - 1
    } else {
        index - 1
    }
}

/// A step down and a step up (or up, then down) return to the entry that
/// was selected.
pub proof fn lemma_cycle_undo(index: int, len: int)
    requires
        0 <= index < len,
    ensures
        spec_cycle_previous(spec_cycle_next(index, len), len) == index,
        spec_cycle_next(spec_cycle_previous(index, len), len) == index,
{
    if index + 1 < len {
        vstd::arithmetic::div_mod::lemma_small_mod((index + 1) as nat, len as nat);
    } else {
        vstd::arithmetic::div_mod::lemma_mod_self_0(len);
    }
    if index == 0 {
        vstd::arithmetic::div_mod::lemma_mod_self_0(len);
    } else {
        vstd::arithmetic::div_mod::lemma_small_mod(index as nat, len as nat);
    }
}

/// The selection kept when a list shrinks to `len` entries: the last one
/// where it is past the end.
pub fn clamp_selection(index: usize, len: usize) -> (r: usize)
    ensures
        index < len ==> r == index,
        index >= len ==> r as int == if len == 0 {
            0
        } else {
            len - 1
        },
{
    if index >= len {
        if len == 0 {
            0
        } else {
            len - 1
        }
    } else {
        index
    }
}

/// How many lines the history keeps.
pub open spec fn max_history() -> nat {
    600
}

/// The last `n` entries of `s` (all of them where it has fewer).
pub open spec fn last_n<T>(s: Seq<T>, n: nat) -> Seq<T> {
    if s.len() <= n {
        s
    } else {
        s.subrange(s.len() - n, s.len() as int)
    }
}

/// Adds a line to the history, dropping the oldest beyond its limit.
pub fn push_history_line(history: &mut VecDeque<String>, line: String)
    ensures
        final(history)@ == last_n(old(history)@.push(line), max_history()),
{
    history.push_back(line);
    let total = history.len();
    let ghost full = history@;
    assert(full.len() == total);
    let mut dropped: usize = 0;
    while history.len() > 600
        invariant
            history@ == full.subrange(dropped as int, full.len() as int),
            dropped <= full.len(),
            history@.len() + dropped == full.len(),
            full.len() <= usize::MAX,
            full.len() > 600 ==> history@.len() >= 600,
            full.len() <= 600 ==> dropped == 0,
        decreases history.len(),
    {
        let _ = history.pop_front();
        dropped += 1;
        assert(history@ =~= full.subrange(dropped as int, full.len() as int));
    }
    proof {
        if full.len() <= 600 {
            assert(full.subrange(0, full.len() as int) =~= full);
        }
    }
    assert(history@ =~= last_n(full, max_history()));
}

/// The last `max_lines` lines of the history, oldest first.
pub fn history_lines(history: &VecDeque<String>, max_lines: usize) -> (r: Vec<String>)
    ensures
        r@.len() == last_n(history@, max_lines as nat).len(),
        forall|i: int| 0 <= i < r@.len() ==> r@[i]@ == (#[trigger] last_n(history@, max_lines as nat)[i])@,
{
    let start = if history.len() > max_lines {
        history.len() - max_lines
    } else {
        0
    };
    let mut out: Vec<String> = Vec::new();
    let mut i = start;
    while i < history.len()
        invariant
            start <= i <= history.len(),
            start == (if history@.len() > max_lines {
                history@.len() - max_lines
            } else {
                0
            }),
            out@.len() == i - start,
            forall|k: int| 0 <= k < out@.len() ==> out@[k]@ == (#[trigger] history@[start + k])@,
        decreases history.len() - i,
    {
        out.push(history[i].clone());
        i += 1;
    }
    assert(last_n(history@, max_lines as nat) =~= history@.subrange(start as int, history@.len() as int));
    assert forall|i: int| 0 <= i < out@.len() implies out@[i]@ == (#[trigger] last_n(history@, max_lines as nat)[i])@ by {
        assert(out@[i]@ == history@[start + i]@);
    }
    out
}

/// `s` padded with spaces to at least `width` characters (`{:<width}`).
pub open spec fn pad_right(s: Seq<char>, width: nat) -> Seq<char> {
    if s.len() >= width {
        s
    } else {
        s + Seq::new((width - s.len()) as nat, |i: int| ' ')
    }
}

/// A history line: the time, the source padded to 12 columns, the message.
pub open spec fn spec_history_line(time: Seq<char>, source: Seq<char>, message: Seq<char>) -> Seq<char> {
    "["@ + time + "] "@ + pad_right(source, 12) + " "@ + message
}

/// Formats a history line.
pub fn history_line(time: &str, source: &str, message: &str) -> (r: String)
    ensures
        r@ == spec_history_line(time@, source@, message@),
{
    let mut s = concat3("[", time, "] ");
    push_all(&mut s, source);
    let width = chars_of(source).len();
    let ghost before = s@;
    let mut k = width;
    while k < 12
        invariant
            width <= k <= 12 || (width > 12 && k == width),
            width == source@.len(),
            s@ == before + Seq::new((k - width) as nat, |i: int| ' '),
        decreases 12 - k,
    {
        push_char(&mut s, ' ');
        k += 1;
        assert(s@ =~= before + Seq::new((k - width) as nat, |i: int| ' '));
    }
    proof {
        if width >= 12 {
            assert(s@ =~= before);
        }
    }
    push_all(&mut s, " ");
    push_all(&mut s, message);
    assert(s@ =~= spec_history_line(time@, source@, message@));
    s
}

/// `str::lines`: the pieces between `\n`, each without one `\r` before its
/// `\n`, and no empty last piece after a final `\n`.
pub open spec fn spec_lines(s: Seq<char>) -> Seq<Seq<char>> {
    let pcs = split_on(s, '\n');
    let kept = if pcs.last().len() == 0 {
        pcs.drop_last()
    } else {
        pcs
    };
    Seq::new(
        kept.len(),
        |i: int|
            if i < pcs.len() - 1 && kept[i].len() > 0 && kept[i].last() == '\r' {
                kept[i].drop_last()
            } else {
                kept[i]
            },
    )
}

/// The lines of a text, each for display.
pub fn display_lines(raw: &str) -> (r: Vec<String>)
    ensures
        r@.len() == spec_lines(raw@).len(),
        forall|i: int| 0 <= i < r@.len() ==> (#[trigger] r@[i])@ == spec_sanitize(spec_lines(raw@)[i]),
{
    let chars = chars_of(raw);
    let pcs = crate::text::split_on_exec(&chars, '\n');
    proof {
        crate::text::lemma_split_on_nonempty(raw@, '\n');
    }
    let ghost pv = split_on(raw@, '\n');
    let count = if pcs[pcs.len() - 1].len() == 0 {
        pcs.len() - 1
    } else {
        pcs.len()
    };
    assert(crate::paths::views(pcs@)[pcs.len() - 1] == pcs@[pcs.len() - 1]@);
    let mut out: Vec<String> = Vec::new();
    let mut i: usize = 0;
    while i < count
        invariant
            0 <= i <= count,
            count <= pcs.len(),
            crate::paths::views(pcs@) == pv,
            pv == split_on(raw@, '\n'),
            count == spec_lines(raw@).len(),
            out@.len() == i,
            forall|k: int| 0 <= k < i ==> (#[trigger] out@[k])@ == spec_sanitize(spec_lines(raw@)[k]),
        decreases count - i,
    {
        let piece = &pcs[i];
        assert(piece@ == pv[i as int]);
        let strip = i + 1 < pcs.len() && piece.len() > 0 && piece[piece.len() - 1] == '\r';
        let text = if strip {
            crate::text::string_from_range(piece, 0, piece.len() - 1)
        } else {
            string_from_chars(piece)
        };
        assert(text@ == spec_lines(raw@)[i as int]);
        out.push(sanitize_display_text(&text));
        i += 1;
    }
    out
}

pub open spec fn empty_config_label(zh: bool) -> Seq<char> {
    pick(zh, "(空配置)"@, "(empty config)"@)
}

pub open spec fn truncated_label(zh: bool) -> Seq<char> {
    pick(zh, "... 预览已截断 ..."@, "... config preview truncated ..."@)
}

/// A config preview of at most `max_lines` lines where that leaves room:
/// the header, then the config's lines; a config too long for the rest is
/// cut and ends with a note, an empty one shows a note instead.
pub open spec fn spec_preview(header: Seq<Seq<char>>, lines: Seq<Seq<char>>, max_lines: nat, zh: bool) -> Seq<Seq<char>> {
    let budget: int = if max_lines >= header.len() {
        max_lines - header.len()
    } else {
        0
    };
    if lines.len() == 0 {
        header.push(empty_config_label(zh))
    } else if lines.len() <= budget {
        header + lines
    } else {
        header + lines.subrange(0, if budget >= 1 { budget - 1 } else { 0 }).push(truncated_label(zh))
    }
}

/// The texts of a list of strings.
pub open spec fn texts(v: Seq<String>) -> Seq<Seq<char>> {
    Seq::new(v.len(), |i: int| v[i]@)
}

/// Builds a config preview from its header lines and the config's text.
pub fn preview_lines(header: Vec<String>, raw: &str, max_lines: usize, zh: bool) -> (r: Vec<String>)
    ensures
        texts(r@) == spec_preview(
            texts(header@),
            Seq::new(spec_lines(raw@).len(), |i: int| spec_sanitize(spec_lines(raw@)[i])),
            max_lines as nat,
            zh,
        ),
{
    let lines = display_lines(raw);
    let ghost lv = Seq::new(spec_lines(raw@).len(), |i: int| spec_sanitize(spec_lines(raw@)[i]));
    assert(texts(lines@) =~= lv);
    let ghost hv = texts(header@);
    let mut out = header;
    let budget = if max_lines >= out.len() {
        max_lines - out.len()
    } else {
        0
    };
    if lines.len() == 0 {
        out.push(String::from_str(if zh { "(空配置)" } else { "(empty config)" }));
        assert(texts(out@) =~= hv.push(empty_config_label(zh)));
        return out;
    }
    let take = if lines.len() <= budget {
        lines.len()
    } else if budget >= 1 {
        budget - 1
    } else {
        0
    };
    let mut i: usize = 0;
    let ghost hlen = out@.len();
    assert(texts(out@) =~= hv + lv.subrange(0, 0));
    while i < take
        invariant
            0 <= i <= take <= lines.len(),
            texts(lines@) == lv,
            hv.len() == hlen,
            out@.len() == hlen + i,
            texts(out@) =~= hv + lv.subrange(0, i as int),
        decreases take - i,
    {
        let line = lines[i].clone();
        assert(line@ == lv[i as int]);
        let ghost before = out@;
        out.push(line);
        assert(texts(out@) =~= texts(before).push(lv[i as int]));
        assert(lv.subrange(0, i + 1) =~= lv.subrange(0, i as int).push(lv[i as int]));
        i += 1;
        assert(texts(out@) =~= hv + lv.subrange(0, i as int));
    }
    if lines.len() > budget {
        let ghost before = out@;
        out.push(String::from_str(if zh { "... 预览已截断 ..." } else { "... config preview truncated ..." }));
        assert(texts(out@) =~= texts(before).push(truncated_label(zh)));
        assert(texts(out@) =~= hv + lv.subrange(0, take as int).push(truncated_label(zh)));
    } else {
        assert(lv.subrange(0, lines.len() as int) =~= lv);
    }
    out
}

/// What a request to start, stop or build a workspace service comes to in
/// the state the service is in.
#[derive(Debug)]
pub enum WorkspaceStep {
    /// The request is refused with this message.
    Refuse(String),
    /// There is nothing to do; this note goes to the history.
    Note(String),
    /// The manager goes ahead.
    Proceed,
}

pub open spec fn still_building_message(folder: Seq<char>, zh: bool) -> Seq<char> {
    if zh {
        folder + " 仍在构建中"@
    } else {
        folder + " is still building"@
    }
}

pub open spec fn external_port_message(folder: Seq<char>, port: u16, zh: bool) -> Seq<char> {
    if zh {
        folder + " 已在端口 "@ + dec(port as nat) + " 上响应，可能由外部进程启动"@
    } else {
        folder + " already responds on port "@ + dec(port as nat) + ", likely from an external process"@
    }
}

/// Whether a workspace service may be started: not while it builds; a
/// service this session runs already is only noted; one whose port answers
/// runs outside the manager (`port` is its configured port, or the default).
pub fn start_step(folder: &str, build_running: bool, managed: bool, last_probe_ok: bool, port: u16, zh: bool) -> (r: WorkspaceStep)
    ensures
        build_running ==> (r matches WorkspaceStep::Refuse(m) && m@ == still_building_message(folder@, zh)),
        !build_running && managed ==> (r matches WorkspaceStep::Note(m) && m@ == pick(
            zh,
            "该服务已由当前会话接管。"@,
            "This service is already managed by the current session."@,
        )),
        !build_running && !managed && last_probe_ok ==> (r matches WorkspaceStep::Refuse(m) && m@
            == external_port_message(folder@, port, zh)),
        !build_running && !managed && !last_probe_ok ==> r is Proceed,
{
    if build_running {
        return WorkspaceStep::Refuse(
            concat2(folder, if zh { " 仍在构建中" } else { " is still building" }),
        );
    }
    if managed {
        return WorkspaceStep::Note(
            String::from_str(
                crate::manager_install::pick_text(
                    zh,
                    "该服务已由当前会话接管。",
                    "This service is already managed by the current session.",
                ),
            ),
        );
    }
    if last_probe_ok {
        let port_text = crate::text::render_u128(port as u128);
        let mut m = concat3(folder, if zh { " 已在端口 " } else { " already responds on port " }, &port_text);
        push_all(&mut m, if zh { " 上响应，可能由外部进程启动" } else { ", likely from an external process" });
        return WorkspaceStep::Refuse(m);
    }
    WorkspaceStep::Proceed
}

pub open spec fn external_stop_message(folder: Seq<char>, zh: bool) -> Seq<char> {
    if zh {
        folder + " 由外部进程运行，管理器只能停止它自己启动的进程"@
    } else {
        folder + " is running externally; the manager can only stop processes it launched"@
    }
}

/// Whether a workspace service may be stopped: only a process this session
/// started; one that runs outside is refused, a stopped one only noted.
pub fn stop_step(folder: &str, managed: bool, last_probe_ok: bool, zh: bool) -> (r: WorkspaceStep)
    ensures
        managed ==> r is Proceed,
        !managed && last_probe_ok ==> (r matches WorkspaceStep::Refuse(m) && m@ == external_stop_message(folder@, zh)),
        !managed && !last_probe_ok ==> (r matches WorkspaceStep::Note(m) && m@ == pick(
            zh,
            "服务已经停止。"@,
            "Service is already stopped."@,
        )),
{
    if managed {
        return WorkspaceStep::Proceed;
    }
    if last_probe_ok {
        return WorkspaceStep::Refuse(
            concat2(
                folder,
                if zh {
                    " 由外部进程运行，管理器只能停止它自己启动的进程"
                } else {
                    " is running externally; the manager can only stop processes it launched"
                },
            ),
        );
    }
    WorkspaceStep::Note(String::from_str(crate::manager_install::pick_text(zh, "服务已经停止。", "Service is already stopped.")))
}

pub open spec fn rebuild_message(folder: Seq<char>, zh: bool) -> Seq<char> {
    if zh {
        "请先停止 "@ + folder + "，再在当前平台上重新构建"@
    } else {
        "Stop "@ + folder + " before rebuilding on this platform"@
    }
}

/// Whether a workspace service may be built: a running build is only noted,
/// a service this session runs must be stopped first.
pub fn build_step(folder: &str, build_running: bool, managed: bool, zh: bool) -> (r: WorkspaceStep)
    ensures
        build_running ==> (r matches WorkspaceStep::Note(m) && m@ == pick(
            zh,
            "构建已经在进行中。"@,
            "Build is already in progress."@,
        )),
        !build_running && managed ==> (r matches WorkspaceStep::Refuse(m) && m@ == rebuild_message(folder@, zh)),
        !build_running && !managed ==> r is Proceed,
{
    if build_running {
        return WorkspaceStep::Note(
            String::from_str(crate::manager_install::pick_text(zh, "构建已经在进行中。", "Build is already in progress.")),
        );
    }
    if managed {
        let m = if zh {
            concat3("请先停止 ", folder, "，再在当前平台上重新构建")
        } else {
            concat3("Stop ", folder, " before rebuilding on this platform")
        };
        return WorkspaceStep::Refuse(m);
    }
    WorkspaceStep::Proceed
}

/// What the session records when a process it started has exited: the
/// service's error (none after a successful exit) and the history line.
pub fn process_exit_report(folder: &str, exit_code: Option<i32>, success: bool, zh: bool) -> (r: (Option<String>, String))
    ensures
        success ==> r.0 is None,
        !success ==> (r.0 matches Some(e) && e@ == if zh {
            folder@ + " 意外退出，退出码 "@ + spec_exit_code(exit_code)
        } else {
            folder@ + " exited unexpectedly with "@ + spec_exit_code(exit_code)
        }),
        r.1@ == if zh {
            folder@ + " 进程已退出，退出码 "@ + spec_exit_code(exit_code)
        } else {
            folder@ + " process exited with "@ + spec_exit_code(exit_code)
        },
{
    let code = crate::manager_service::format_exit_code(exit_code);
    let error = if success {
        None
    } else if zh {
        Some(concat3(folder, " 意外退出，退出码 ", &code))
    } else {
        Some(concat3(folder, " exited unexpectedly with ", &code))
    };
    let line = if zh {
        concat3(folder, " 进程已退出，退出码 ", &code)
    } else {
        concat3(folder, " process exited with ", &code)
    };
    (error, line)
}

/// What the session records when a build has finished: the service's error
/// (none after a successful build) and the history line.
pub fn build_finished_report(service: ServiceId, profile: BuildProfile, success: bool, exit_code: Option<i32>, zh: bool) -> (r: (Option<String>, String))
    ensures
        success ==> r.0 is None,
        !success ==> (r.0 matches Some(e) && e@ == pick(zh, "构建失败，退出码"@, "Build failed with exit code"@)
            + " "@ + spec_exit_code(exit_code)),
        r.1@ == service_label(service) + " "@ + profile_label(profile) + " "@ + pick(zh, "构建"@, "build"@)
            + " "@ + (if success {
            pick(zh, "成功"@, "succeeded"@)
        } else {
            pick(zh, "失败"@, "failed"@)
        }) + " (exit: "@ + spec_exit_code(exit_code) + ")"@,
{
    let code = crate::manager_service::format_exit_code(exit_code);
    let error = if success {
        None
    } else {
        let mut e = String::from_str(
            crate::manager_install::pick_text(zh, "构建失败，退出码", "Build failed with exit code"),
        );
        push_all(&mut e, " ");
        push_all(&mut e, &code);
        Some(e)
    };
    let mut line = concat3(service.label(), " ", profile.label());
    push_all(&mut line, " ");
    push_all(&mut line, crate::manager_install::pick_text(zh, "构建", "build"));
    push_all(&mut line, " ");
    push_all(
        &mut line,
        if success {
            crate::manager_install::pick_text(zh, "成功", "succeeded")
        } else {
            crate::manager_install::pick_text(zh, "失败", "failed")
        },
    );
    push_all(&mut line, " (exit: ");
    push_all(&mut line, &code);
    push_all(&mut line, ")");
    (error, line)
}

/// What the session keeps of a workspace service's runs: whether a build is
/// under way, how the last build and the last run ended, and the error
/// shown for the service.
#[derive(Debug, Clone)]
pub struct RunState {
    pub build_running: bool,
    pub last_build: Option<BuildRecord>,
    pub last_exit: Option<ExitRecord>,
    pub last_error: Option<String>,
}

pub open spec fn opt_text_view(o: Option<String>) -> Option<Seq<char>> {
    match o {
        Some(s) => Some(s@),
        None => None,
    }
}

/// The error a finished build leaves: none after success.
pub open spec fn spec_build_error(success: bool, exit_code: Option<i32>, zh: bool) -> Option<Seq<char>> {
    if success {
        None
    } else {
        Some(pick(zh, "构建失败，退出码"@, "Build failed with exit code"@) + " "@ + spec_exit_code(exit_code))
    }
}

/// The error a process that has exited leaves: none after success.
pub open spec fn spec_exit_error(folder: Seq<char>, exit_code: Option<i32>, success: bool, zh: bool) -> Option<Seq<char>> {
    if success {
        None
    } else if zh {
        Some(folder + " 意外退出，退出码 "@ + spec_exit_code(exit_code))
    } else {
        Some(folder + " exited unexpectedly with "@ + spec_exit_code(exit_code))
    }
}

/// Records a finished build: no build is under way any more, the build's
/// outcome is the last one, and the service's error is the build's; the
/// last run is untouched. Returns the history line.
pub fn finish_build(
    state: &mut RunState,
    service: ServiceId,
    profile: BuildProfile,
    success: bool,
    exit_code: Option<i32>,
    finished_at: String,
    zh: bool,
) -> (line: String)
    ensures
        !final(state).build_running,
        final(state).last_build matches Some(b) && b.profile == profile && b.finished_at@ == finished_at@
            && b.success == success && b.exit_code == exit_code,
        final(state).last_exit == old(state).last_exit,
        opt_text_view(final(state).last_error) == spec_build_error(success, exit_code, zh),
        line@ == service_label(service) + " "@ + profile_label(profile) + " "@ + pick(zh, "构建"@, "build"@)
            + " "@ + (if success {
            pick(zh, "成功"@, "succeeded"@)
        } else {
            pick(zh, "失败"@, "failed"@)
        }) + " (exit: "@ + spec_exit_code(exit_code) + ")"@,
{
    let (error, line) = build_finished_report(service, profile, success, exit_code, zh);
    state.build_running = false;
    state.last_build = Some(BuildRecord { profile, finished_at, success, exit_code });
    state.last_error = error;
    line
}

/// Records that a process the session started has exited: how it ended is
/// the last run, and the service's error is the exit's; the builds are
/// untouched. Returns the history line.
pub fn record_exit(
    state: &mut RunState,
    folder: &str,
    exit_code: Option<i32>,
    success: bool,
    finished_at: String,
    zh: bool,
) -> (line: String)
    ensures
        final(state).build_running == old(state).build_running,
        final(state).last_build == old(state).last_build,
        final(state).last_exit matches Some(x) && x.finished_at@ == finished_at@ && x.exit_code == exit_code,
        opt_text_view(final(state).last_error) == spec_exit_error(folder@, exit_code, success, zh),
        line@ == if zh {
            folder@ + " 进程已退出，退出码 "@ + spec_exit_code(exit_code)
        } else {
            folder@ + " process exited with "@ + spec_exit_code(exit_code)
        },
{
    let (error, line) = process_exit_report(folder, exit_code, success, zh);
    state.last_exit = Some(ExitRecord { finished_at, exit_code });
    state.last_error = error;
    line
}

/// Records that a build has been started: a build is under way and the
/// service's error is cleared; the last build and run are untouched.
pub fn begin_build(state: &mut RunState)
    ensures
        final(state).build_running,
        final(state).last_build == old(state).last_build,
        final(state).last_exit == old(state).last_exit,
        final(state).last_error is None,
{
    state.build_running = true;
    state.last_error = None;
}

/// Records that a process has been started: the service's error is
/// cleared; nothing else changes.
pub fn record_start(state: &mut RunState)
    ensures
        final(state).build_running == old(state).build_running,
        final(state).last_build == old(state).last_build,
        final(state).last_exit == old(state).last_exit,
        final(state).last_error is None,
{
    state.last_error = None;
}

/// Records that the session stopped a process on request: how it ended is
/// the last run, and the service's error is cleared; the builds are
/// untouched.
pub fn record_stop(state: &mut RunState, exit_code: Option<i32>, finished_at: String)
    ensures
        final(state).build_running == old(state).build_running,
        final(state).last_build == old(state).last_build,
        final(state).last_exit matches Some(x) && x.finished_at@ == finished_at@ && x.exit_code == exit_code,
        final(state).last_error is None,
{
    state.last_exit = Some(ExitRecord { finished_at, exit_code });
    state.last_error = None;
}

/// Records that the service's config could not be read: the error is the
/// one given; nothing else changes.
pub fn record_config_failure(state: &mut RunState, error: String)
    ensures
        final(state).build_running == old(state).build_running,
        final(state).last_build == old(state).last_build,
        final(state).last_exit == old(state).last_exit,
        final(state).last_error == Some(error),
{
    state.last_error = Some(error);
}

/// Records that polling a process the session started failed: the error
/// says so; nothing else changes.
pub fn record_poll_failure(state: &mut RunState, error: &str, zh: bool)
    ensures
        final(state).build_running == old(state).build_running,
        final(state).last_build == old(state).last_build,
        final(state).last_exit == old(state).last_exit,
        opt_text_view(final(state).last_error) == Some(spec_failed_action(FailedAction::PollProcess, zh) + ": "@ + error@),
{
    state.last_error = Some(failed_action_line(FailedAction::PollProcess, error, zh));
}

/// The source a log line of a service is shown under.
pub fn log_line_source(service: ServiceId, scope: LogScope) -> (r: String)
    ensures
        r@ == service_short_label(service) + " "@ + scope_label(scope),
{
    concat3(service.short_label(), " ", scope.label())
}

/// The name of a page in the manager's language.
pub open spec fn spec_page_label(page: ActivePage, zh: bool) -> Seq<char> {
    match page {
        ActivePage::Installed => pick(zh, "实例管理"@, "Instances"@),
        ActivePage::Workspace => pick(zh, "工作区开发"@, "Workspace"@),
        ActivePage::Output => pick(zh, "输出日志"@, "Output"@),
    }
}

/// The name of a page.
pub fn page_label(page: ActivePage, zh: bool) -> (r: &'static str)
    ensures
        r@ == spec_page_label(page, zh),
{
    match page {
        ActivePage::Installed => crate::manager_install::pick_text(zh, "实例管理", "Instances"),
        ActivePage::Workspace => crate::manager_install::pick_text(zh, "工作区开发", "Workspace"),
        ActivePage::Output => crate::manager_install::pick_text(zh, "输出日志", "Output"),
    }
}

/// The label of a form field in the manager's language.
pub open spec fn spec_field_label(key: FormFieldKey, zh: bool) -> Seq<char> {
    match key {
        FormFieldKey::Service => pick(zh, "服务"@, "Service"@),
        FormFieldKey::InstanceName => pick(zh, "实例名"@, "Instance"@),
        FormFieldKey::BindHost => pick(zh, "绑定 IP"@, "Bind Host"@),
        FormFieldKey::Port => pick(zh, "端口"@, "Port"@),
        FormFieldKey::DataPath => pick(zh, "数据路径"@, "Data Path"@),
        FormFieldKey::ServiceName => pick(zh, "服务注册名"@, "Service Name"@),
        FormFieldKey::LanceDbRoot => pick(zh, "LanceDB 根目录"@, "LanceDB Root"@),
        FormFieldKey::DuckDbRoot => pick(zh, "DuckDB 根目录"@, "DuckDB Root"@),
        FormFieldKey::LanceDbPort => pick(zh, "LanceDB 端口"@, "LanceDB Port"@),
        FormFieldKey::DuckDbPort => pick(zh, "DuckDB 端口"@, "DuckDB Port"@),
        FormFieldKey::LanceDbServiceName => pick(zh, "LanceDB 服务名"@, "LanceDB Service Name"@),
        FormFieldKey::DuckDbServiceName => pick(zh, "DuckDB 服务名"@, "DuckDB Service Name"@),
    }
}

/// The label of a form field.
pub fn field_label(key: FormFieldKey, zh: bool) -> (r: &'static str)
    ensures
        r@ == spec_field_label(key, zh),
{
    let p = |a: &'static str, b: &'static str| -> (r: &'static str)
        ensures
            r@ == pick(zh, a@, b@),
        { crate::manager_install::pick_text(zh, a, b) };
    match key {
        FormFieldKey::Service => p("服务", "Service"),
        FormFieldKey::InstanceName => p("实例名", "Instance"),
        FormFieldKey::BindHost => p("绑定 IP", "Bind Host"),
        FormFieldKey::Port => p("端口", "Port"),
        FormFieldKey::DataPath => p("数据路径", "Data Path"),
        FormFieldKey::ServiceName => p("服务注册名", "Service Name"),
        FormFieldKey::LanceDbRoot => p("LanceDB 根目录", "LanceDB Root"),
        FormFieldKey::DuckDbRoot => p("DuckDB 根目录", "DuckDB Root"),
        FormFieldKey::LanceDbPort => p("LanceDB 端口", "LanceDB Port"),
        FormFieldKey::DuckDbPort => p("DuckDB 端口", "DuckDB Port"),
        FormFieldKey::LanceDbServiceName => p("LanceDB 服务名", "LanceDB Service Name"),
        FormFieldKey::DuckDbServiceName => p("DuckDB 服务名", "DuckDB Service Name"),
    }
}

/// The title of a form.
pub fn form_title(mode: &FormMode, zh: bool) -> (r: String)
    ensures
        mode is Initialize ==> r@ == pick(zh, "首次安装 VLDB"@, "Initialize VLDB"@),
        mode is Install ==> r@ == pick(zh, "安装单个实例"@, "Install Instance"@),
        mode matches FormMode::Configure(inst) ==> r@ == pick(zh, "修改实例配置"@, "Configure"@) + " "@
            + service_label(inst.service) + " / "@ + inst.instance_name@,
{
    match mode {
        FormMode::Initialize => String::from_str(crate::manager_install::pick_text(zh, "首次安装 VLDB", "Initialize VLDB")),
        FormMode::Install => String::from_str(crate::manager_install::pick_text(zh, "安装单个实例", "Install Instance")),
        FormMode::Configure(inst) => {
            let mut s = concat3(
                crate::manager_install::pick_text(zh, "修改实例配置", "Configure"),
                " ",
                inst.service.label(),
            );
            push_all(&mut s, " / ");
            push_all(&mut s, &inst.instance_name);
            s
        },
    }
}

/// The hint under a form.
pub open spec fn spec_form_hint(mode: FormMode, zh: bool) -> Seq<char> {
    match mode {
        FormMode::Initialize => pick(zh, "输入完成后按 Enter 执行首次安装，Esc 取消。"@, "Press Enter to initialize, Esc to cancel."@),
        FormMode::Install => pick(
            zh,
            "上下选择字段，左右切换服务，Enter 安装实例。"@,
            "Use Up/Down to move, Left/Right to change service, Enter to install."@,
        ),
        FormMode::Configure(_) => pick(
            zh,
            "修改 host/port/data path/service name，Enter 保存。"@,
            "Adjust host/port/data path/service name, then press Enter to save."@,
        ),
    }
}

/// The hint under a form.
pub fn form_hint(mode: &FormMode, zh: bool) -> (r: &'static str)
    ensures
        r@ == spec_form_hint(*mode, zh),
{
    match mode {
        FormMode::Initialize => crate::manager_install::pick_text(
            zh,
            "输入完成后按 Enter 执行首次安装，Esc 取消。",
            "Press Enter to initialize, Esc to cancel.",
        ),
        FormMode::Install => crate::manager_install::pick_text(
            zh,
            "上下选择字段，左右切换服务，Enter 安装实例。",
            "Use Up/Down to move, Left/Right to change service, Enter to install.",
        ),
        FormMode::Configure(_) => crate::manager_install::pick_text(
            zh,
            "修改 host/port/data path/service name，Enter 保存。",
            "Adjust host/port/data path/service name, then press Enter to save.",
        ),
    }
}

/// The name of a config source in the manager's language.
pub fn localized_source_label(label: &str, zh: bool) -> (r: String)
    ensures
        label@ == "workspace"@ ==> r@ == pick(zh, "工作区"@, "workspace"@),
        label@ == "example"@ ==> r@ == pick(zh, "示例"@, "example"@),
        label@ != "workspace"@ && label@ != "example"@ ==> r@ == label@,
{
    proof {
        reveal_strlit("workspace");
        reveal_strlit("example");
        assert("workspace"@.len() != "example"@.len());
    }
    let chars = chars_of(label);
    if crate::text::eq_str(&chars, "workspace") {
        String::from_str(crate::manager_install::pick_text(zh, "工作区", "workspace"))
    } else if crate::text::eq_str(&chars, "example") {
        String::from_str(crate::manager_install::pick_text(zh, "示例", "example"))
    } else {
        String::from_str(label)
    }
}

} // verus!
