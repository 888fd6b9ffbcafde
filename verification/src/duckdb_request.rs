//! Request handling rules of the DuckDB gateway that do not touch the
//! database: SQL statement counting, SQL previews for logs, the `grpc-timeout`
//! header, the mapping of interrupted queries to `DEADLINE_EXCEEDED`, the
//! connection pragmas and the stage a request has reached.
use vstd::prelude::*;
use crate::text::{
    all_ws, ascii_lower_chars, ascii_lower_seq, char_is_ws, chars_of, collapse_ws,
    collapse_ws_exec, contains_exec, contains_seq, count_nonblank, dec, double_quotes,
    double_quotes_exec, lemma_split_on_nonempty, parse_unsigned, parse_unsigned_chars, push_all,
    push_char, render_u128, split_on, string_from_chars,
};

verus! {

/// A span of time, counted in nanoseconds (`std::time::Duration`).
#[derive(Debug, Clone, Copy, PartialEq, Eq)]
pub struct TimeSpan {
    pub nanos: u128,
}

pub open spec fn nanos_per_sec() -> int {
    1_000_000_000
}

impl TimeSpan {
    pub fn from_secs(secs: u64) -> (r: TimeSpan)
        ensures
            r.nanos == secs * nanos_per_sec(),
    {
        TimeSpan { nanos: (secs as u128) * 1_000_000_000 }
    }

    pub fn from_millis(millis: u64) -> (r: TimeSpan)
        ensures
            r.nanos == millis * 1_000_000,
    {
        TimeSpan { nanos: (millis as u128) * 1_000_000 }
    }

    pub fn from_micros(micros: u64) -> (r: TimeSpan)
        ensures
            r.nanos == micros * 1_000,
    {
        TimeSpan { nanos: (micros as u128) * 1_000 }
    }

    pub fn from_nanos(nanos: u64) -> (r: TimeSpan)
        ensures
            r.nanos == nanos,
    {
        TimeSpan { nanos: nanos as u128 }
    }

    /// Whole milliseconds (`Duration::as_millis`).
    pub fn as_millis(&self) -> (r: u128)
        ensures
            r == self.nanos / 1_000_000,
    {
        self.nanos / 1_000_000
    }

    /// Whole seconds (`Duration::as_secs`).
    pub fn as_secs(&self) -> (r: u128)
        ensures
            r == self.nanos / 1_000_000_000,
    {
        self.nanos / 1_000_000_000
    }
}

/// More than one of the `;`-separated pieces of `sql` holds a statement.
pub open spec fn spec_multiple_statements(sql: Seq<char>) -> bool {
    count_nonblank(split_on(sql, ';')) > 1
}

/// Whether a script holds more than one SQL statement.
pub fn has_multiple_sql_statements(sql: &str) -> (r: bool)
    ensures
        r == spec_multiple_statements(sql@),
{
    let chars = chars_of(sql);
    let mut done: usize = 0;
    let mut cur_blank = true;
    let ghost mut pieces: Seq<Seq<char>> = Seq::empty();
    let mut cur_start: usize = 0;
    let mut i: usize = 0;
    assert(chars@.subrange(0, 0) =~= Seq::<char>::empty());
    assert(chars@.subrange(0, 0) =~= chars@.subrange(0, 0));
    while i < chars.len()
        invariant
            0 <= cur_start <= i <= chars.len(),
            chars@ == sql@,
            done <= i,
            split_on(chars@.subrange(0, i as int), ';') == pieces.push(
                chars@.subrange(cur_start as int, i as int),
            ),
            done == count_nonblank(pieces),
            cur_blank == all_ws(chars@.subrange(cur_start as int, i as int)),
        decreases chars.len() - i,
    {
        let c = chars[i];
        let ghost prev = chars@.subrange(0, i as int);
        assert(chars@.subrange(0, i + 1).drop_last() =~= prev);
        assert(chars@.subrange(0, i + 1).last() == c);
        proof {
            lemma_split_on_nonempty(prev, ';');
        }
        if c == ';' {
            let ghost cur = chars@.subrange(cur_start as int, i as int);
            assert(pieces.push(cur).push(Seq::<char>::empty()).drop_last() =~= pieces.push(cur));
            proof {
                assert(count_nonblank(pieces.push(cur)) == count_nonblank(pieces) + if all_ws(cur) {
                    0nat
                } else {
                    1nat
                }) by {
                    assert(pieces.push(cur).drop_last() =~= pieces);
                }
                pieces = pieces.push(cur);
            }
            if !cur_blank {
                done = done + 1;
            }
            cur_start = i + 1;
            cur_blank = true;
            assert(chars@.subrange(cur_start as int, i + 1) =~= Seq::<char>::empty());
        } else {
            let ghost cur = chars@.subrange(cur_start as int, i as int);
            assert(chars@.subrange(cur_start as int, i + 1) =~= cur.push(c));
            assert(pieces.push(cur).update(pieces.len() as int, cur.push(c)) =~= pieces.push(
                cur.push(c),
            ));
            if !char_is_ws(c) {
                cur_blank = false;
                assert(!all_ws(cur.push(c))) by {
                    assert(cur.push(c)[cur.len() as int] == c);
                }
            } else {
                assert(all_ws(cur.push(c)) == all_ws(cur)) by {
                    if all_ws(cur) {
                        assert forall|j: int| 0 <= j < cur.push(c).len() implies crate::text::is_ws(
                            #[trigger] cur.push(c)[j],
                        ) by {
                            if j < cur.len() {
                                assert(cur.push(c)[j] == cur[j]);
                            }
                        }
                    } else {
                        let j = choose|j: int| 0 <= j < cur.len() && !crate::text::is_ws(cur[j]);
                        assert(cur.push(c)[j] == cur[j]);
                    }
                }
            }
        }
        i += 1;
    }
    assert(chars@.subrange(0, chars.len() as int) =~= chars@);
    let ghost cur = chars@.subrange(cur_start as int, i as int);
    assert(pieces.push(cur).drop_last() =~= pieces);
    done > 1 || (done == 1 && !cur_blank)
}

/// The log preview of a SQL text: whitespace runs collapsed to single spaces,
/// `<empty>` for a blank text, and the first `max_chars` characters followed
/// by `...` when it is longer than that.
pub open spec fn spec_preview_sql(sql: Seq<char>, max_chars: nat) -> Seq<char> {
    let n = collapse_ws(sql);
    if n.len() == 0 {
        "<empty>"@
    } else if n.len() <= max_chars {
        n
    } else {
        n.subrange(0, max_chars as int) + "..."@
    }
}

/// The preview of a SQL text for request logs.
pub fn preview_sql(sql: &str, max_chars: usize) -> (r: String)
    ensures
        r@ == spec_preview_sql(sql@, max_chars as nat),
{
    proof {
        reveal_strlit("<empty>");
        reveal_strlit("...");
    }
    let chars = chars_of(sql);
    let normalized = collapse_ws_exec(&chars);
    if normalized.len() == 0 {
        return String::from_str("<empty>");
    }
    if normalized.len() <= max_chars {
        return string_from_chars(&normalized);
    }
    let mut preview = String::new();
    let mut i: usize = 0;
    while i < max_chars
        invariant
            0 <= i <= max_chars < normalized.len(),
            preview@ == normalized@.subrange(0, i as int),
        decreases max_chars - i,
    {
        push_char(&mut preview, normalized[i]);
        i += 1;
        assert(preview@ =~= normalized@.subrange(0, i as int));
    }
    push_all(&mut preview, "...");
    preview
}

/// The `grpc-timeout` header: a decimal count (as `u64` parses it) followed
/// by one unit letter, `H`ours, `M`inutes, `S`econds, `m`illiseconds,
/// `u` microseconds or `n`anoseconds; hours and minutes whose seconds overflow
/// a `u64` are refused.
pub open spec fn spec_grpc_timeout(raw: Seq<char>) -> Option<TimeSpan> {
    if raw.len() == 0 {
        None
    } else {
        let unit = raw.last();
        match parse_unsigned(raw.drop_last(), u64::MAX as nat) {
            None => None,
            Some(v) => if unit == 'H' {
                if v * 3600 <= u64::MAX {
                    Some(TimeSpan { nanos: (v * 3600 * nanos_per_sec()) as u128 })
                } else {
                    None
                }
            } else if unit == 'M' {
                if v * 60 <= u64::MAX {
                    Some(TimeSpan { nanos: (v * 60 * nanos_per_sec()) as u128 })
                } else {
                    None
                }
            } else if unit == 'S' {
                Some(TimeSpan { nanos: (v * nanos_per_sec()) as u128 })
            } else if unit == 'm' {
                Some(TimeSpan { nanos: (v * 1_000_000) as u128 })
            } else if unit == 'u' {
                Some(TimeSpan { nanos: (v * 1_000) as u128 })
            } else if unit == 'n' {
                Some(TimeSpan { nanos: v as u128 })
            } else {
                None
            },
        }
    }
}

/// Parses a `grpc-timeout` header value.
pub fn parse_grpc_timeout_header(raw: &str) -> (r: Option<TimeSpan>)
    ensures
        r == spec_grpc_timeout(raw@),
{
    let chars = chars_of(raw);
    if chars.len() == 0 {
        return None;
    }
    let unit = chars[chars.len() - 1];
    let mut digits: Vec<char> = Vec::new();
    let mut i: usize = 0;
    while i < chars.len() - 1
        invariant
            0 <= i <= chars.len() - 1,
            chars@ == raw@,
            digits@ =~= chars@.subrange(0, i as int),
        decreases chars.len() - 1 - i,
    {
        digits.push(chars[i]);
        i += 1;
    }
    assert(digits@ =~= raw@.drop_last());
    let value = match parse_unsigned_chars(&digits, u64::MAX) {
        Some(v) => v,
        None => return None,
    };
    if unit == 'H' {
        if value > u64::MAX / 3600 {
            return None;
        }
        Some(TimeSpan::from_secs(value * 3600))
    } else if unit == 'M' {
        if value > u64::MAX / 60 {
            return None;
        }
        Some(TimeSpan::from_secs(value * 60))
    } else if unit == 'S' {
        Some(TimeSpan::from_secs(value))
    } else if unit == 'm' {
        Some(TimeSpan::from_millis(value))
    } else if unit == 'u' {
        Some(TimeSpan::from_micros(value))
    } else if unit == 'n' {
        Some(TimeSpan::from_nanos(value))
    } else {
        None
    }
}

/// A duration in log lines: whole milliseconds followed by `ms`, or `none`.
pub open spec fn spec_format_optional_duration(d: Option<TimeSpan>) -> Seq<char> {
    match d {
        Some(t) => dec((t.nanos / 1_000_000) as nat) + "ms"@,
        None => "none"@,
    }
}

/// Formats an optional duration for log lines.
pub fn format_optional_duration(duration: Option<TimeSpan>) -> (r: String)
    ensures
        r@ == spec_format_optional_duration(duration),
{
    proof {
        reveal_strlit("ms");
        reveal_strlit("none");
    }
    match duration {
        Some(t) => {
            let mut s = render_u128(t.as_millis());
            push_all(&mut s, "ms");
            s
        },
        None => String::from_str("none"),
    }
}

/// Status codes of gRPC (`tonic::Code`).
#[derive(Debug, Clone, Copy, PartialEq, Eq)]
pub enum StatusCode {
    Success,
    Cancelled,
    Unknown,
    InvalidArgument,
    DeadlineExceeded,
    NotFound,
    AlreadyExists,
    PermissionDenied,
    ResourceExhausted,
    FailedPrecondition,
    Aborted,
    OutOfRange,
    Unimplemented,
    Internal,
    Unavailable,
    DataLoss,
    Unauthenticated,
}

/// A gRPC status: a code and a message (`tonic::Status`).
#[derive(Debug, Clone)]
pub struct GrpcStatus {
    pub code: StatusCode,
    pub message: String,
}

/// The message given to a query that the deadline interrupted.
pub open spec fn deadline_interrupt_message() -> Seq<char> {
    "DuckDB query exceeded the gRPC deadline and was interrupted"@
}

/// A failure that happened after the deadline fired and that mentions an
/// interrupt (in any letter case) is reported as `DEADLINE_EXCEEDED`.
pub open spec fn spec_remap_deadline(code: StatusCode, message: Seq<char>, deadline_triggered: bool) -> (
    StatusCode,
    Seq<char>,
) {
    if deadline_triggered && contains_seq(ascii_lower_seq(message), "interrupt"@) {
        (StatusCode::DeadlineExceeded, deadline_interrupt_message())
    } else {
        (code, message)
    }
}

/// Maps the status of a failed request once the deadline watcher has fired.
pub fn remap_deadline_status(status: GrpcStatus, deadline_triggered: bool) -> (r: GrpcStatus)
    ensures
        (r.code, r.message@) == spec_remap_deadline(status.code, status.message@, deadline_triggered),
{
    if deadline_triggered {
        let lower = ascii_lower_chars(&status.message);
        if contains_exec(&lower, "interrupt") {
            return GrpcStatus {
                code: StatusCode::DeadlineExceeded,
                message: String::from_str("DuckDB query exceeded the gRPC deadline and was interrupted"),
            };
        }
    }
    status
}

/// The statement that applies the memory limit and thread count to a new
/// connection, with single quotes in the limit doubled.
pub open spec fn spec_pragmas_sql(memory_limit: Seq<char>, threads: nat) -> Seq<char> {
    "PRAGMA memory_limit='"@ + double_quotes(memory_limit) + "'; PRAGMA threads="@ + dec(threads)
        + ";"@
}

/// The pragmas run on the shared connection when the gateway starts.
pub fn connection_pragmas_sql(memory_limit: &str, threads: usize) -> (r: String)
    ensures
        r@ == spec_pragmas_sql(memory_limit@, threads as nat),
{
    let mut sql = String::from_str("PRAGMA memory_limit='");
    let escaped = double_quotes_exec(memory_limit);
    push_all(&mut sql, &escaped);
    push_all(&mut sql, "'; PRAGMA threads=");
    let t = render_u128(threads as u128);
    push_all(&mut sql, &t);
    push_all(&mut sql, ";");
    sql
}

/// The stage a request has reached, reported in timeout and slow-query logs.
pub struct RequestProgress {
    stage: String,
}

impl RequestProgress {
    pub closed spec fn spec_stage(&self) -> Seq<char> {
        self.stage@
    }

    pub fn new(initial_stage: &str) -> (r: Self)
        ensures
            r.spec_stage() == initial_stage@,
    {
        RequestProgress { stage: String::from_str(initial_stage) }
    }

    pub fn set(&mut self, stage: &str)
        ensures
            final(self).spec_stage() == stage@,
    {
        self.stage = String::from_str(stage);
    }

    pub fn snapshot(&self) -> (r: String)
        ensures
            r@ == self.spec_stage(),
    {
        self.stage.clone()
    }
}

} // verus!
