//! The log lines of the services: the line format, the dated log file, and
//! what the DuckDB gateway writes about each request.
use vstd::prelude::*;
use crate::duckdb_config::LoggingConfig;
use crate::duckdb_request::{
    parse_grpc_timeout_header, preview_sql, spec_format_optional_duration, spec_grpc_timeout,
    spec_preview_sql, StatusCode, TimeSpan,
};
use crate::paths::{last_dot, stem_of};
use crate::text::{chars_of, concat2, concat3, dec, push_all, render_u128, trim_seq};

verus! {

/// A log line: time, service, category, message.
pub open spec fn spec_log_line(time: Seq<char>, service: Seq<char>, category: Seq<char>, message: Seq<char>) -> Seq<char> {
    "["@ + time + "]["@ + service + "]["@ + category + "] "@ + message
}

/// Formats a log line.
pub fn log_line(time: &str, service: &str, category: &str, message: &str) -> (r: String)
    ensures
        r@ == spec_log_line(time@, service@, category@, message@),
{
    let mut s = concat3("[", time, "][");
    push_all(&mut s, service);
    push_all(&mut s, "][");
    push_all(&mut s, category);
    push_all(&mut s, "] ");
    push_all(&mut s, message);
    s
}

/// Milliseconds in three digits.
pub open spec fn pad3(n: nat) -> Seq<char> {
    if n < 10 {
        "00"@ + dec(n)
    } else if n < 100 {
        "0"@ + dec(n)
    } else {
        dec(n)
    }
}

/// The time of a log line: seconds since the Unix epoch and milliseconds.
pub fn millis_timestamp(secs: u64, subsec_millis: u32) -> (r: String)
    requires
        subsec_millis < 1000,
    ensures
        r@ == dec(secs as nat) + "."@ + pad3(subsec_millis as nat),
{
    let mut s = render_u128(secs as u128);
    push_all(&mut s, ".");
    if subsec_millis < 10 {
        push_all(&mut s, "00");
    } else if subsec_millis < 100 {
        push_all(&mut s, "0");
    }
    push_all(&mut s, &render_u128(subsec_millis as u128));
    s
}

/// The daily log file: the date (`YYYY-MM-DD`) after an underscore, before
/// the extension of the configured name.
pub open spec fn spec_dated_name(name: Seq<char>, date: Seq<char>) -> Seq<char> {
    let k = last_dot(name);
    if k <= 0 {
        name + "_"@ + date
    } else {
        name.subrange(0, k) + "_"@ + date + name.subrange(k, name.len() as int)
    }
}

/// The name of the log file of a day.
pub fn dated_log_file_name(name: &str, date: &str) -> (r: String)
    ensures
        r@ == spec_dated_name(name@, date@),
{
    let chars = chars_of(name);
    let mut k = chars.len();
    assert(chars@.subrange(0, k as int) =~= name@);
    while k > 0 && chars[k - 1] != '.'
        invariant
            0 <= k <= chars.len(),
            chars@ == name@,
            last_dot(name@) == last_dot(chars@.subrange(0, k as int)),
        decreases k,
    {
        assert(chars@.subrange(0, k as int).drop_last() =~= chars@.subrange(0, k - 1));
        k -= 1;
    }
    if k <= 1 {
        proof {
            if k == 0 {
                assert(last_dot(chars@.subrange(0, 0)) == -1);
            } else {
                assert(last_dot(chars@.subrange(0, 1)) == 0);
            }
        }
        return concat3(name, "_", date);
    }
    assert(last_dot(name@) == k - 1);
    let mut s = crate::text::string_from_range(&chars, 0, k - 1);
    push_all(&mut s, "_");
    push_all(&mut s, date);
    push_all(&mut s, &crate::text::string_from_range(&chars, k - 1, chars.len()));
    s
}

/// Where the gateway writes the log of a day: the dated file in the log
/// directory.
pub fn dated_log_path(log_dir: &str, name: &str, date: &str) -> (r: String)
    ensures
        r@ == crate::paths::join_path(log_dir@, spec_dated_name(name@, date@)),
{
    let file = dated_log_file_name(name, date);
    crate::paths::join_path_exec(log_dir, &file)
}

/// What the gateway knows of a request for its log lines.
#[derive(Debug, Clone)]
pub struct RequestLogContext {
    pub request_id: u64,
    pub operation: String,
    /// The client's address, if known.
    pub remote_addr: Option<String>,
    pub grpc_timeout: Option<TimeSpan>,
    pub sql_full: String,
    pub sql_preview: String,
    pub params_json_bytes: usize,
    pub request_log_enabled: bool,
    pub slow_query_log_enabled: bool,
    pub slow_query_threshold: TimeSpan,
    pub slow_query_full_sql_enabled: bool,
}

/// The log context of a request: its SQL trimmed and previewed, its
/// deadline read from the `grpc-timeout` header, and the logging settings.
pub fn build_request_context(
    request_id: u64,
    operation: &str,
    remote_addr: Option<String>,
    grpc_timeout_header: Option<&str>,
    sql: &str,
    params_json_len: usize,
    logging: &LoggingConfig,
) -> (r: RequestLogContext)
    ensures
        r.request_id == request_id,
        r.operation@ == operation@,
        r.remote_addr == remote_addr,
        r.grpc_timeout == match grpc_timeout_header {
            Some(h) => spec_grpc_timeout(h@),
            None => None,
        },
        r.sql_full@ == trim_seq(sql@),
        r.sql_preview@ == spec_preview_sql(sql@, logging.sql_preview_chars as nat),
        r.params_json_bytes == params_json_len,
        r.request_log_enabled == logging.request_log_enabled,
        r.slow_query_log_enabled == logging.slow_query_log_enabled,
        r.slow_query_threshold.nanos == logging.slow_query_threshold_ms * 1_000_000,
        r.slow_query_full_sql_enabled == logging.slow_query_full_sql_enabled,
{
    let grpc_timeout = match grpc_timeout_header {
        Some(h) => parse_grpc_timeout_header(h),
        None => None,
    };
    RequestLogContext {
        request_id,
        operation: String::from_str(operation),
        remote_addr,
        grpc_timeout,
        sql_full: crate::text::trim_string(sql),
        sql_preview: preview_sql(sql, logging.sql_preview_chars),
        params_json_bytes: params_json_len,
        request_log_enabled: logging.request_log_enabled,
        slow_query_log_enabled: logging.slow_query_log_enabled,
        slow_query_threshold: TimeSpan::from_millis(logging.slow_query_threshold_ms),
        slow_query_full_sql_enabled: logging.slow_query_full_sql_enabled,
    }
}

/// The client's address in log lines.
pub open spec fn remote_text(remote: Option<String>) -> Seq<char> {
    match remote {
        Some(a) => a@,
        None => "unknown"@,
    }
}

/// The client's address in log lines, `unknown` where there is none.
pub fn format_remote_addr(remote: &Option<String>) -> (r: String)
    ensures
        r@ == remote_text(*remote),
{
    match remote {
        Some(a) => a.clone(),
        None => String::from_str("unknown"),
    }
}

/// The beginning every request line shares.
pub open spec fn head(c: RequestLogContext) -> Seq<char> {
    "request_id="@ + dec(c.request_id as nat) + " op="@ + c.operation@
}

fn head_exec(c: &RequestLogContext) -> (r: String)
    ensures
        r@ == head(*c),
{
    let mut s = concat2("request_id=", &render_u128(c.request_id as u128));
    push_all(&mut s, " op=");
    push_all(&mut s, &c.operation);
    s
}

/// The `start` line of a request, where request logging is on.
pub open spec fn spec_started(c: RequestLogContext) -> Seq<char> {
    head(c) + " remote="@ + remote_text(c.remote_addr) + " grpc_timeout="@
        + spec_format_optional_duration(c.grpc_timeout) + " params_json_bytes="@ + dec(
        c.params_json_bytes as nat,
    ) + " sql=\""@ + c.sql_preview@ + "\""@
}

/// The `start` message of a request; none where request logging is off.
pub fn started_message(c: &RequestLogContext) -> (r: Option<String>)
    ensures
        c.request_log_enabled ==> (r matches Some(m) && m@ == spec_started(*c)),
        !c.request_log_enabled ==> r is None,
{
    if !c.request_log_enabled {
        return None;
    }
    let mut s = head_exec(c);
    push_all(&mut s, " remote=");
    push_all(&mut s, &format_remote_addr(&c.remote_addr));
    push_all(&mut s, " grpc_timeout=");
    push_all(&mut s, &crate::duckdb_request::format_optional_duration(c.grpc_timeout));
    push_all(&mut s, " params_json_bytes=");
    push_all(&mut s, &render_u128(c.params_json_bytes as u128));
    push_all(&mut s, " sql=\"");
    push_all(&mut s, &c.sql_preview);
    push_all(&mut s, "\"");
    Some(s)
}

/// The `invalid` line of a refused request.
pub open spec fn spec_invalid(c: RequestLogContext, elapsed_ms: nat, message: Seq<char>) -> Seq<char> {
    head(c) + " elapsed_ms="@ + dec(elapsed_ms) + " remote="@ + remote_text(c.remote_addr) + " message="@
        + message + " sql=\""@ + c.sql_preview@ + "\""@
}

/// The `invalid` message of a refused request; none where request logging
/// is off.
pub fn invalid_argument_message(c: &RequestLogContext, elapsed: TimeSpan, message: &str) -> (r: Option<String>)
    ensures
        c.request_log_enabled ==> (r matches Some(m) && m@ == spec_invalid(
            *c,
            (elapsed.nanos / 1_000_000) as nat,
            message@,
        )),
        !c.request_log_enabled ==> r is None,
{
    if !c.request_log_enabled {
        return None;
    }
    let mut s = head_exec(c);
    push_all(&mut s, " elapsed_ms=");
    push_all(&mut s, &render_u128(elapsed.as_millis()));
    push_all(&mut s, " remote=");
    push_all(&mut s, &format_remote_addr(&c.remote_addr));
    push_all(&mut s, " message=");
    push_all(&mut s, message);
    push_all(&mut s, " sql=\"");
    push_all(&mut s, &c.sql_preview);
    push_all(&mut s, "\"");
    Some(s)
}

/// The `timeout` line of a request whose deadline fired.
pub open spec fn spec_timeout(c: RequestLogContext, elapsed_ms: nat, stage: Seq<char>) -> Seq<char> {
    head(c) + " elapsed_ms="@ + dec(elapsed_ms) + " remote="@ + remote_text(c.remote_addr)
        + " grpc_timeout="@ + spec_format_optional_duration(c.grpc_timeout) + " stage="@ + stage
        + " sql=\""@ + c.sql_preview@
        + "\" message=interrupting running DuckDB query because the gRPC deadline expired"@
}

/// The `timeout` message, written whether or not request logging is on.
pub fn timeout_message(c: &RequestLogContext, elapsed: TimeSpan, stage: &str) -> (r: String)
    ensures
        r@ == spec_timeout(*c, (elapsed.nanos / 1_000_000) as nat, stage@),
{
    let mut s = head_exec(c);
    push_all(&mut s, " elapsed_ms=");
    push_all(&mut s, &render_u128(elapsed.as_millis()));
    push_all(&mut s, " remote=");
    push_all(&mut s, &format_remote_addr(&c.remote_addr));
    push_all(&mut s, " grpc_timeout=");
    push_all(&mut s, &crate::duckdb_request::format_optional_duration(c.grpc_timeout));
    push_all(&mut s, " stage=");
    push_all(&mut s, stage);
    push_all(&mut s, " sql=\"");
    push_all(&mut s, &c.sql_preview);
    push_all(&mut s, "\" message=interrupting running DuckDB query because the gRPC deadline expired");
    s
}

/// The `ok` line of a request that succeeded.
pub open spec fn spec_succeeded(c: RequestLogContext, elapsed_ms: nat, stage: Seq<char>, detail: Seq<char>) -> Seq<char> {
    head(c) + " elapsed_ms="@ + dec(elapsed_ms) + " remote="@ + remote_text(c.remote_addr) + " stage="@
        + stage + " detail="@ + detail + " sql=\""@ + c.sql_preview@ + "\""@
}

/// The `ok` message of a request; none where request logging is off.
pub fn succeeded_message(c: &RequestLogContext, elapsed: TimeSpan, stage: &str, detail: &str) -> (r: Option<String>)
    ensures
        c.request_log_enabled ==> (r matches Some(m) && m@ == spec_succeeded(
            *c,
            (elapsed.nanos / 1_000_000) as nat,
            stage@,
            detail@,
        )),
        !c.request_log_enabled ==> r is None,
{
    if !c.request_log_enabled {
        return None;
    }
    let mut s = head_exec(c);
    push_all(&mut s, " elapsed_ms=");
    push_all(&mut s, &render_u128(elapsed.as_millis()));
    push_all(&mut s, " remote=");
    push_all(&mut s, &format_remote_addr(&c.remote_addr));
    push_all(&mut s, " stage=");
    push_all(&mut s, stage);
    push_all(&mut s, " detail=");
    push_all(&mut s, detail);
    push_all(&mut s, " sql=\"");
    push_all(&mut s, &c.sql_preview);
    push_all(&mut s, "\"");
    Some(s)
}

/// The name of a status code as the log shows it (`tonic::Code` debug).
pub open spec fn code_name(code: StatusCode) -> Seq<char> {
    match code {
        StatusCode::Success => "Ok"@,
        StatusCode::Cancelled => "Cancelled"@,
        StatusCode::Unknown => "Unknown"@,
        StatusCode::InvalidArgument => "InvalidArgument"@,
        StatusCode::DeadlineExceeded => "DeadlineExceeded"@,
        StatusCode::NotFound => "NotFound"@,
        StatusCode::AlreadyExists => "AlreadyExists"@,
        StatusCode::PermissionDenied => "PermissionDenied"@,
        StatusCode::ResourceExhausted => "ResourceExhausted"@,
        StatusCode::FailedPrecondition => "FailedPrecondition"@,
        StatusCode::Aborted => "Aborted"@,
        StatusCode::OutOfRange => "OutOfRange"@,
        StatusCode::Unimplemented => "Unimplemented"@,
        StatusCode::Internal => "Internal"@,
        StatusCode::Unavailable => "Unavailable"@,
        StatusCode::DataLoss => "DataLoss"@,
        StatusCode::Unauthenticated => "Unauthenticated"@,
    }
}

/// The name of a status code.
pub fn status_code_name(code: StatusCode) -> (r: &'static str)
    ensures
        r@ == code_name(code),
{
    match code {
        StatusCode::Success => "Ok",
        StatusCode::Cancelled => "Cancelled",
        StatusCode::Unknown => "Unknown",
        StatusCode::InvalidArgument => "InvalidArgument",
        StatusCode::DeadlineExceeded => "DeadlineExceeded",
        StatusCode::NotFound => "NotFound",
        StatusCode::AlreadyExists => "AlreadyExists",
        StatusCode::PermissionDenied => "PermissionDenied",
        StatusCode::ResourceExhausted => "ResourceExhausted",
        StatusCode::FailedPrecondition => "FailedPrecondition",
        StatusCode::Aborted => "Aborted",
        StatusCode::OutOfRange => "OutOfRange",
        StatusCode::Unimplemented => "Unimplemented",
        StatusCode::Internal => "Internal",
        StatusCode::Unavailable => "Unavailable",
        StatusCode::DataLoss => "DataLoss",
        StatusCode::Unauthenticated => "Unauthenticated",
    }
}

/// The `error` line of a request that failed.
pub open spec fn spec_failed(c: RequestLogContext, elapsed_ms: nat, stage: Seq<char>, code: StatusCode, message: Seq<char>) -> Seq<char> {
    head(c) + " elapsed_ms="@ + dec(elapsed_ms) + " remote="@ + remote_text(c.remote_addr) + " stage="@
        + stage + " code="@ + code_name(code) + " message="@ + message + " sql=\""@ + c.sql_preview@
        + "\""@
}

/// The `error` message of a request, written whether or not request logging
/// is on.
pub fn failed_message(c: &RequestLogContext, elapsed: TimeSpan, stage: &str, code: StatusCode, message: &str) -> (r: String)
    ensures
        r@ == spec_failed(*c, (elapsed.nanos / 1_000_000) as nat, stage@, code, message@),
{
    let mut s = head_exec(c);
    push_all(&mut s, " elapsed_ms=");
    push_all(&mut s, &render_u128(elapsed.as_millis()));
    push_all(&mut s, " remote=");
    push_all(&mut s, &format_remote_addr(&c.remote_addr));
    push_all(&mut s, " stage=");
    push_all(&mut s, stage);
    push_all(&mut s, " code=");
    push_all(&mut s, status_code_name(code));
    push_all(&mut s, " message=");
    push_all(&mut s, message);
    push_all(&mut s, " sql=\"");
    push_all(&mut s, &c.sql_preview);
    push_all(&mut s, "\"");
    s
}

/// The `slow_query` line of a request that took at least the threshold.
pub open spec fn spec_slow(
    c: RequestLogContext,
    elapsed_ms: nat,
    stage: Seq<char>,
    final_state: Seq<char>,
    detail: Seq<char>,
) -> Seq<char> {
    head(c) + " elapsed_ms="@ + dec(elapsed_ms) + " threshold_ms="@ + dec(
        (c.slow_query_threshold.nanos / 1_000_000) as nat,
    ) + " remote="@ + remote_text(c.remote_addr) + " stage="@ + stage + " state="@ + final_state
        + " detail="@ + detail + " sql=\""@ + (if c.slow_query_full_sql_enabled {
        c.sql_full@
    } else {
        c.sql_preview@
    }) + "\""@
}

/// The `slow_query` message of a request that took at least the threshold
/// while slow-query logging is on; none otherwise.
pub fn slow_query_message(c: &RequestLogContext, elapsed: TimeSpan, stage: &str, final_state: &str, detail: &str) -> (r: Option<String>)
    ensures
        c.slow_query_log_enabled && elapsed.nanos >= c.slow_query_threshold.nanos ==> (r matches Some(m)
            && m@ == spec_slow(*c, (elapsed.nanos / 1_000_000) as nat, stage@, final_state@, detail@)),
        !(c.slow_query_log_enabled && elapsed.nanos >= c.slow_query_threshold.nanos) ==> r is None,
{
    if !c.slow_query_log_enabled || elapsed.nanos < c.slow_query_threshold.nanos {
        return None;
    }
    let mut s = head_exec(c);
    push_all(&mut s, " elapsed_ms=");
    push_all(&mut s, &render_u128(elapsed.as_millis()));
    push_all(&mut s, " threshold_ms=");
    push_all(&mut s, &render_u128(c.slow_query_threshold.as_millis()));
    push_all(&mut s, " remote=");
    push_all(&mut s, &format_remote_addr(&c.remote_addr));
    push_all(&mut s, " stage=");
    push_all(&mut s, stage);
    push_all(&mut s, " state=");
    push_all(&mut s, final_state);
    push_all(&mut s, " detail=");
    push_all(&mut s, detail);
    push_all(&mut s, " sql=\"");
    push_all(&mut s, if c.slow_query_full_sql_enabled { &c.sql_full } else { &c.sql_preview });
    push_all(&mut s, "\"");
    Some(s)
}

} // verus!
