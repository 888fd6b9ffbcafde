use std::time::Duration;

use vldb::duckdb_request::{
    connection_pragmas_sql, format_optional_duration, has_multiple_sql_statements,
    parse_grpc_timeout_header, preview_sql, remap_deadline_status, GrpcStatus, RequestProgress,
    StatusCode, TimeSpan,
};

fn nanos(d: Duration) -> Option<u128> {
    Some(d.as_nanos())
}

#[test]
fn parse_grpc_timeout_supports_all_units() {
    assert_eq!(parse_grpc_timeout_header("2H").map(|t| t.nanos), nanos(Duration::from_secs(7200)));
    assert_eq!(parse_grpc_timeout_header("3M").map(|t| t.nanos), nanos(Duration::from_secs(180)));
    assert_eq!(parse_grpc_timeout_header("4S").map(|t| t.nanos), nanos(Duration::from_secs(4)));
    assert_eq!(parse_grpc_timeout_header("5m").map(|t| t.nanos), nanos(Duration::from_millis(5)));
    assert_eq!(parse_grpc_timeout_header("6u").map(|t| t.nanos), nanos(Duration::from_micros(6)));
    assert_eq!(parse_grpc_timeout_header("7n").map(|t| t.nanos), nanos(Duration::from_nanos(7)));
}

#[test]
fn parse_grpc_timeout_rejects_invalid_values() {
    assert!(parse_grpc_timeout_header("").is_none());
    assert!(parse_grpc_timeout_header("abc").is_none());
    assert!(parse_grpc_timeout_header("10x").is_none());
}

#[test]
fn preview_sql_compacts_whitespace_and_truncates() {
    let preview = preview_sql("select   *\nfrom   demo\twhere id = 1", 160);
    assert_eq!(preview, "select * from demo where id = 1");

    let long_sql = format!("select {}", "x".repeat(300));
    let preview = preview_sql(&long_sql, 32);
    assert!(preview.ends_with("..."));
    assert!(preview.len() > 10);
}

#[test]
fn preview_keeps_exactly_the_budget_before_the_ellipsis() {
    let long_sql = format!("select {}", "x".repeat(300));
    let preview = preview_sql(&long_sql, 32);
    assert_eq!(preview.chars().count(), 35);
    assert!(preview.starts_with("select xxxx"));
    assert_eq!(preview_sql("  a  ", 10), "a");
}

#[test]
fn timeout_hours_that_overflow_are_refused() {
    assert_eq!(parse_grpc_timeout_header("123456789S").map(|t| t.nanos), nanos(Duration::from_secs(123456789)));
    assert!(parse_grpc_timeout_header("18446744073709551615H").is_none());
    assert!(parse_grpc_timeout_header("S").is_none());
}

#[test]
fn multiple_statements_are_counted_by_nonblank_pieces() {
    assert!(has_multiple_sql_statements("select 1; select 2"));
    assert!(!has_multiple_sql_statements("select 1;"));
    assert!(!has_multiple_sql_statements("select 1;  ;"));
}

#[test]
fn optional_durations_are_shown_in_milliseconds() {
    assert_eq!(format_optional_duration(None), "none");
    assert_eq!(format_optional_duration(Some(TimeSpan::from_millis(1500))), "1500ms");
}

#[test]
fn deadline_failures_become_deadline_exceeded() {
    let status = GrpcStatus { code: StatusCode::Internal, message: "INTERRUPT: query interrupted".to_string() };
    let remapped = remap_deadline_status(status, true);
    assert_eq!(remapped.code, StatusCode::DeadlineExceeded);
    let status = GrpcStatus { code: StatusCode::Internal, message: "INTERRUPT: query interrupted".to_string() };
    let kept = remap_deadline_status(status, false);
    assert_eq!(kept.code, StatusCode::Internal);
}

#[test]
fn pragmas_quote_the_memory_limit() {
    assert_eq!(connection_pragmas_sql("2GB", 4), "PRAGMA memory_limit='2GB'; PRAGMA threads=4;");
}

#[test]
fn progress_keeps_the_last_stage() {
    let mut p = RequestProgress::new("start");
    p.set("execute");
    assert_eq!(p.snapshot(), "execute");
}
