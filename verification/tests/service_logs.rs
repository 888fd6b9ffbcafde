use vldb::duckdb_config::LoggingConfig;
use vldb::duckdb_exec::{
    check_sql, json_done_message, permit_status, plan_execute, script_done_message, statement_done_message,
    status_internal, stream_done_message, ExecutePlan, GateOutcome,
};
use vldb::duckdb_request::{StatusCode, TimeSpan};
use vldb::lancedb_ops::{append_summary, count_rows, merge_summary, nothing_written, plan_upsert, UpsertPlan};
use vldb::request_log::{
    build_request_context, dated_log_file_name, dated_log_path, failed_message, format_remote_addr,
    invalid_argument_message, log_line, millis_timestamp, slow_query_message, started_message,
    succeeded_message, timeout_message,
};

#[test]
fn daily_log_files_carry_the_date() {
    assert_eq!(dated_log_file_name("vldb-duckdb.log", "2024-01-02"), "vldb-duckdb_2024-01-02.log");
    assert_eq!(dated_log_file_name("service", "2024-01-02"), "service_2024-01-02");
    assert_eq!(dated_log_file_name(".hidden", "2024-01-02"), ".hidden_2024-01-02");
    assert_eq!(dated_log_file_name("a.b.log", "d"), "a.b_d.log");
    assert_eq!(dated_log_path("/var/log/vldb", "vldb-lancedb.log", "2025-12-31"), "/var/log/vldb/vldb-lancedb_2025-12-31.log");
}

#[test]
fn log_lines_and_timestamps() {
    assert_eq!(millis_timestamp(5, 7), "5.007");
    assert_eq!(millis_timestamp(1700000000, 123), "1700000000.123");
    assert_eq!(millis_timestamp(0, 45), "0.045");
    assert_eq!(log_line("1.000", "vldb-duckdb", "ok", "done"), "[1.000][vldb-duckdb][ok] done");
    assert_eq!(format_remote_addr(&None), "unknown");
    assert_eq!(format_remote_addr(&Some("10.0.0.1:5000".to_string())), "10.0.0.1:5000");
}

#[test]
fn request_log_messages() {
    let logging = LoggingConfig::default();
    let c = build_request_context(
        7,
        "query_json",
        Some("127.0.0.1:9000".to_string()),
        Some("1500m"),
        "  SELECT   1 ;  ",
        2,
        &logging,
    );
    assert_eq!(c.sql_full, "SELECT   1 ;");
    assert_eq!(c.sql_preview, "SELECT 1 ;");
    assert_eq!(
        started_message(&c).unwrap(),
        "request_id=7 op=query_json remote=127.0.0.1:9000 grpc_timeout=1500ms params_json_bytes=2 sql=\"SELECT 1 ;\""
    );
    let elapsed = TimeSpan { nanos: 2_500_000_000 };
    assert_eq!(
        succeeded_message(&c, elapsed, "fetching_rows", "returned JSON payload (2 bytes)").unwrap(),
        "request_id=7 op=query_json elapsed_ms=2500 remote=127.0.0.1:9000 stage=fetching_rows detail=returned JSON payload (2 bytes) sql=\"SELECT 1 ;\""
    );
    assert_eq!(
        failed_message(&c, elapsed, "preparing_statement", StatusCode::Internal, "bad"),
        "request_id=7 op=query_json elapsed_ms=2500 remote=127.0.0.1:9000 stage=preparing_statement code=Internal message=bad sql=\"SELECT 1 ;\""
    );
    assert_eq!(
        slow_query_message(&c, elapsed, "done", "completed", "x").unwrap(),
        "request_id=7 op=query_json elapsed_ms=2500 threshold_ms=1000 remote=127.0.0.1:9000 stage=done state=completed detail=x sql=\"SELECT   1 ;\""
    );
    assert!(slow_query_message(&c, TimeSpan { nanos: 10 }, "done", "completed", "x").is_none());
    assert!(timeout_message(&c, elapsed, "waiting_for_connection").ends_with("because the gRPC deadline expired"));
    let mut quiet = logging.clone();
    quiet.request_log_enabled = false;
    let c = build_request_context(8, "execute", None, None, "x", 0, &quiet);
    assert!(started_message(&c).is_none());
    assert!(invalid_argument_message(&c, elapsed, "m").is_none());
}

#[test]
fn execution_plans_and_reports() {
    assert_eq!(check_sql(" \n ").unwrap_err().message, "sql must not be empty");
    assert!(check_sql("select 1").is_ok());
    assert_eq!(plan_execute("", 0, "a; b").unwrap(), ExecutePlan::Batch);
    assert_eq!(plan_execute("  ", 0, "a; b").unwrap(), ExecutePlan::Batch);
    assert_eq!(plan_execute("[1, 2]", 2, "select ?").unwrap(), ExecutePlan::Statement);
    assert_eq!(plan_execute("[]", 0, "select 1").unwrap(), ExecutePlan::Batch);
    let given_but_empty = plan_execute("[]", 0, "insert 1; insert 2").unwrap_err();
    assert_eq!(given_but_empty.message, "params_json is only supported for a single SQL statement");
    let e = plan_execute("[1]", 1, "insert 1; insert 2").unwrap_err();
    assert_eq!(e.code, StatusCode::InvalidArgument);
    assert_eq!(e.message, "params_json is only supported for a single SQL statement");
    assert_eq!(script_done_message(), "script executed successfully");
    assert_eq!(statement_done_message(3), "statement executed successfully (rows_changed=3)");
    assert_eq!(stream_done_message(10, 2, 3, 4096), "streamed 10 rows across 2 batches (3 chunks, 4096 bytes)");
    assert_eq!(json_done_message(17), "returned JSON payload (17 bytes)");
    let s = status_internal("duckdb prepare failed", "syntax error");
    assert_eq!(s.code, StatusCode::Internal);
    assert_eq!(s.message, "duckdb prepare failed: syntax error");
    assert!(permit_status(GateOutcome::Granted).is_ok());
    let s = permit_status(GateOutcome::TimedOut).unwrap_err();
    assert_eq!(s.code, StatusCode::DeadlineExceeded);
    assert_eq!(s.message, "DuckDB request exceeded the gRPC deadline while waiting for the shared connection");
    assert_eq!(permit_status(GateOutcome::Closed).unwrap_err().message, "duckdb execution gate is closed");
}

#[test]
fn upsert_plans_and_reports() {
    assert_eq!(plan_upsert(0, 2), UpsertPlan::Nothing);
    assert_eq!(plan_upsert(5, 0), UpsertPlan::Append);
    assert_eq!(plan_upsert(5, 1), UpsertPlan::Merge);
    let n = nothing_written(4);
    assert_eq!((n.message.as_str(), n.version, n.input_rows), ("no rows to write", 4, 0));
    let a = append_summary(5, 12);
    assert_eq!((a.message.as_str(), a.inserted_rows, a.updated_rows), ("append completed", 12, 0));
    let m = merge_summary(6, 12, 2, 9, 1);
    assert_eq!(
        (m.message.as_str(), m.version, m.input_rows, m.inserted_rows, m.updated_rows, m.deleted_rows),
        ("merge upsert completed", 6, 12, 2, 9, 1)
    );
    assert_eq!(count_rows(&vec![3, 0, 7]), 10);
    assert_eq!(count_rows(&Vec::new()), 0);
}
