//! The decisions the DuckDB gateway takes around each call into the
//! database: how a script is run, what a request waiting for the shared
//! connection is answered, and the details its logs report on success.
use vstd::prelude::*;
use crate::duckdb_request::{has_multiple_sql_statements, spec_multiple_statements, GrpcStatus, StatusCode};
use crate::text::{all_ws, concat2, dec, is_blank, push_all, render_u128};

verus! {

/// How `ExecuteScript` runs its SQL.
#[derive(Debug, Clone, Copy, PartialEq, Eq)]
pub enum ExecutePlan {
    /// With nothing bound the whole script runs as one batch.
    Batch,
    /// With bound parameters the SQL runs as one prepared statement.
    Statement,
}

pub open spec fn single_statement_message() -> Seq<char> {
    "params_json is only supported for a single SQL statement"@
}

/// Every call needs SQL to run: blank SQL is refused.
pub fn check_sql(sql: &str) -> (r: Result<(), GrpcStatus>)
    ensures
        all_ws(sql@) ==> (r matches Err(s) && s.code == StatusCode::InvalidArgument && s.message@
            == "sql must not be empty"@),
        !all_ws(sql@) ==> r is Ok,
{
    if is_blank(sql) {
        return Err(
            GrpcStatus { code: StatusCode::InvalidArgument, message: String::from_str("sql must not be empty") },
        );
    }
    Ok(())
}

/// Chooses how to run a script, given the `params_json` text and the number
/// of parameters it binds: a script of several statements cannot take a
/// given `params_json`; otherwise it runs as one batch when nothing is bound
/// and as one prepared statement when something is.
pub fn plan_execute(params_json: &str, param_count: usize, sql: &str) -> (r: Result<ExecutePlan, GrpcStatus>)
    ensures
        all_ws(params_json@) ==> r == Ok::<ExecutePlan, GrpcStatus>(ExecutePlan::Batch),
        !all_ws(params_json@) && spec_multiple_statements(sql@) ==> (r matches Err(s) && s.code
            == StatusCode::InvalidArgument && s.message@ == single_statement_message()),
        !all_ws(params_json@) && !spec_multiple_statements(sql@) && param_count == 0 ==> r == Ok::<
            ExecutePlan,
            GrpcStatus,
        >(ExecutePlan::Batch),
        !all_ws(params_json@) && !spec_multiple_statements(sql@) && param_count > 0 ==> r == Ok::<
            ExecutePlan,
            GrpcStatus,
        >(ExecutePlan::Statement),
{
    if is_blank(params_json) {
        return Ok(ExecutePlan::Batch);
    }
    if has_multiple_sql_statements(sql) {
        return Err(
            GrpcStatus {
                code: StatusCode::InvalidArgument,
                message: String::from_str("params_json is only supported for a single SQL statement"),
            },
        );
    }
    if param_count == 0 {
        return Ok(ExecutePlan::Batch);
    }
    Ok(ExecutePlan::Statement)
}

/// What a batch run reports.
pub fn script_done_message() -> (r: String)
    ensures
        r@ == "script executed successfully"@,
{
    String::from_str("script executed successfully")
}

pub open spec fn spec_statement_done(rows_changed: nat) -> Seq<char> {
    "statement executed successfully (rows_changed="@ + dec(rows_changed) + ")"@
}

/// What a prepared statement reports, with the rows it changed.
pub fn statement_done_message(rows_changed: usize) -> (r: String)
    ensures
        r@ == spec_statement_done(rows_changed as nat),
{
    let mut m = String::from_str("statement executed successfully (rows_changed=");
    push_all(&mut m, &render_u128(rows_changed as u128));
    push_all(&mut m, ")");
    m
}

pub open spec fn spec_stream_done(rows: nat, batches: nat, chunks: nat, bytes: nat) -> Seq<char> {
    "streamed "@ + dec(rows) + " rows across "@ + dec(batches) + " batches ("@ + dec(chunks)
        + " chunks, "@ + dec(bytes) + " bytes)"@
}

/// What a streamed query reports: rows and record batches read, chunks and
/// bytes sent.
pub fn stream_done_message(rows: usize, batches: usize, chunks: usize, bytes: usize) -> (r: String)
    ensures
        r@ == spec_stream_done(rows as nat, batches as nat, chunks as nat, bytes as nat),
{
    let mut m = String::from_str("streamed ");
    push_all(&mut m, &render_u128(rows as u128));
    push_all(&mut m, " rows across ");
    push_all(&mut m, &render_u128(batches as u128));
    push_all(&mut m, " batches (");
    push_all(&mut m, &render_u128(chunks as u128));
    push_all(&mut m, " chunks, ");
    push_all(&mut m, &render_u128(bytes as u128));
    push_all(&mut m, " bytes)");
    m
}

pub open spec fn spec_json_done(bytes: nat) -> Seq<char> {
    "returned JSON payload ("@ + dec(bytes) + " bytes)"@
}

/// What a JSON query reports, with the size of its payload.
pub fn json_done_message(bytes: usize) -> (r: String)
    ensures
        r@ == spec_json_done(bytes as nat),
{
    let mut m = String::from_str("returned JSON payload (");
    push_all(&mut m, &render_u128(bytes as u128));
    push_all(&mut m, " bytes)");
    m
}

/// An internal failure of a step, with the error's text after the step's
/// description.
pub fn status_internal(prefix: &str, error: &str) -> (r: GrpcStatus)
    ensures
        r.code == StatusCode::Internal,
        r.message@ == prefix@ + ": "@ + error@,
{
    let mut m = concat2(prefix, ": ");
    push_all(&mut m, error);
    GrpcStatus { code: StatusCode::Internal, message: m }
}

/// How the wait for the shared connection ended.
#[derive(Debug, Clone, Copy, PartialEq, Eq)]
pub enum GateOutcome {
    /// A permit was granted.
    Granted,
    /// The semaphore guarding the connection was closed.
    Closed,
    /// The request's deadline passed first.
    TimedOut,
}

pub open spec fn gate_closed_message() -> Seq<char> {
    "duckdb execution gate is closed"@
}

pub open spec fn gate_timeout_message() -> Seq<char> {
    "DuckDB request exceeded the gRPC deadline while waiting for the shared connection"@
}

/// What a request that waited for the shared connection is answered: it
/// goes on with a permit, fails as `INTERNAL` when the semaphore closed, and as
/// `DEADLINE_EXCEEDED` when its deadline passed first.
pub fn permit_status(outcome: GateOutcome) -> (r: Result<(), GrpcStatus>)
    ensures
        outcome == GateOutcome::Granted <==> r is Ok,
        outcome == GateOutcome::Closed ==> (r matches Err(s) && s.code == StatusCode::Internal
            && s.message@ == gate_closed_message()),
        outcome == GateOutcome::TimedOut ==> (r matches Err(s) && s.code == StatusCode::DeadlineExceeded
            && s.message@ == gate_timeout_message()),
{
    match outcome {
        GateOutcome::Granted => Ok(()),
        GateOutcome::Closed => Err(
            GrpcStatus { code: StatusCode::Internal, message: String::from_str("duckdb execution gate is closed") },
        ),
        GateOutcome::TimedOut => Err(
            GrpcStatus {
                code: StatusCode::DeadlineExceeded,
                message: String::from_str(
                    "DuckDB request exceeded the gRPC deadline while waiting for the shared connection",
                ),
            },
        ),
    }
}

} // verus!
