//! Verified core of the VulcanLocalDB services and their manager.
use vstd::prelude::*;

pub mod text;
pub mod paths;
pub mod duckdb_config;
pub mod duckdb_lock;
pub mod duckdb_request;
pub mod duckdb_stream;
pub mod duckdb_exec;
pub mod lancedb_config;
pub mod json;
pub mod duckdb_values;
pub mod manager_service;
pub mod manager_install;
pub mod versions;
pub mod manager_archive;
pub mod manager_form;
pub mod manager_session;
pub mod lancedb_schema;
pub mod lancedb_ops;
pub mod request_log;
pub mod manager_configure;
pub mod manager_view;
pub mod manager_keys;
pub mod manager_commands;
pub mod manager_reports;

verus! {

} // verus!
