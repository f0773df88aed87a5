//! Query sessions, results and the query queue.

use vstd::prelude::*;
use crate::mysql::{ColumnDefinition, ResultRow};
use crate::text::string_of;

pub mod arrow_results;
pub mod describe;
pub mod executor;
pub mod insert_values;
pub mod queue;

verus! {

/// Which wire protocol a session is using.
#[derive(Debug, Clone, Copy, PartialEq, Eq, Structural)]
pub enum ProtocolType {
    Mysql,
    Postgres,
    Http,
}

/// SQL mode / compatibility flags for the session.
#[derive(Debug, Clone, Copy, PartialEq, Eq, Structural)]
pub enum SqlMode {
    Default,
}

/// Protocol-agnostic session context shared by all frontends, so that
/// MySQL, pgwire and other entrypoints share one execution path while
/// protocol-specific state stays at the edges.
#[derive(Debug, Clone)]
pub struct SessionCtx {
    pub database: Option<String>,
    pub user: String,
    pub sql_mode: SqlMode,
    pub protocol: ProtocolType,
}

impl SessionCtx {
    /// A fresh session: no database, user `root`, MySQL protocol, default
    /// SQL mode, until the frontend sets real values.
    pub fn new() -> (r: Self)
        ensures
            r.database is None,
            r.user@ == "root"@,
            r.sql_mode == SqlMode::Default,
            r.protocol == ProtocolType::Mysql,
    {
        SessionCtx {
            database: None,
            user: string_of("root"),
            sql_mode: SqlMode::Default,
            protocol: ProtocolType::Mysql,
        }
    }
}

/// The result of a query: rows for a SELECT, an affected-row count for DML.
#[derive(Debug, Clone)]
pub struct QueryResult {
    pub is_dml: bool,
    pub affected_rows: u64,
    pub columns: Vec<ColumnDefinition>,
    pub rows: Vec<ResultRow>,
}

impl QueryResult {
    /// A SELECT result with the given columns and rows.
    pub fn new_select(columns: Vec<ColumnDefinition>, rows: Vec<ResultRow>) -> (r: Self)
        ensures
            !r.is_dml,
            r.affected_rows == 0,
            r.columns@ == columns@,
            r.rows@ == rows@,
    {
        QueryResult { is_dml: false, affected_rows: 0, columns, rows }
    }

    /// A DML result that affected `affected_rows` rows.
    pub fn new_dml(affected_rows: u64) -> (r: Self)
        ensures
            r.is_dml,
            r.affected_rows == affected_rows,
            r.columns@.len() == 0,
            r.rows@.len() == 0,
    {
        QueryResult { is_dml: true, affected_rows, columns: Vec::new(), rows: Vec::new() }
    }

    /// An empty, non-DML result.
    pub fn empty() -> (r: Self)
        ensures
            !r.is_dml,
            r.affected_rows == 0,
            r.columns@.len() == 0,
            r.rows@.len() == 0,
    {
        QueryResult { is_dml: false, affected_rows: 0, columns: Vec::new(), rows: Vec::new() }
    }
}

} // verus!
