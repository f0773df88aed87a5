//! The decisions of query execution that do not depend on where a query
//! runs: which path a statement takes, what a DML statement reports, and
//! the result given when no planner is configured.

use vstd::prelude::*;
use crate::error::DorisError;
use crate::mysql::{ColumnDefinition, ColumnType, ResultRow};
use crate::query::insert_values::{
    count_insert_values_rows, insert_values_outcome, parse_insert_values, CatalogTable,
    ParsedInsert,
};
use crate::query::QueryResult;
use crate::sql_syntax::{generic_parse, parse_statement_kinds, StatementKind};
use crate::text::{str_eq, string_of};

verus! {

/// The execution path of a statement.
#[derive(Debug, Clone, Copy, PartialEq, Eq, Structural)]
pub enum StatementRoute {
    /// A query: planned and executed for rows.
    Select,
    /// `INSERT`, `UPDATE` or `DELETE`.
    Dml,
    /// `CREATE TABLE`, `DROP` or `ALTER TABLE`.
    Ddl,
    /// Anything else (`SHOW`, `SET`, ...), answered by the protocol layer.
    Other,
}

/// The execution path of a statement of the given kind: queries are
/// selected, `INSERT`/`UPDATE`/`DELETE` are DML, `CREATE TABLE`/`DROP`/
/// `ALTER TABLE` are DDL.
pub open spec fn route_of(kind: StatementKind) -> StatementRoute {
    match kind {
        StatementKind::Query => StatementRoute::Select,
        StatementKind::Insert | StatementKind::Update | StatementKind::Delete => StatementRoute::Dml,
        StatementKind::CreateTable | StatementKind::Drop | StatementKind::AlterTable => StatementRoute::Ddl,
        StatementKind::Other => StatementRoute::Other,
    }
}

/// The execution path of a statement of the given kind (see `route_of`).
pub fn route_of_kind(kind: StatementKind) -> (r: StatementRoute)
    ensures
        r == route_of(kind),
{
    match kind {
        StatementKind::Query => StatementRoute::Select,
        StatementKind::Insert | StatementKind::Update | StatementKind::Delete => StatementRoute::Dml,
        StatementKind::CreateTable | StatementKind::Drop | StatementKind::AlterTable => StatementRoute::Ddl,
        StatementKind::Other => StatementRoute::Other,
    }
}

/// The route of the first statement of a parse, or the message of the
/// error that refuses it.
pub open spec fn route_outcome(parsed: Result<Seq<StatementKind>, Seq<char>>) -> Result<StatementRoute, Seq<char>> {
    match parsed {
        Err(e) => Err("SQL parsing error: "@ + e),
        Ok(kinds) => if kinds.len() == 0 {
            Err("Empty query"@)
        } else {
            Ok(route_of(kinds[0]))
        },
    }
}

fn query_error(message: &str) -> (r: DorisError)
    ensures
        r matches DorisError::QueryExecution(m) && m@ == message@,
{
    DorisError::QueryExecution(string_of(message))
}

/// The execution path of the first statement of `sql` (see
/// `route_outcome`).
pub fn route_statement(sql: &str) -> (r: Result<StatementRoute, DorisError>)
    ensures
        match r {
            Ok(route) => route_outcome(generic_parse(sql@)) == Ok::<StatementRoute, Seq<char>>(route),
            Err(DorisError::QueryExecution(m)) => route_outcome(generic_parse(sql@)) == Err::<
                StatementRoute,
                Seq<char>,
            >(m@),
            Err(DorisError::QueueFull) => false,
        },
{
    let kinds = match parse_statement_kinds(sql) {
        Ok(v) => v,
        Err(e) => {
            let mut m = string_of("SQL parsing error: ");
            crate::text::push_str(&mut m, &e);
            return Err(DorisError::QueryExecution(m));
        },
    };
    if kinds.len() == 0 {
        return Err(query_error("Empty query"));
    }
    Ok(route_of_kind(kinds[0]))
}

/// A statement that a load reads (`parse_insert_values` succeeds on it) is
/// routed as DML by `route_statement`.
pub proof fn lemma_loaded_statement_is_dml(sql: Seq<char>, catalog: Seq<CatalogTable>)
    requires
        insert_values_outcome(sql, catalog) is Ok,
    ensures
        route_outcome(generic_parse(sql)) == Ok::<StatementRoute, Seq<char>>(StatementRoute::Dml),
{
}

/// What to do for a DML statement.
pub enum DmlAction {
    /// Load the rows into `tpch.lineitem` on the backends.
    LoadLineitem(ParsedInsert),
    /// Report this many affected rows.
    Affected(u64),
}

/// The action for a DML statement: with backends, an `INSERT ... VALUES`
/// into `tpch.lineitem` is loaded; otherwise a readable `INSERT` reports its
/// number of rows, and anything else reports 1 row.
pub fn plan_dml(sql: &str, catalog: &Vec<CatalogTable>, backend_count: usize) -> (r: DmlAction)
    ensures
        match insert_values_outcome(sql@, catalog@) {
            Ok(p) => if backend_count > 0 && p.database == "tpch"@ && p.table == "lineitem"@ {
                r matches DmlAction::LoadLineitem(q) && q@ == p
            } else {
                r matches DmlAction::Affected(n) && n == p.rows.len() as u64
            },
            Err(_) => r matches DmlAction::Affected(n) && n == 1,
        },
{
    if backend_count > 0 {
        match parse_insert_values(sql, catalog) {
            Ok(parsed) => {
                if str_eq(&parsed.database, "tpch") && str_eq(&parsed.table, "lineitem") {
                    return DmlAction::LoadLineitem(parsed);
                }
                return DmlAction::Affected(parsed.rows.len() as u64);
            },
            Err(_) => {},
        }
    }
    match count_insert_values_rows(sql, catalog) {
        Some(n) => DmlAction::Affected(n),
        None => DmlAction::Affected(1),
    }
}

/// The result of a DDL statement: no rows affected.
pub fn ddl_result() -> (r: QueryResult)
    ensures
        r.is_dml && r.affected_rows == 0 && r.columns@.len() == 0 && r.rows@.len() == 0,
{
    QueryResult::new_dml(0)
}

/// The result of a query when no planner is configured: one `message`
/// column with one row saying so.
pub fn mock_select_result() -> (r: QueryResult)
    ensures
        !r.is_dml,
        r.columns@.len() == 1,
        r.columns@[0].name@ == "message"@,
        r.columns@[0].column_type == crate::mysql::column_type_code(ColumnType::VarString),
        r.rows@.len() == 1,
        r.rows@[0].values@.len() == 1,
        r.rows@[0].values@[0] matches Some(m) && m@ == "DataFusion not initialized - use with_datafusion()"@,
{
    let columns = vec![ColumnDefinition::new(string_of("message"), ColumnType::VarString)];
    let rows = vec![ResultRow::new(vec![Some(string_of("DataFusion not initialized - use with_datafusion()"))])];
    QueryResult::new_select(columns, rows)
}

} // verus!
