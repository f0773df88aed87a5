//! SQL syntax checks: whether a text parses as SQL, and what a regression
//! case expects of it.

use vstd::prelude::*;
use sqlparser::dialect::GenericDialect;
use sqlparser::ast::Statement;
use sqlparser::parser::Parser;
use crate::text::{contains_seq, push_str, str_contains, string_of};

verus! {

/// The kind of a parsed statement.
#[derive(Debug, Clone, Copy, PartialEq, Eq, Structural)]
pub enum StatementKind {
    Query,
    Insert,
    Update,
    Delete,
    CreateTable,
    Drop,
    AlterTable,
    Other,
}

/// What the SQL parser makes of a text, with the generic dialect: the kinds
/// of the statements it read, in order, or the `Debug` rendering of its
/// error.
pub uninterp spec fn generic_parse(sql: Seq<char>) -> Result<Seq<StatementKind>, Seq<char>>;

/// Parses `sql` with sqlparser's `Parser::parse_sql` and the generic
/// dialect, keeping the kind of each statement (one kind per `Statement`
/// variant named here, `Other` for the rest). Claimed: the outcome depends
/// on the text alone (named by `generic_parse`); the error is the `Debug`
/// rendering of the `ParserError`.
#[verifier::external_body]
pub(crate) fn parse_statement_kinds(sql: &str) -> (r: Result<Vec<StatementKind>, String>)
    ensures
        match r {
            Ok(v) => generic_parse(sql@) == Ok::<Seq<StatementKind>, Seq<char>>(v@),
            Err(e) => generic_parse(sql@) == Err::<Seq<StatementKind>, Seq<char>>(e@),
        },
{
    match Parser::parse_sql(&GenericDialect {}, sql) {
        Ok(statements) => Ok(statements.iter().map(|s| match s {
            Statement::Query(_) => StatementKind::Query,
            Statement::Insert(_) => StatementKind::Insert,
            Statement::Update(_) => StatementKind::Update,
            Statement::Delete(_) => StatementKind::Delete,
            Statement::CreateTable(_) => StatementKind::CreateTable,
            Statement::Drop { .. } => StatementKind::Drop,
            Statement::AlterTable(_) => StatementKind::AlterTable,
            _ => StatementKind::Other,
        }).collect()),
        Err(e) => Err(format!("{:?}", e)),
    }
}

/// The number of statements of a parse, or its error.
pub open spec fn parse_count(outcome: Result<Seq<StatementKind>, Seq<char>>) -> Result<nat, Seq<char>> {
    match outcome {
        Ok(kinds) => Ok(kinds.len()),
        Err(e) => Err(e),
    }
}

/// The number of statements of a parse, or its error.
fn statement_count(parsed: Result<Vec<StatementKind>, String>) -> (r: Result<usize, String>)
    ensures
        match (parsed, r) {
            (Ok(v), Ok(n)) => n == v@.len(),
            (Err(e), Err(m)) => m == e,
            _ => false,
        },
{
    match parsed {
        Ok(v) => Ok(v.len()),
        Err(e) => Err(e),
    }
}

/// The syntax verdict for a parse outcome: fine when at least one statement
/// was read.
pub open spec fn syntax_verdict_spec(outcome: Result<nat, Seq<char>>) -> Result<(), Seq<char>> {
    match outcome {
        Ok(n) => if n == 0 {
            Err("No SQL statements parsed"@)
        } else {
            Ok(())
        },
        Err(e) => Err("SQL parsing error: "@ + e),
    }
}

/// The syntax verdict for a parse outcome (see `syntax_verdict_spec`).
pub fn syntax_verdict(outcome: Result<usize, String>) -> (r: Result<(), String>)
    ensures
        match (outcome, r) {
            (Ok(n), Ok(())) => syntax_verdict_spec(Ok(n as nat)) == Ok::<(), Seq<char>>(()),
            (Ok(n), Err(m)) => syntax_verdict_spec(Ok(n as nat)) == Err::<(), Seq<char>>(m@),
            (Err(e), Ok(())) => syntax_verdict_spec(Err(e@)) == Ok::<(), Seq<char>>(()),
            (Err(e), Err(m)) => syntax_verdict_spec(Err(e@)) == Err::<(), Seq<char>>(m@),
        },
{
    match outcome {
        Ok(n) => {
            if n == 0 {
                Err(string_of("No SQL statements parsed"))
            } else {
                Ok(())
            }
        },
        Err(e) => {
            let mut m = string_of("SQL parsing error: ");
            push_str(&mut m, &e);
            Err(m)
        },
    }
}

/// Whether `sql` is valid SQL: `Ok` when it parses into at least one
/// statement, else an error message (see `syntax_verdict_spec`).
pub fn parse_sql(sql: &str) -> (r: Result<(), String>)
    ensures
        match r {
            Ok(()) => syntax_verdict_spec(parse_count(generic_parse(sql@))) == Ok::<(), Seq<char>>(()),
            Err(m) => syntax_verdict_spec(parse_count(generic_parse(sql@))) == Err::<(), Seq<char>>(m@),
        },
{
    let outcome = statement_count(parse_statement_kinds(sql));
    syntax_verdict(outcome)
}

/// What a regression case expects of its SQL.
#[derive(Debug, Clone, PartialEq)]
pub enum ExpectedResult {
    Success,
    RowCount(usize),
    Error(String),
    Contains(Vec<String>),
}

/// The outcome of a regression case whose SQL parsed as `outcome`.
pub open spec fn test_verdict_spec(outcome: Result<nat, Seq<char>>, expected: ExpectedResult) -> Result<
    (),
    Seq<char>,
> {
    match outcome {
        Ok(n) => if n == 0 {
            Err("No statements parsed"@)
        } else {
            match expected {
                ExpectedResult::Error(_) => Err("Expected error but query succeeded"@),
                _ => Ok(()),
            }
        },
        Err(e) => match expected {
            ExpectedResult::Error(msg) => if contains_seq(e, msg@) {
                Ok(())
            } else {
                Err("Expected error '"@ + msg@ + "', got "@ + e)
            },
            _ => Err("Unexpected parse error: "@ + e),
        },
    }
}

/// The outcome of a regression case whose SQL parsed as `outcome` (see
/// `test_verdict_spec`).
pub fn test_verdict(outcome: Result<usize, String>, expected: ExpectedResult) -> (r: Result<(), String>)
    ensures
        ({
            let o = match outcome {
                Ok(n) => Ok::<nat, Seq<char>>(n as nat),
                Err(e) => Err::<nat, Seq<char>>(e@),
            };
            match r {
                Ok(()) => test_verdict_spec(o, expected) == Ok::<(), Seq<char>>(()),
                Err(m) => test_verdict_spec(o, expected) == Err::<(), Seq<char>>(m@),
            }
        }),
{
    match outcome {
        Ok(n) => {
            if n == 0 {
                Err(string_of("No statements parsed"))
            } else {
                match expected {
                    ExpectedResult::Error(_) => Err(string_of("Expected error but query succeeded")),
                    _ => Ok(()),
                }
            }
        },
        Err(e) => match expected {
            ExpectedResult::Error(msg) => {
                if str_contains(&e, &msg) {
                    Ok(())
                } else {
                    let mut m = string_of("Expected error '");
                    push_str(&mut m, &msg);
                    push_str(&mut m, "', got ");
                    push_str(&mut m, &e);
                    Err(m)
                }
            },
            _ => {
                let mut m = string_of("Unexpected parse error: ");
                push_str(&mut m, &e);
                Err(m)
            },
        },
    }
}

/// Runs a regression case: parses `sql` and checks the outcome against
/// what the case expects (see `test_verdict_spec`).
pub fn execute_test(sql: &str, expected: ExpectedResult) -> (r: Result<(), String>)
    ensures
        match r {
            Ok(()) => test_verdict_spec(parse_count(generic_parse(sql@)), expected) == Ok::<(), Seq<char>>(()),
            Err(m) => test_verdict_spec(parse_count(generic_parse(sql@)), expected) == Err::<(), Seq<char>>(m@),
        },
{
    let outcome = statement_count(parse_statement_kinds(sql));
    test_verdict(outcome, expected)
}

} // verus!
