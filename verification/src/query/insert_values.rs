//! Simple `INSERT ... VALUES` statements read into rows of text, the form
//! in which a load hands them to the backends.

use vstd::prelude::*;
use sqlparser::ast::{Expr as SqlExpr, SetExpr, Statement, Value as SqlValue, Values};
use sqlparser::dialect::GenericDialect;
use sqlparser::parser::Parser;
use crate::error::DorisError;
use crate::sql_syntax::{generic_parse, StatementKind};
use crate::text::{nat_digits, push_str, push_u64_digits, str_eq, string_of};

verus! {

/// The rows of a `VALUES` list (an outside type; what it holds is read by
/// name, `values_cells`).
#[verifier::external_type_specification]
#[verifier::external_body]
pub struct ExValues(sqlparser::ast::Values);

/// A value of a `VALUES` row, as the statement writes it (see `SqlCell`).
pub enum SqlCellModel {
    Number(Seq<char>),
    Text(Seq<char>),
    Boolean(bool),
    Other(Seq<char>),
}

/// The values of each row of a `VALUES` list, in order.
pub uninterp spec fn values_cells(v: Values) -> Seq<Seq<SqlCellModel>>;

/// The number of values in each row of a `VALUES` list.
pub open spec fn values_row_lengths(v: Values) -> Seq<nat> {
    values_cells(v).map_values(|row: Seq<SqlCellModel>| row.len())
}

/// Parsed representation of a simple `INSERT ... VALUES` statement: the
/// boundary that any backend load integration is called through.
#[derive(Debug, Clone, PartialEq, Eq)]
pub struct ParsedInsert {
    pub database: String,
    pub table: String,
    pub columns: Vec<String>,
    pub rows: Vec<Vec<String>>,
}

/// A table of the catalog, with its columns in order.
#[derive(Debug, Clone)]
pub struct CatalogTable {
    pub database: String,
    pub table: String,
    pub columns: Vec<String>,
}

/// A value of a `VALUES` row, as the statement writes it.
#[derive(Debug, Clone)]
pub enum SqlCell {
    /// A number literal, as written.
    Number(String),
    /// A single-quoted string literal, without its quotes.
    Text(String),
    /// `TRUE` or `FALSE`.
    Boolean(bool),
    /// Any other expression, rendered back as SQL.
    Other(String),
}

/// What an `INSERT` reads its rows from.
pub enum InsertSource {
    /// No source at all.
    Missing,
    /// A query that is not a `VALUES` list.
    NotValues,
    /// A `VALUES` list.
    Rows(Vec<Vec<SqlCell>>),
}

/// The source of an `INSERT`, with its `VALUES` list not yet read.
pub enum SqlInsertSource {
    Missing,
    NotValues,
    Rows(Values),
}

/// What the first statement of a text is, as far as a load reads it.
pub enum InsertRead {
    /// The text holds no statement.
    NoStatement,
    /// The first statement is not an `INSERT`.
    NotInsert,
    /// An `INSERT` into `table` (as SQL), with its listed columns (as SQL)
    /// and its source.
    Insert { table: String, columns: Vec<String>, source: SqlInsertSource },
}

/// What an `INSERT` reads its rows from.
pub enum InsertSourceModel {
    Missing,
    NotValues,
    Rows(Seq<Seq<SqlCellModel>>),
}

/// What the SQL parser, with the generic dialect, reads of the first
/// statement of a text when it is an `INSERT`: its table and listed columns
/// (as SQL) and its source.
pub uninterp spec fn generic_insert_parts(sql: Seq<char>) -> (Seq<char>, Seq<Seq<char>>, InsertSourceModel);

pub open spec fn cell_model(c: SqlCell) -> SqlCellModel {
    match c {
        SqlCell::Number(n) => SqlCellModel::Number(n@),
        SqlCell::Text(s) => SqlCellModel::Text(s@),
        SqlCell::Boolean(b) => SqlCellModel::Boolean(b),
        SqlCell::Other(s) => SqlCellModel::Other(s@),
    }
}

pub open spec fn source_model(s: InsertSource) -> InsertSourceModel {
    match s {
        InsertSource::Missing => InsertSourceModel::Missing,
        InsertSource::NotValues => InsertSourceModel::NotValues,
        InsertSource::Rows(rows) => InsertSourceModel::Rows(
            rows@.map_values(|r: Vec<SqlCell>| r@.map_values(|c: SqlCell| cell_model(c))),
        ),
    }
}

pub open spec fn sql_source_model(s: SqlInsertSource) -> InsertSourceModel {
    match s {
        SqlInsertSource::Missing => InsertSourceModel::Missing,
        SqlInsertSource::NotValues => InsertSourceModel::NotValues,
        SqlInsertSource::Rows(v) => InsertSourceModel::Rows(values_cells(v)),
    }
}

pub struct ParsedInsertModel {
    pub database: Seq<char>,
    pub table: Seq<char>,
    pub columns: Seq<Seq<char>>,
    pub rows: Seq<Seq<Seq<char>>>,
}

impl View for ParsedInsert {
    type V = ParsedInsertModel;

    open spec fn view(&self) -> ParsedInsertModel {
        ParsedInsertModel {
            database: self.database@,
            table: self.table@,
            columns: texts(self.columns@),
            rows: self.rows@.map_values(|row: Vec<String>| texts(row@)),
        }
    }
}

pub open spec fn texts(s: Seq<String>) -> Seq<Seq<char>> {
    s.map_values(|x: String| x@)
}

/// The text a load sends for a value: numbers as written, strings without
/// quotes, booleans as `1` and `0`, anything else as SQL.
pub open spec fn cell_text(c: SqlCellModel) -> Seq<char> {
    match c {
        SqlCellModel::Number(n) => n,
        SqlCellModel::Text(s) => s,
        SqlCellModel::Boolean(b) => if b {
            "1"@
        } else {
            "0"@
        },
        SqlCellModel::Other(s) => s,
    }
}

pub open spec fn row_texts(row: Seq<SqlCellModel>) -> Seq<Seq<char>> {
    row.map_values(|c: SqlCellModel| cell_text(c))
}

/// No character of `s` is a dot.
pub open spec fn no_dot(s: Seq<char>) -> bool {
    forall|i: int| 0 <= i < s.len() ==> s[i] != '.'
}

/// `k` is the only dot of `s`.
pub open spec fn sole_dot(s: Seq<char>, k: int) -> bool {
    0 <= k < s.len() && s[k] == '.' && no_dot(s.subrange(0, k)) && no_dot(
        s.subrange(k + 1, s.len() as int),
    )
}

/// The (database, table) that a table name splits into at its dots: a bare
/// name is in `tpch`, `db.table` splits at the dot, more dots are refused.
pub open spec fn split_table_name(name: Seq<char>) -> Option<(Seq<char>, Seq<char>)> {
    if no_dot(name) {
        Some(("tpch"@, name))
    } else if exists|k: int| sole_dot(name, k) {
        let k = choose|k: int| sole_dot(name, k);
        Some((name.subrange(0, k), name.subrange(k + 1, name.len() as int)))
    } else {
        None
    }
}

/// The columns of `database.table` in the catalog: those of the first entry
/// for that table.
pub open spec fn catalog_columns(catalog: Seq<CatalogTable>, database: Seq<char>, table: Seq<char>) -> Option<
    Seq<Seq<char>>,
>
    decreases catalog.len(),
{
    if catalog.len() == 0 {
        None
    } else if catalog[0].database@ == database && catalog[0].table@ == table {
        Some(texts(catalog[0].columns@))
    } else {
        catalog_columns(catalog.drop_first(), database, table)
    }
}

/// The length of the first row that does not have `n` values, if any.
pub open spec fn first_bad_row(rows: Seq<Seq<SqlCellModel>>, n: nat) -> Option<nat>
    decreases rows.len(),
{
    if rows.len() == 0 {
        None
    } else {
        match first_bad_row(rows.drop_last(), n) {
            Some(l) => Some(l),
            None => if rows.last().len() != n {
                Some(rows.last().len())
            } else {
                None
            },
        }
    }
}

/// The rows a load gets from an `INSERT` into `full_name` with the listed
/// columns (the catalog's when none is listed) and the given source, or the
/// message of the error that refuses it.
pub open spec fn insert_outcome(
    full_name: Seq<char>,
    columns: Seq<Seq<char>>,
    catalog: Seq<CatalogTable>,
    source: InsertSourceModel,
) -> Result<ParsedInsertModel, Seq<char>> {
    match split_table_name(full_name) {
        None => Err("Invalid table name in INSERT: "@ + full_name),
        Some((database, table)) => {
            let names = if columns.len() == 0 {
                catalog_columns(catalog, database, table)
            } else {
                Some(columns)
            };
            match names {
                None => Err("Table '"@ + database + "."@ + table + "' not found for INSERT"@),
                Some(names) => match source {
                    InsertSourceModel::Missing => Err("INSERT must have a source"@),
                    InsertSourceModel::NotValues => Err("Only VALUES clause is supported for load"@),
                    InsertSourceModel::Rows(rows) => {
                        match first_bad_row(rows, names.len()) {
                            Some(l) => Err("VALUES row has "@ + nat_digits(l) + " columns, expected "@
                                + nat_digits(names.len())),
                            None => Ok(
                                ParsedInsertModel {
                                    database,
                                    table,
                                    columns: names,
                                    rows: rows.map_values(|r: Seq<SqlCellModel>| row_texts(r)),
                                },
                            ),
                        }
                    },
                },
            }
        },
    }
}

/// Parses `sql` with sqlparser's `Parser::parse_sql` and the generic
/// dialect, and reads its first statement for a load: whether there is one,
/// whether it is an `INSERT`, and then its table and listed columns as SQL
/// (sqlparser's `Display`) and its source. Claimed: the parse is the one
/// that `generic_parse` names (the same call on the same text), and the
/// parts of an `INSERT` depend on the text alone (named by
/// `generic_insert_parts`); the error is the `Debug` rendering of the
/// `ParserError`.
#[verifier::external_body]
fn read_insert(sql: &str) -> (r: Result<InsertRead, String>)
    ensures
        match r {
            Err(e) => generic_parse(sql@) == Err::<Seq<StatementKind>, Seq<char>>(e@),
            Ok(InsertRead::NoStatement) => generic_parse(sql@) == Ok::<Seq<StatementKind>, Seq<char>>(
                Seq::empty(),
            ),
            Ok(InsertRead::NotInsert) => generic_parse(sql@) matches Ok(kinds) && kinds.len() > 0
                && kinds[0] != StatementKind::Insert,
            Ok(InsertRead::Insert { table, columns, source }) => generic_parse(sql@) matches Ok(kinds)
                && kinds.len() > 0 && kinds[0] == StatementKind::Insert && generic_insert_parts(sql@) == (
                table@,
                texts(columns@),
                sql_source_model(source),
            ),
        },
{
    let statements = Parser::parse_sql(&GenericDialect {}, sql).map_err(|e| format!("{:?}", e))?;
    let insert = match statements.first() {
        Some(Statement::Insert(insert)) => insert,
        Some(_) => return Ok(InsertRead::NotInsert),
        None => return Ok(InsertRead::NoStatement),
    };
    let source = match insert.source.as_ref().map(|q| &*q.body) {
        None => SqlInsertSource::Missing,
        Some(SetExpr::Values(v)) => SqlInsertSource::Rows(v.clone()),
        Some(_) => SqlInsertSource::NotValues,
    };
    let columns = insert.columns.iter().map(|c| c.to_string()).collect();
    Ok(InsertRead::Insert { table: insert.table.to_string(), columns, source })
}

/// The number of rows of a `VALUES` list (`Vec::len` of its rows).
#[verifier::external_body]
fn values_row_count(v: &Values) -> (r: usize)
    ensures
        r == values_row_lengths(*v).len(),
{
    v.rows.len()
}

/// The number of values of row `i` of a `VALUES` list.
#[verifier::external_body]
fn values_row_len(v: &Values, i: usize) -> (r: usize)
    requires
        i < values_row_lengths(*v).len(),
    ensures
        r == values_row_lengths(*v)[i as int],
{
    v.rows[i].content.len()
}

/// Value `j` of row `i` of a `VALUES` list: number, single-quoted string and
/// boolean literals by their parts, anything else rendered as SQL
/// (sqlparser's `Display`); it is the value that `values_cells` records.
#[verifier::external_body]
fn values_cell(v: &Values, i: usize, j: usize) -> (r: SqlCell)
    requires
        i < values_row_lengths(*v).len(),
        j < values_row_lengths(*v)[i as int],
    ensures
        cell_model(r) == values_cells(*v)[i as int][j as int],
{
    match &v.rows[i].content[j] {
        SqlExpr::Value(x) => match &x.value {
            SqlValue::Number(n, _) => SqlCell::Number(n.clone()),
            SqlValue::SingleQuotedString(s) => SqlCell::Text(s.clone()),
            SqlValue::Boolean(b) => SqlCell::Boolean(*b),
            _ => SqlCell::Other(v.rows[i].content[j].to_string()),
        },
        e => SqlCell::Other(e.to_string()),
    }
}

fn query_error(message: String) -> (r: DorisError)
    ensures
        r matches DorisError::QueryExecution(m) && m@ == message@,
{
    DorisError::QueryExecution(message)
}

/// Splits a table name at its dots (see `split_table_name`).
pub fn split_table(name: &str) -> (r: Option<(String, String)>)
    ensures
        match r {
            Some((d, t)) => split_table_name(name@) == Some((d@, t@)),
            None => split_table_name(name@) is None,
        },
{
    let cs = crate::text::chars_of(name);
    let mut first: usize = 0;
    while first < cs.len() && cs[first] != '.'
        invariant
            cs@ == name@,
            first <= cs.len(),
            no_dot(name@.subrange(0, first as int)),
        decreases cs.len() - first,
    {
        assert(name@.subrange(0, first + 1) =~= name@.subrange(0, first as int).push(name@[first as int]));
        first = first + 1;
    }
    if first == cs.len() {
        assert(name@.subrange(0, first as int) =~= name@);
        return Some((string_of("tpch"), string_of(name)));
    }
    let mut j: usize = first + 1;
    while j < cs.len()
        invariant
            cs@ == name@,
            first < cs.len(),
            first + 1 <= j <= cs.len(),
            name@[first as int] == '.',
            no_dot(name@.subrange(0, first as int)),
            no_dot(name@.subrange(first + 1, j as int)),
        decreases cs.len() - j,
    {
        if cs[j] == '.' {
            proof {
                assert(!no_dot(name@));
                assert forall|k: int| !sole_dot(name@, k) by {
                    if sole_dot(name@, k) {
                        if k < first {
                            assert(name@.subrange(k + 1, name@.len() as int)[first - k - 1] == '.');
                        } else if k > first {
                            assert(name@.subrange(0, k)[first as int] == '.');
                        } else {
                            assert(name@.subrange(k + 1, name@.len() as int)[j - k - 1] == '.');
                        }
                    }
                }
            }
            return None;
        }
        assert(name@.subrange(first + 1, j + 1) =~= name@.subrange(first + 1, j as int).push(
            name@[j as int],
        ));
        j = j + 1;
    }
    let mut database = String::new();
    let mut table = String::new();
    let mut i: usize = 0;
    while i < first
        invariant
            cs@ == name@,
            i <= first < cs.len(),
            database@ == name@.subrange(0, i as int),
        decreases first - i,
    {
        crate::text::push_char(&mut database, cs[i]);
        assert(name@.subrange(0, i + 1) =~= name@.subrange(0, i as int).push(name@[i as int]));
        i = i + 1;
    }
    let mut i: usize = first + 1;
    while i < cs.len()
        invariant
            cs@ == name@,
            first < cs.len(),
            first + 1 <= i <= cs.len(),
            table@ == name@.subrange(first + 1, i as int),
        decreases cs.len() - i,
    {
        crate::text::push_char(&mut table, cs[i]);
        assert(name@.subrange(first + 1, i + 1) =~= name@.subrange(first + 1, i as int).push(
            name@[i as int],
        ));
        i = i + 1;
    }
    proof {
        assert(sole_dot(name@, first as int));
        assert(!no_dot(name@)) by {
            assert(name@[first as int] == '.');
        }
        let k = choose|k: int| sole_dot(name@, k);
        if k < first {
            assert(name@.subrange(0, first as int)[k] == '.');
        } else if k > first {
            assert(name@.subrange(0, k)[first as int] == '.');
        }
    }
    Some((database, table))
}

/// The columns of `database.table` in the catalog (see `catalog_columns`).
pub fn lookup_catalog_columns(catalog: &Vec<CatalogTable>, database: &str, table: &str) -> (r: Option<
    Vec<String>,
>)
    ensures
        match r {
            Some(c) => catalog_columns(catalog@, database@, table@) == Some(texts(c@)),
            None => catalog_columns(catalog@, database@, table@) is None,
        },
{
    assert(catalog@.subrange(0, catalog@.len() as int) =~= catalog@);
    let mut i: usize = 0;
    while i < catalog.len()
        invariant
            i <= catalog@.len(),
            catalog_columns(catalog@, database@, table@) == catalog_columns(
                catalog@.subrange(i as int, catalog@.len() as int),
                database@,
                table@,
            ),
        decreases catalog@.len() - i,
    {
        let ghost rest = catalog@.subrange(i as int, catalog@.len() as int);
        assert(rest.drop_first() =~= catalog@.subrange(i + 1, catalog@.len() as int));
        if str_eq(&catalog[i].database, database) && str_eq(&catalog[i].table, table) {
            let cols = crate::plan_fragment::copy_strings(&catalog[i].columns);
            assert(texts(cols@) =~= texts(catalog@[i as int].columns@));
            return Some(cols);
        }
        i = i + 1;
    }
    assert(catalog@.subrange(i as int, catalog@.len() as int) =~= Seq::<CatalogTable>::empty());
    None
}

/// The text of a value (see `cell_text`).
pub fn cell_to_text(c: &SqlCell) -> (r: String)
    ensures
        r@ == cell_text(cell_model(*c)),
{
    match c {
        SqlCell::Number(n) => n.clone(),
        SqlCell::Text(s) => s.clone(),
        SqlCell::Boolean(b) => if *b {
            string_of("1")
        } else {
            string_of("0")
        },
        SqlCell::Other(s) => s.clone(),
    }
}

/// Reads an `INSERT` into `full_name` with the listed `columns` (the
/// catalog's when none is listed) and the given source into the rows a load
/// sends (see `insert_outcome`).
pub fn insert_from_parts(
    full_name: &str,
    columns: Vec<String>,
    catalog: &Vec<CatalogTable>,
    source: InsertSource,
) -> (r: Result<ParsedInsert, DorisError>)
    ensures
        match r {
            Ok(p) => insert_outcome(full_name@, texts(columns@), catalog@, source_model(source)) == Ok::<
                ParsedInsertModel,
                Seq<char>,
            >(p@),
            Err(DorisError::QueryExecution(m)) => insert_outcome(
                full_name@,
                texts(columns@),
                catalog@,
                source_model(source),
            ) == Err::<ParsedInsertModel, Seq<char>>(m@),
            Err(DorisError::QueueFull) => false,
        },
{
    let ghost source0 = source;
    let ghost cols0 = texts(columns@);
    let (database, table) = match split_table(full_name) {
        Some(parts) => parts,
        None => {
            let mut m = string_of("Invalid table name in INSERT: ");
            push_str(&mut m, full_name);
            return Err(query_error(m));
        },
    };
    let column_names = if columns.len() == 0 {
        match lookup_catalog_columns(catalog, &database, &table) {
            Some(c) => c,
            None => {
                let mut m = string_of("Table '");
                push_str(&mut m, &database);
                push_str(&mut m, ".");
                push_str(&mut m, &table);
                push_str(&mut m, "' not found for INSERT");
                assert(m@ =~= "Table '"@ + database@ + "."@ + table@ + "' not found for INSERT"@);
                return Err(query_error(m));
            },
        }
    } else {
        columns
    };
    let values = match source {
        InsertSource::Missing => return Err(query_error(string_of("INSERT must have a source"))),
        InsertSource::NotValues => return Err(
            query_error(string_of("Only VALUES clause is supported for load")),
        ),
        InsertSource::Rows(v) => v,
    };
    let ghost cells = values@.map_values(
        |r: Vec<SqlCell>| r@.map_values(|c: SqlCell| cell_model(c)),
    );
    let mut rows: Vec<Vec<String>> = Vec::new();
    let mut i: usize = 0;
    while i < values.len()
        invariant
            i <= values@.len(),
            cells == values@.map_values(
                |r: Vec<SqlCell>| r@.map_values(|c: SqlCell| cell_model(c)),
            ),
            split_table_name(full_name@) == Some((database@, table@)),
            source0 == InsertSource::Rows(values),
            source0 == source,
            cols0 == texts(columns@),
            (if cols0.len() == 0 {
                catalog_columns(catalog@, database@, table@)
            } else {
                Some(cols0)
            }) == Some(texts(column_names@)),
            first_bad_row(cells.subrange(0, i as int), column_names@.len()) is None,
            rows@.len() == i,
            forall|k: int| 0 <= k < i ==> texts(#[trigger] rows@[k]@) == row_texts(cells[k]),
        decreases values@.len() - i,
    {
        let row_exprs = &values[i];
        assert(cells.subrange(0, i + 1).drop_last() =~= cells.subrange(0, i as int));
        if row_exprs.len() != column_names.len() {
            let mut m = string_of("VALUES row has ");
            push_u64_digits(&mut m, row_exprs.len() as u64);
            push_str(&mut m, " columns, expected ");
            push_u64_digits(&mut m, column_names.len() as u64);
            proof {
                let pre = cells.subrange(0, i + 1);
                assert(pre.last() == cells[i as int]);
                assert(first_bad_row(pre, column_names@.len()) == Some(row_exprs@.len()));
                lemma_first_bad_row_prefix(cells, i + 1, column_names@.len());
            }
            assert(m@ =~= "VALUES row has "@ + nat_digits(row_exprs@.len()) + " columns, expected "@
                + nat_digits(column_names@.len()));
            return Err(query_error(m));
        }
        let mut row: Vec<String> = Vec::new();
        let mut j: usize = 0;
        while j < row_exprs.len()
            invariant
                j <= row_exprs@.len(),
                row@.len() == j,
                forall|k: int| 0 <= k < j ==> (#[trigger] row@[k])@ == cell_text(cell_model(row_exprs@[k])),
            decreases row_exprs@.len() - j,
        {
            row.push(cell_to_text(&row_exprs[j]));
            j = j + 1;
        }
        assert(texts(row@) =~= row_texts(cells[i as int]));
        rows.push(row);
        i = i + 1;
    }
    assert(cells.subrange(0, values@.len() as int) =~= cells);
    let r = ParsedInsert { database, table, columns: column_names, rows };
    assert(r@.rows =~= cells.map_values(|row: Seq<SqlCellModel>| row_texts(row)));
    Ok(r)
}

/// A bad row in a prefix is the first bad row of the whole.
proof fn lemma_first_bad_row_prefix(rows: Seq<Seq<SqlCellModel>>, i: int, n: nat)
    requires
        0 <= i <= rows.len(),
        first_bad_row(rows.subrange(0, i), n) is Some,
    ensures
        first_bad_row(rows, n) == first_bad_row(rows.subrange(0, i), n),
    decreases rows.len(),
{
    if i < rows.len() {
        assert(rows.drop_last().subrange(0, i) =~= rows.subrange(0, i));
        lemma_first_bad_row_prefix(rows.drop_last(), i, n);
    } else {
        assert(rows.subrange(0, i) =~= rows);
    }
}

/// The cells of a `VALUES` list, row by row.
fn read_values(v: &Values) -> (r: Vec<Vec<SqlCell>>)
    ensures
        r@.len() == values_cells(*v).len(),
        forall|i: int|
            0 <= i < r@.len() ==> (#[trigger] r@[i])@.map_values(|c: SqlCell| cell_model(c))
                == values_cells(*v)[i],
{
    let n = values_row_count(v);
    let mut out: Vec<Vec<SqlCell>> = Vec::new();
    let mut i: usize = 0;
    while i < n
        invariant
            n == values_cells(*v).len(),
            i <= n,
            out@.len() == i,
            forall|k: int|
                0 <= k < i ==> (#[trigger] out@[k])@.map_values(|c: SqlCell| cell_model(c))
                    == values_cells(*v)[k],
        decreases n - i,
    {
        let m = values_row_len(v, i);
        let mut row: Vec<SqlCell> = Vec::new();
        let mut j: usize = 0;
        while j < m
            invariant
                n == values_cells(*v).len(),
                i < n,
                m == values_cells(*v)[i as int].len(),
                j <= m,
                row@.len() == j,
                forall|l: int| 0 <= l < j ==> cell_model(#[trigger] row@[l]) == values_cells(*v)[i as int][l],
            decreases m - j,
        {
            row.push(values_cell(v, i, j));
            j = j + 1;
        }
        assert(row@.map_values(|c: SqlCell| cell_model(c)) =~= values_cells(*v)[i as int]);
        out.push(row);
        i = i + 1;
    }
    out
}

/// What a load makes of `sql`: the rows of its first statement, a simple
/// `INSERT ... VALUES`, or the message of the error that refuses it.
pub open spec fn insert_values_outcome(sql: Seq<char>, catalog: Seq<CatalogTable>) -> Result<
    ParsedInsertModel,
    Seq<char>,
> {
    match generic_parse(sql) {
        Err(e) => Err("SQL parsing error: "@ + e),
        Ok(kinds) => if kinds.len() == 0 {
            Err("Empty INSERT statement"@)
        } else if kinds[0] != StatementKind::Insert {
            Err("Only INSERT ... VALUES is supported for load"@)
        } else {
            let (table, columns, source) = generic_insert_parts(sql);
            insert_outcome(table, columns, catalog, source)
        },
    }
}

/// Parses a simple `INSERT ... VALUES` statement (the first statement of
/// `sql`) into the rows a load sends, the columns coming from the catalog
/// when the statement lists none (see `insert_values_outcome`).
pub fn parse_insert_values(sql: &str, catalog: &Vec<CatalogTable>) -> (r: Result<
    ParsedInsert,
    DorisError,
>)
    ensures
        match r {
            Ok(p) => insert_values_outcome(sql@, catalog@) == Ok::<ParsedInsertModel, Seq<char>>(p@),
            Err(DorisError::QueryExecution(m)) => insert_values_outcome(sql@, catalog@) == Err::<
                ParsedInsertModel,
                Seq<char>,
            >(m@),
            Err(DorisError::QueueFull) => false,
        },
{
    let read = match read_insert(sql) {
        Ok(x) => x,
        Err(e) => {
            let mut m = string_of("SQL parsing error: ");
            push_str(&mut m, &e);
            return Err(query_error(m));
        },
    };
    match read {
        InsertRead::NoStatement => Err(query_error(string_of("Empty INSERT statement"))),
        InsertRead::NotInsert => Err(
            query_error(string_of("Only INSERT ... VALUES is supported for load")),
        ),
        InsertRead::Insert { table, columns, source } => {
            let src = match source {
                SqlInsertSource::Missing => InsertSource::Missing,
                SqlInsertSource::NotValues => InsertSource::NotValues,
                SqlInsertSource::Rows(values) => {
                    let rows = read_values(&values);
                    assert(rows@.map_values(
                        |r: Vec<SqlCell>| r@.map_values(|c: SqlCell| cell_model(c)),
                    ) =~= values_cells(values));
                    InsertSource::Rows(rows)
                },
            };
            insert_from_parts(&table, columns, catalog, src)
        },
    }
}

/// The number of `VALUES` rows of a simple `INSERT`: `Some` exactly when
/// `parse_insert_values` reads it.
pub fn count_insert_values_rows(sql: &str, catalog: &Vec<CatalogTable>) -> (r: Option<u64>)
    ensures
        r == match insert_values_outcome(sql@, catalog@) {
            Ok(p) => Some(p.rows.len() as u64),
            Err(_) => None::<u64>,
        },
{
    match parse_insert_values(sql, catalog) {
        Ok(p) => Some(p.rows.len() as u64),
        Err(_) => None,
    }
}

} // verus!
