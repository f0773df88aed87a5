//! `DESCRIBE` output: the name, the SQL type name and the nullability of
//! each column of a catalog table.

use vstd::prelude::*;
use crate::error::DorisError;
use crate::text::{nat_digits, push_str, push_u64_digits, str_eq, string_of};

verus! {

/// A column type of the catalog.
#[derive(Debug)]
pub enum CatalogDataType {
    TinyInt,
    SmallInt,
    Int,
    BigInt,
    Float,
    Double,
    Decimal { precision: u8, scale: u8 },
    Char { length: u32 },
    Varchar { length: u32 },
    String,
    Text,
    Date,
    DateTime,
    Timestamp,
    Boolean,
    Binary,
    Varbinary { length: u32 },
    Json,
    Array(Box<CatalogDataType>),
}

/// A column of a catalog table.
#[derive(Debug)]
pub struct CatalogColumn {
    pub name: String,
    pub data_type: CatalogDataType,
    pub nullable: bool,
}

/// A catalog table with its columns, in order.
#[derive(Debug)]
pub struct TableSchema {
    pub database: String,
    pub table: String,
    pub columns: Vec<CatalogColumn>,
}

/// The `Debug` rendering of a column type: the variant's name, with its
/// fields in braces or its inner type in parentheses.
pub open spec fn type_debug_text(t: CatalogDataType) -> Seq<char>
    decreases t,
{
    match t {
        CatalogDataType::TinyInt => "TinyInt"@,
        CatalogDataType::SmallInt => "SmallInt"@,
        CatalogDataType::Int => "Int"@,
        CatalogDataType::BigInt => "BigInt"@,
        CatalogDataType::Float => "Float"@,
        CatalogDataType::Double => "Double"@,
        CatalogDataType::Decimal { precision, scale } => "Decimal { precision: "@ + nat_digits(
            precision as nat,
        ) + ", scale: "@ + nat_digits(scale as nat) + " }"@,
        CatalogDataType::Char { length } => "Char { length: "@ + nat_digits(length as nat) + " }"@,
        CatalogDataType::Varchar { length } => "Varchar { length: "@ + nat_digits(length as nat)
            + " }"@,
        CatalogDataType::String => "String"@,
        CatalogDataType::Text => "Text"@,
        CatalogDataType::Date => "Date"@,
        CatalogDataType::DateTime => "DateTime"@,
        CatalogDataType::Timestamp => "Timestamp"@,
        CatalogDataType::Boolean => "Boolean"@,
        CatalogDataType::Binary => "Binary"@,
        CatalogDataType::Varbinary { length } => "Varbinary { length: "@ + nat_digits(length as nat)
            + " }"@,
        CatalogDataType::Json => "Json"@,
        CatalogDataType::Array(inner) => "Array("@ + type_debug_text(*inner) + ")"@,
    }
}

/// The SQL type name that `DESCRIBE` shows for a column type; an array
/// shows its element type's `Debug` rendering.
pub open spec fn sql_type_name(t: CatalogDataType) -> Seq<char> {
    match t {
        CatalogDataType::TinyInt => "TINYINT"@,
        CatalogDataType::SmallInt => "SMALLINT"@,
        CatalogDataType::Int => "INT"@,
        CatalogDataType::BigInt => "BIGINT"@,
        CatalogDataType::Float => "FLOAT"@,
        CatalogDataType::Double => "DOUBLE"@,
        CatalogDataType::Decimal { precision, scale } => "DECIMAL("@ + nat_digits(precision as nat)
            + ", "@ + nat_digits(scale as nat) + ")"@,
        CatalogDataType::Char { length } => "CHAR("@ + nat_digits(length as nat) + ")"@,
        CatalogDataType::Varchar { length } => "VARCHAR("@ + nat_digits(length as nat) + ")"@,
        CatalogDataType::String => "STRING"@,
        CatalogDataType::Text => "TEXT"@,
        CatalogDataType::Date => "DATE"@,
        CatalogDataType::DateTime => "DATETIME"@,
        CatalogDataType::Timestamp => "TIMESTAMP"@,
        CatalogDataType::Boolean => "BOOLEAN"@,
        CatalogDataType::Binary => "BINARY"@,
        CatalogDataType::Varbinary { length } => "VARBINARY("@ + nat_digits(length as nat) + ")"@,
        CatalogDataType::Json => "JSON"@,
        CatalogDataType::Array(inner) => "ARRAY<"@ + type_debug_text(*inner) + ">"@,
    }
}

/// Appends the `Debug` rendering of a column type (see `type_debug_text`).
pub fn push_type_debug_text(out: &mut String, t: &CatalogDataType)
    ensures
        final(out)@ == old(out)@ + type_debug_text(*t),
    decreases t,
{
    let ghost start = out@;
    match t {
        CatalogDataType::TinyInt => push_str(out, "TinyInt"),
        CatalogDataType::SmallInt => push_str(out, "SmallInt"),
        CatalogDataType::Int => push_str(out, "Int"),
        CatalogDataType::BigInt => push_str(out, "BigInt"),
        CatalogDataType::Float => push_str(out, "Float"),
        CatalogDataType::Double => push_str(out, "Double"),
        CatalogDataType::Decimal { precision, scale } => {
            push_str(out, "Decimal { precision: ");
            push_u64_digits(out, *precision as u64);
            push_str(out, ", scale: ");
            push_u64_digits(out, *scale as u64);
            push_str(out, " }");
            assert(out@ =~= start + ("Decimal { precision: "@ + nat_digits(*precision as nat)
                + ", scale: "@ + nat_digits(*scale as nat) + " }"@));
        },
        CatalogDataType::Char { length } => {
            push_str(out, "Char { length: ");
            push_u64_digits(out, *length as u64);
            push_str(out, " }");
            assert(out@ =~= start + ("Char { length: "@ + nat_digits(*length as nat) + " }"@));
        },
        CatalogDataType::Varchar { length } => {
            push_str(out, "Varchar { length: ");
            push_u64_digits(out, *length as u64);
            push_str(out, " }");
            assert(out@ =~= start + ("Varchar { length: "@ + nat_digits(*length as nat) + " }"@));
        },
        CatalogDataType::String => push_str(out, "String"),
        CatalogDataType::Text => push_str(out, "Text"),
        CatalogDataType::Date => push_str(out, "Date"),
        CatalogDataType::DateTime => push_str(out, "DateTime"),
        CatalogDataType::Timestamp => push_str(out, "Timestamp"),
        CatalogDataType::Boolean => push_str(out, "Boolean"),
        CatalogDataType::Binary => push_str(out, "Binary"),
        CatalogDataType::Varbinary { length } => {
            push_str(out, "Varbinary { length: ");
            push_u64_digits(out, *length as u64);
            push_str(out, " }");
            assert(out@ =~= start + ("Varbinary { length: "@ + nat_digits(*length as nat) + " }"@));
        },
        CatalogDataType::Json => push_str(out, "Json"),
        CatalogDataType::Array(inner) => {
            push_str(out, "Array(");
            push_type_debug_text(out, inner);
            push_str(out, ")");
            assert(out@ =~= start + ("Array("@ + type_debug_text(**inner) + ")"@));
        },
    }
}

/// The SQL type name of a column type (see `sql_type_name`).
pub fn describe_type_name(t: &CatalogDataType) -> (r: String)
    ensures
        r@ == sql_type_name(*t),
{
    match t {
        CatalogDataType::TinyInt => string_of("TINYINT"),
        CatalogDataType::SmallInt => string_of("SMALLINT"),
        CatalogDataType::Int => string_of("INT"),
        CatalogDataType::BigInt => string_of("BIGINT"),
        CatalogDataType::Float => string_of("FLOAT"),
        CatalogDataType::Double => string_of("DOUBLE"),
        CatalogDataType::Decimal { precision, scale } => {
            let mut s = string_of("DECIMAL(");
            push_u64_digits(&mut s, *precision as u64);
            push_str(&mut s, ", ");
            push_u64_digits(&mut s, *scale as u64);
            push_str(&mut s, ")");
            assert(s@ =~= "DECIMAL("@ + nat_digits(*precision as nat) + ", "@ + nat_digits(
                *scale as nat,
            ) + ")"@);
            s
        },
        CatalogDataType::Char { length } => {
            let mut s = string_of("CHAR(");
            push_u64_digits(&mut s, *length as u64);
            push_str(&mut s, ")");
            assert(s@ =~= "CHAR("@ + nat_digits(*length as nat) + ")"@);
            s
        },
        CatalogDataType::Varchar { length } => {
            let mut s = string_of("VARCHAR(");
            push_u64_digits(&mut s, *length as u64);
            push_str(&mut s, ")");
            assert(s@ =~= "VARCHAR("@ + nat_digits(*length as nat) + ")"@);
            s
        },
        CatalogDataType::String => string_of("STRING"),
        CatalogDataType::Text => string_of("TEXT"),
        CatalogDataType::Date => string_of("DATE"),
        CatalogDataType::DateTime => string_of("DATETIME"),
        CatalogDataType::Timestamp => string_of("TIMESTAMP"),
        CatalogDataType::Boolean => string_of("BOOLEAN"),
        CatalogDataType::Binary => string_of("BINARY"),
        CatalogDataType::Varbinary { length } => {
            let mut s = string_of("VARBINARY(");
            push_u64_digits(&mut s, *length as u64);
            push_str(&mut s, ")");
            assert(s@ =~= "VARBINARY("@ + nat_digits(*length as nat) + ")"@);
            s
        },
        CatalogDataType::Json => string_of("JSON"),
        CatalogDataType::Array(inner) => {
            let mut s = string_of("ARRAY<");
            push_type_debug_text(&mut s, inner);
            push_str(&mut s, ">");
            assert(s@ =~= "ARRAY<"@ + type_debug_text(**inner) + ">"@);
            s
        },
    }
}

/// A `DESCRIBE` row: the column's name, its SQL type name and whether it is
/// nullable.
pub open spec fn describe_row(c: CatalogColumn) -> (Seq<char>, Seq<char>, bool) {
    (c.name@, sql_type_name(c.data_type), c.nullable)
}

pub open spec fn describe_rows_view(rows: Seq<(String, String, bool)>) -> Seq<(Seq<char>, Seq<char>, bool)> {
    rows.map_values(|r: (String, String, bool)| (r.0@, r.1@, r.2))
}

/// The columns of `database.table`: those of the first schema for that
/// table.
pub open spec fn schema_columns(catalog: Seq<TableSchema>, database: Seq<char>, table: Seq<char>) -> Option<
    Seq<CatalogColumn>,
>
    decreases catalog.len(),
{
    if catalog.len() == 0 {
        None
    } else if catalog[0].database@ == database && catalog[0].table@ == table {
        Some(catalog[0].columns@)
    } else {
        schema_columns(catalog.drop_first(), database, table)
    }
}

/// The `DESCRIBE` rows of columns, in order (see `describe_row`).
pub fn describe_columns(columns: &Vec<CatalogColumn>) -> (r: Vec<(String, String, bool)>)
    ensures
        describe_rows_view(r@) == columns@.map_values(|c: CatalogColumn| describe_row(c)),
{
    let mut rows: Vec<(String, String, bool)> = Vec::new();
    let mut i: usize = 0;
    while i < columns.len()
        invariant
            i <= columns@.len(),
            describe_rows_view(rows@) == columns@.subrange(0, i as int).map_values(
                |c: CatalogColumn| describe_row(c),
            ),
        decreases columns@.len() - i,
    {
        let c = &columns[i];
        let row = (c.name.clone(), describe_type_name(&c.data_type), c.nullable);
        let ghost prev = rows@;
        rows.push(row);
        assert(describe_rows_view(rows@) =~= describe_rows_view(prev).push(describe_row(*c)));
        assert(columns@.subrange(0, i + 1).map_values(|c: CatalogColumn| describe_row(c))
            =~= columns@.subrange(0, i as int).map_values(|c: CatalogColumn| describe_row(c)).push(
            describe_row(columns@[i as int]),
        ));
        i = i + 1;
    }
    assert(columns@.subrange(0, columns@.len() as int) =~= columns@);
    rows
}

/// The `DESCRIBE` output of `database.table`: one row per column, in
/// order; an error when the catalog has no such table.
pub fn describe_table(catalog: &Vec<TableSchema>, database: &str, table: &str) -> (r: Result<
    Vec<(String, String, bool)>,
    DorisError,
>)
    ensures
        match schema_columns(catalog@, database@, table@) {
            Some(cols) => r matches Ok(rows) && describe_rows_view(rows@) == cols.map_values(
                |c: CatalogColumn| describe_row(c),
            ),
            None => r matches Err(DorisError::QueryExecution(m)) && m@ == "Table '"@ + database@ + "."@
                + table@ + "' doesn't exist"@,
        },
{
    assert(catalog@.subrange(0, catalog@.len() as int) =~= catalog@);
    let mut i: usize = 0;
    while i < catalog.len()
        invariant
            i <= catalog@.len(),
            schema_columns(catalog@, database@, table@) == schema_columns(
                catalog@.subrange(i as int, catalog@.len() as int),
                database@,
                table@,
            ),
        decreases catalog@.len() - i,
    {
        let ghost rest = catalog@.subrange(i as int, catalog@.len() as int);
        assert(rest.drop_first() =~= catalog@.subrange(i + 1, catalog@.len() as int));
        if str_eq(&catalog[i].database, database) && str_eq(&catalog[i].table, table) {
            return Ok(describe_columns(&catalog[i].columns));
        }
        i = i + 1;
    }
    assert(catalog@.subrange(i as int, catalog@.len() as int) =~= Seq::<TableSchema>::empty());
    let mut m = string_of("Table '");
    push_str(&mut m, database);
    push_str(&mut m, ".");
    push_str(&mut m, table);
    push_str(&mut m, "' doesn't exist");
    assert(m@ =~= "Table '"@ + database@ + "."@ + table@ + "' doesn't exist"@);
    Err(DorisError::QueryExecution(m))
}

} // verus!
