//! `INSERT ... VALUES` statements read for a load.

use rust_fe::error::DorisError;
use rust_fe::query::executor::{plan_dml, DmlAction};
use rust_fe::query::insert_values::{
    count_insert_values_rows, insert_from_parts, parse_insert_values, split_table, CatalogTable,
    InsertSource, SqlCell,
};

fn no_catalog() -> Vec<CatalogTable> {
    Vec::new()
}

fn message(r: Result<rust_fe::query::insert_values::ParsedInsert, DorisError>) -> String {
    match r {
        Err(DorisError::QueryExecution(m)) => m,
        other => panic!("expected a query error, got {:?}", other),
    }
}

#[test]
fn test_parse_insert_values_basic() {
    let sql = "INSERT INTO tpch.lineitem (l_orderkey, l_partkey) \
               VALUES (1, 1), (2, 2), (3, 3)";
    let parsed = parse_insert_values(sql, &no_catalog()).unwrap();

    assert_eq!(parsed.database, "tpch");
    assert_eq!(parsed.table, "lineitem");
    assert_eq!(parsed.columns, vec!["l_orderkey", "l_partkey"]);
    assert_eq!(parsed.rows.len(), 3);
    assert_eq!(parsed.rows[0], vec!["1".to_string(), "1".to_string()]);
    assert_eq!(parsed.rows[2], vec!["3".to_string(), "3".to_string()]);
}

#[test]
fn test_count_insert_values_rows_basic() {
    let sql = "INSERT INTO tpch.lineitem (l_orderkey, l_partkey) \
               VALUES (1, 1), (2, 2), (3, 3)";
    let count = count_insert_values_rows(sql, &no_catalog()).unwrap();
    assert_eq!(count, 3);
}

#[test]
fn test_count_insert_values_rows_non_insert() {
    let sql = "SELECT * FROM lineitem";
    assert!(count_insert_values_rows(sql, &no_catalog()).is_none());
}

#[test]
fn insert_values_cells_are_rendered_as_text() {
    let sql = "INSERT INTO t (a, b, c, d) VALUES (42, 'x y', TRUE, NULL), (-1, 'z', FALSE, 1 + 2)";
    let parsed = parse_insert_values(sql, &no_catalog()).unwrap();
    assert_eq!(parsed.database, "tpch");
    assert_eq!(parsed.table, "t");
    assert_eq!(parsed.rows[0], vec!["42", "x y", "1", "NULL"]);
    assert_eq!(parsed.rows[1], vec!["-1", "z", "0", "1 + 2"]);
}

#[test]
fn insert_values_without_columns_use_the_catalog() {
    let catalog = vec![CatalogTable {
        database: "sales".to_string(),
        table: "orders".to_string(),
        columns: vec!["id".to_string(), "amount".to_string()],
    }];
    let parsed = parse_insert_values("INSERT INTO sales.orders VALUES (1, 10)", &catalog).unwrap();
    assert_eq!(parsed.columns, vec!["id", "amount"]);
    assert_eq!(parsed.rows, vec![vec!["1".to_string(), "10".to_string()]]);

    let missing = parse_insert_values("INSERT INTO sales.other VALUES (1, 10)", &catalog);
    assert_eq!(message(missing), "Table 'sales.other' not found for INSERT");
}

#[test]
fn insert_values_errors() {
    assert_eq!(
        message(parse_insert_values("SELECT 1", &no_catalog())),
        "Only INSERT ... VALUES is supported for load"
    );
    assert_eq!(
        message(parse_insert_values("INSERT INTO a.b.c (x) VALUES (1)", &no_catalog())),
        "Invalid table name in INSERT: a.b.c"
    );
    assert_eq!(
        message(parse_insert_values("INSERT INTO t (x, y) VALUES (1, 2), (3)", &no_catalog())),
        "VALUES row has 1 columns, expected 2"
    );
    assert_eq!(
        message(parse_insert_values("INSERT INTO t (x) SELECT 1", &no_catalog())),
        "Only VALUES clause is supported for load"
    );
    assert_eq!(message(parse_insert_values("", &no_catalog())), "Empty INSERT statement");
    assert!(message(parse_insert_values("INSERT INTO", &no_catalog())).starts_with("SQL parsing error: "));
}

#[test]
fn insert_from_parts_reads_rows() {
    let rows = vec![vec![SqlCell::Number("7".to_string()), SqlCell::Boolean(false)]];
    let parsed = insert_from_parts(
        "db.t",
        vec!["a".to_string(), "b".to_string()],
        &no_catalog(),
        InsertSource::Rows(rows),
    )
    .unwrap();
    assert_eq!(parsed.database, "db");
    assert_eq!(parsed.table, "t");
    assert_eq!(parsed.rows, vec![vec!["7".to_string(), "0".to_string()]]);
    assert_eq!(
        message(insert_from_parts("t", vec!["a".to_string()], &no_catalog(), InsertSource::Missing)),
        "INSERT must have a source"
    );
}

#[test]
fn table_names_split_at_one_dot() {
    assert_eq!(split_table("lineitem"), Some(("tpch".to_string(), "lineitem".to_string())));
    assert_eq!(split_table("db.t"), Some(("db".to_string(), "t".to_string())));
    assert_eq!(split_table("a.b.c"), None);
    assert_eq!(split_table(".t"), Some(("".to_string(), "t".to_string())));
}

#[test]
fn test_execute_dml_counts_values_rows() {
    let sql = "INSERT INTO tpch.lineitem (l_orderkey, l_partkey) \
               VALUES (1, 1), (2, 2), (3, 3)";
    match plan_dml(sql, &no_catalog(), 0) {
        DmlAction::Affected(rows) => assert_eq!(rows, 3),
        DmlAction::LoadLineitem(_) => panic!("no backend to load into"),
    }
    match plan_dml(sql, &no_catalog(), 2) {
        DmlAction::LoadLineitem(insert) => {
            assert_eq!(insert.database, "tpch");
            assert_eq!(insert.table, "lineitem");
            assert_eq!(insert.rows.len(), 3);
        }
        DmlAction::Affected(_) => panic!("expected a load"),
    }
}
