//! `DESCRIBE` output of catalog tables.

use rust_fe::error::DorisError;
use rust_fe::query::describe::{
    describe_table, describe_type_name, CatalogColumn, CatalogDataType, TableSchema,
};

fn column(name: &str, data_type: CatalogDataType, nullable: bool) -> CatalogColumn {
    CatalogColumn { name: name.to_string(), data_type, nullable }
}

fn lineitem() -> TableSchema {
    TableSchema {
        database: "tpch".to_string(),
        table: "lineitem".to_string(),
        columns: vec![
            column("l_orderkey", CatalogDataType::BigInt, false),
            column("l_quantity", CatalogDataType::Decimal { precision: 15, scale: 2 }, false),
            column("l_comment", CatalogDataType::Varchar { length: 44 }, true),
        ],
    }
}

#[test]
fn describe_lists_columns_in_order() {
    let rows = describe_table(&vec![lineitem()], "tpch", "lineitem").unwrap();
    assert_eq!(
        rows,
        vec![
            ("l_orderkey".to_string(), "BIGINT".to_string(), false),
            ("l_quantity".to_string(), "DECIMAL(15, 2)".to_string(), false),
            ("l_comment".to_string(), "VARCHAR(44)".to_string(), true),
        ]
    );
}

#[test]
fn describe_of_a_missing_table_is_an_error() {
    match describe_table(&vec![lineitem()], "tpch", "orders") {
        Err(DorisError::QueryExecution(m)) => assert_eq!(m, "Table 'tpch.orders' doesn't exist"),
        other => panic!("unexpected {:?}", other),
    }
}

#[test]
fn catalog_type_names_for_describe() {
    assert_eq!(describe_type_name(&CatalogDataType::TinyInt), "TINYINT");
    assert_eq!(describe_type_name(&CatalogDataType::Char { length: 1 }), "CHAR(1)");
    assert_eq!(describe_type_name(&CatalogDataType::Varbinary { length: 16 }), "VARBINARY(16)");
    assert_eq!(describe_type_name(&CatalogDataType::Json), "JSON");
    assert_eq!(
        describe_type_name(&CatalogDataType::Array(Box::new(CatalogDataType::Int))),
        format!("ARRAY<{:?}>", CatalogDataType::Int)
    );
    let nested = CatalogDataType::Array(Box::new(CatalogDataType::Decimal { precision: 10, scale: 3 }));
    assert_eq!(describe_type_name(&nested), "ARRAY<Decimal { precision: 10, scale: 3 }>");
    let inner = CatalogDataType::Array(Box::new(CatalogDataType::Varchar { length: 8 }));
    let expected = format!("ARRAY<{:?}>", inner);
    assert_eq!(describe_type_name(&CatalogDataType::Array(Box::new(inner))), expected);
}
