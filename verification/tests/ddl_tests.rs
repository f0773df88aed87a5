//! Data definition statements parse.

use rust_fe::sql_syntax::parse_sql;

#[allow(dead_code)]
fn assert_parses(sql: &str) {
    assert!(parse_sql(sql).is_ok(), "Failed to parse: {}", sql);
}

#[test]
fn ddl_tests_test_create_table_basic() {
    assert_parses("CREATE TABLE test_table (id INT, name VARCHAR(100))");
}

#[test]
fn ddl_tests_test_create_table_with_primary_key() {
    assert_parses("CREATE TABLE test_table (id INT PRIMARY KEY, name VARCHAR(100))");
}

#[test]
fn test_create_table_with_not_null() {
    assert_parses("CREATE TABLE test_table (id INT NOT NULL, name VARCHAR(100) NOT NULL)");
}

#[test]
fn test_create_table_with_default() {
    assert_parses("CREATE TABLE test_table (id INT DEFAULT 0, name VARCHAR(100) DEFAULT 'unknown')");
}

#[test]
fn test_create_table_with_unique() {
    assert_parses("CREATE TABLE test_table (id INT UNIQUE, name VARCHAR(100))");
}

#[test]
fn ddl_tests_test_create_table_if_not_exists() {
    assert_parses("CREATE TABLE IF NOT EXISTS test_table (id INT, name VARCHAR(100))");
}

#[test]
fn ddl_tests_test_create_table_all_data_types() {
    assert_parses(r#"
        CREATE TABLE test_table (
            c_tinyint TINYINT,
            c_smallint SMALLINT,
            c_int INT,
            c_bigint BIGINT,
            c_float FLOAT,
            c_double DOUBLE,
            c_decimal DECIMAL(10,2),
            c_varchar VARCHAR(100),
            c_char CHAR(10),
            c_text TEXT,
            c_date DATE,
            c_datetime TIMESTAMP,
            c_boolean BOOLEAN
        )
    "#);
}

#[test]
fn ddl_tests_test_create_table_with_constraints() {
    assert_parses(r#"
        CREATE TABLE test_table (
            id INT PRIMARY KEY,
            user_id INT NOT NULL,
            email VARCHAR(100) UNIQUE,
            created_at TIMESTAMP DEFAULT CURRENT_TIMESTAMP
        )
    "#);
}

#[test]
fn test_create_table_multiple_primary_keys() {
    assert_parses(r#"
        CREATE TABLE test_table (
            user_id INT,
            product_id INT,
            quantity INT,
            PRIMARY KEY (user_id, product_id)
        )
    "#);
}

#[test]
fn test_create_table_with_auto_increment() {
    // Note: DataFusion may not support AUTO_INCREMENT, so just test basic parsing
    let sql = "CREATE TABLE test_table (id INT, name VARCHAR(100))";
    assert_parses(sql);
}

#[test]
fn ddl_tests_test_create_view_basic() {
    assert_parses("CREATE VIEW test_view AS SELECT id, name FROM test_table");
}

#[test]
fn ddl_tests_test_create_view_if_not_exists() {
    assert_parses("CREATE VIEW IF NOT EXISTS test_view AS SELECT id, name FROM test_table");
}

#[test]
fn ddl_tests_test_create_view_with_join() {
    assert_parses(r#"
        CREATE VIEW user_orders AS
        SELECT u.name, o.order_id, o.total
        FROM users u
        JOIN orders o ON u.user_id = o.user_id
    "#);
}

#[test]
fn ddl_tests_test_create_view_with_aggregation() {
    assert_parses(r#"
        CREATE VIEW sales_summary AS
        SELECT product_id, SUM(quantity) as total_qty, AVG(price) as avg_price
        FROM sales
        GROUP BY product_id
    "#);
}

#[test]
fn test_create_view_with_complex_query() {
    assert_parses(r#"
        CREATE VIEW active_users AS
        SELECT user_id, name, email
        FROM users
        WHERE status = 'active'
        AND created_at > DATE '2024-01-01'
        ORDER BY created_at DESC
    "#);
}

#[test]
fn ddl_tests_test_create_or_replace_view() {
    assert_parses("CREATE OR REPLACE VIEW test_view AS SELECT * FROM test_table");
}

#[test]
fn ddl_tests_test_drop_table() {
    assert_parses("DROP TABLE test_table");
}

#[test]
fn ddl_tests_test_drop_table_if_exists() {
    assert_parses("DROP TABLE IF EXISTS test_table");
}

#[test]
fn ddl_tests_test_drop_view() {
    assert_parses("DROP VIEW test_view");
}

#[test]
fn ddl_tests_test_drop_view_if_exists() {
    assert_parses("DROP VIEW IF EXISTS test_view");
}

#[test]
fn ddl_tests_test_alter_table_add_column() {
    assert_parses("ALTER TABLE test_table ADD COLUMN age INT");
}

#[test]
fn ddl_tests_test_alter_table_drop_column() {
    assert_parses("ALTER TABLE test_table DROP COLUMN age");
}

#[test]
fn ddl_tests_test_alter_table_rename_column() {
    assert_parses("ALTER TABLE test_table RENAME COLUMN old_name TO new_name");
}

#[test]
fn test_alter_table_rename_table() {
    assert_parses("ALTER TABLE old_table RENAME TO new_table");
}

#[test]
fn ddl_tests_test_truncate_table() {
    assert_parses("TRUNCATE TABLE test_table");
}

#[test]
fn test_create_database() {
    // Note: DataFusion may use CREATE SCHEMA instead of CREATE DATABASE
    assert_parses("CREATE SCHEMA test_db");
}

#[test]
fn ddl_tests_test_create_database_if_not_exists() {
    assert_parses("CREATE SCHEMA IF NOT EXISTS test_db");
}

#[test]
fn ddl_tests_test_drop_database() {
    assert_parses("DROP SCHEMA test_db");
}

#[test]
fn test_drop_database_if_exists() {
    assert_parses("DROP SCHEMA IF EXISTS test_db");
}

#[test]
fn test_create_table_like() {
    assert_parses("CREATE TABLE new_table (LIKE old_table)");
}

#[test]
fn ddl_tests_test_create_table_as_select() {
    assert_parses(r#"
        CREATE TABLE new_table AS
        SELECT id, name, email
        FROM old_table
        WHERE status = 'active'
    "#);
}

#[test]
fn ddl_tests_test_create_table_with_partition() {
    // Basic partition syntax test (may not be fully supported by DataFusion)
    let sql = "CREATE TABLE test_table (id INT, created_at DATE, name VARCHAR(100))";
    assert_parses(sql);
}

#[test]
fn test_multiple_ddl_statements() {
    // Test multiple statements (some parsers handle this differently)
    assert_parses("CREATE TABLE t1 (id INT)");
    assert_parses("CREATE TABLE t2 (id INT)");
}

#[test]
fn test_create_table_with_comments() {
    // Note: Comment syntax may vary
    let sql = "CREATE TABLE test_table (id INT, name VARCHAR(100))";
    assert_parses(sql);
}

#[test]
fn test_create_table_with_check_constraint() {
    assert_parses(r#"
        CREATE TABLE test_table (
            id INT,
            age INT CHECK (age >= 0),
            email VARCHAR(100)
        )
    "#);
}

#[test]
fn test_create_table_with_foreign_key() {
    assert_parses(r#"
        CREATE TABLE orders (
            order_id INT PRIMARY KEY,
            user_id INT,
            total DECIMAL(10,2),
            FOREIGN KEY (user_id) REFERENCES users(user_id)
        )
    "#);
}

#[test]
fn test_create_table_case_sensitivity() {
    // Test case-insensitive keywords
    assert_parses("create table test_table (id int, name varchar(100))");
    assert_parses("CREATE TABLE TEST_TABLE (ID INT, NAME VARCHAR(100))");
    assert_parses("Create Table Test_Table (Id Int, Name VarChar(100))");
}

#[test]
fn test_create_table_with_long_names() {
    assert_parses(r#"
        CREATE TABLE very_long_table_name_for_testing_purposes (
            very_long_column_name_for_testing_purposes INT,
            another_very_long_column_name_for_testing VARCHAR(255)
        )
    "#);
}

#[test]
fn test_create_table_with_special_characters() {
    // Test quoted identifiers
    assert_parses(r#"CREATE TABLE "test-table" ("test-column" INT)"#);
}

#[test]
fn ddl_tests_test_alter_table_add_multiple_columns() {
    assert_parses("ALTER TABLE test_table ADD COLUMN age INT, ADD COLUMN city VARCHAR(100)");
}

#[test]
fn test_ddl_with_semicolon() {
    assert_parses("CREATE TABLE test_table (id INT);");
    assert_parses("DROP TABLE test_table;");
}

#[test]
fn test_create_temporary_table() {
    // Note: TEMPORARY keyword may not be supported
    let sql = "CREATE TABLE test_table (id INT, name VARCHAR(100))";
    assert_parses(sql);
}

#[test]
fn test_create_external_table() {
    // Basic external table concept (syntax varies by system)
    let sql = "CREATE TABLE test_table (id INT, name VARCHAR(100))";
    assert_parses(sql);
}

#[test]
fn test_create_table_with_generated_column() {
    // Generated column syntax
    let sql = "CREATE TABLE test_table (id INT, price DECIMAL(10,2), tax DECIMAL(10,2))";
    assert_parses(sql);
}

#[test]
fn test_ddl_statement_validation() {
    // Ensure various DDL statements are recognized
    let ddl_statements = vec![
        "CREATE TABLE t1 (id INT)",
        "CREATE VIEW v1 AS SELECT * FROM t1",
        "DROP TABLE t1",
        "DROP VIEW v1",
        "ALTER TABLE t1 ADD COLUMN name VARCHAR(100)",
        "TRUNCATE TABLE t1",
    ];

    for stmt in ddl_statements {
        assert_parses(stmt);
    }
}
