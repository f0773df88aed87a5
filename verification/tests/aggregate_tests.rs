//! Regression cases over aggregations and window functions.

use rust_fe::sql_syntax::{execute_test, ExpectedResult};

#[test]
fn test_count_all() {
    let sql = "SELECT COUNT(*) FROM users";
    assert!(execute_test(sql, ExpectedResult::Success).is_ok());
}

#[test]
fn test_count_column() {
    let sql = "SELECT COUNT(id) FROM users";
    assert!(execute_test(sql, ExpectedResult::Success).is_ok());
}

#[test]
fn test_count_distinct() {
    let sql = "SELECT COUNT(DISTINCT category) FROM products";
    assert!(execute_test(sql, ExpectedResult::Success).is_ok());
}

#[test]
fn test_sum_basic() {
    let sql = "SELECT SUM(amount) FROM orders";
    assert!(execute_test(sql, ExpectedResult::Success).is_ok());
}

#[test]
fn test_avg_basic() {
    let sql = "SELECT AVG(price) FROM products";
    assert!(execute_test(sql, ExpectedResult::Success).is_ok());
}

#[test]
fn test_min_basic() {
    let sql = "SELECT MIN(price) FROM products";
    assert!(execute_test(sql, ExpectedResult::Success).is_ok());
}

#[test]
fn test_max_basic() {
    let sql = "SELECT MAX(price) FROM products";
    assert!(execute_test(sql, ExpectedResult::Success).is_ok());
}

#[test]
fn aggregate_tests_test_multiple_aggregates() {
    let sql = r#"
        SELECT COUNT(*), SUM(amount), AVG(amount), MIN(amount), MAX(amount)
        FROM orders
    "#;
    assert!(execute_test(sql, ExpectedResult::Success).is_ok());
}

#[test]
fn test_aggregate_with_where() {
    let sql = r#"
        SELECT COUNT(*), SUM(amount)
        FROM orders
        WHERE status = 'completed'
    "#;
    assert!(execute_test(sql, ExpectedResult::Success).is_ok());
}

#[test]
fn test_aggregate_with_null() {
    let sql = "SELECT COUNT(nullable_column), SUM(nullable_column) FROM table1";
    assert!(execute_test(sql, ExpectedResult::Success).is_ok());
}

#[test]
fn test_aggregate_distinct_multiple() {
    let sql = "SELECT COUNT(DISTINCT user_id), COUNT(DISTINCT product_id) FROM orders";
    assert!(execute_test(sql, ExpectedResult::Success).is_ok());
}

#[test]
fn test_sum_with_expression() {
    let sql = "SELECT SUM(price * quantity) AS total FROM order_items";
    assert!(execute_test(sql, ExpectedResult::Success).is_ok());
}

#[test]
fn test_avg_with_cast() {
    let sql = "SELECT AVG(CAST(value AS DOUBLE)) FROM measurements";
    assert!(execute_test(sql, ExpectedResult::Success).is_ok());
}

#[test]
fn test_count_with_case() {
    let sql = r#"
        SELECT COUNT(CASE WHEN status = 'active' THEN 1 END) AS active_count
        FROM users
    "#;
    assert!(execute_test(sql, ExpectedResult::Success).is_ok());
}

#[test]
fn test_aggregate_subquery() {
    let sql = r#"
        SELECT (SELECT COUNT(*) FROM orders WHERE user_id = u.id) AS order_count
        FROM users u
    "#;
    assert!(execute_test(sql, ExpectedResult::Success).is_ok());
}

#[test]
fn test_group_by_single_column() {
    let sql = r#"
        SELECT category, COUNT(*)
        FROM products
        GROUP BY category
    "#;
    assert!(execute_test(sql, ExpectedResult::Success).is_ok());
}

#[test]
fn test_group_by_multiple_columns() {
    let sql = r#"
        SELECT category, brand, COUNT(*)
        FROM products
        GROUP BY category, brand
    "#;
    assert!(execute_test(sql, ExpectedResult::Success).is_ok());
}
