//! Query results in Arrow batches turned into MySQL result sets.

use arrow::array::{BooleanArray, Date32Array, Decimal128Array, Float64Array, Int64Array, StringArray};
use arrow::datatypes::{DataType, Field, Schema};
use arrow::ipc::writer::StreamWriter;
use arrow::record_batch::RecordBatch;
use rust_fe::arrow_parser::{ArrowResultParser, ArrowType};
use rust_fe::error::DorisError;
use rust_fe::mysql::ColumnType;
use rust_fe::query::arrow_results::{
    arrow_to_mysql_result, arrow_to_mysql_type, column_length, decimal_to_text, result_value_to_text,
    ResultValue,
};
use std::sync::Arc;

fn ipc(batch: &RecordBatch) -> Vec<u8> {
    let mut buffer = Vec::new();
    {
        let mut writer = StreamWriter::try_new(&mut buffer, &batch.schema()).unwrap();
        writer.write(batch).unwrap();
        writer.finish().unwrap();
    }
    buffer
}

#[test]
fn result_columns_carry_types_and_lengths() {
    let schema = Arc::new(Schema::new(vec![
        Field::new("id", DataType::Int64, false),
        Field::new("name", DataType::Utf8, true),
        Field::new("price", DataType::Float64, false),
    ]));
    let batch = RecordBatch::try_new(
        schema,
        vec![
            Arc::new(Int64Array::from(vec![1, -2])),
            Arc::new(StringArray::from(vec![Some("a"), None])),
            Arc::new(Float64Array::from(vec![1.5, 2.0])),
        ],
    )
    .unwrap();
    let batches = ArrowResultParser::read_batches(&ipc(&batch)).unwrap();
    let result = arrow_to_mysql_result(&batches).unwrap();
    assert_eq!(result.columns.len(), 3);
    assert_eq!(result.columns[0].name, "id");
    assert_eq!(result.columns[0].org_name, "id");
    assert_eq!(result.columns[0].catalog, "def");
    assert_eq!(result.columns[0].character_set, 33);
    assert_eq!(result.columns[0].column_length, 20);
    assert_eq!(result.columns[0].column_type, ColumnType::LongLong.code());
    assert_eq!(result.columns[1].column_length, 65535);
    assert_eq!(result.columns[2].column_length, 22);
    assert_eq!(result.rows.len(), 2);
    assert_eq!(
        result.rows[0].values,
        vec![Some("1".to_string()), Some("a".to_string()), Some("1.5".to_string())]
    );
    assert_eq!(result.rows[1].values, vec![Some("-2".to_string()), None, Some("2".to_string())]);
}

#[test]
fn result_values_booleans_dates_decimals() {
    let schema = Arc::new(Schema::new(vec![
        Field::new("b", DataType::Boolean, false),
        Field::new("d", DataType::Date32, false),
        Field::new("x", DataType::Decimal128(10, 2), false),
    ]));
    let decimals = Decimal128Array::from(vec![12345i128, -5]).with_precision_and_scale(10, 2).unwrap();
    let batch = RecordBatch::try_new(
        schema,
        vec![
            Arc::new(BooleanArray::from(vec![true, false])),
            Arc::new(Date32Array::from(vec![0, 19723])),
            Arc::new(decimals),
        ],
    )
    .unwrap();
    assert!(rust_fe::ipc_check::ipc_stream_checked(&ipc(&batch)));
    let batches = ArrowResultParser::read_batches(&ipc(&batch)).unwrap();
    let result = arrow_to_mysql_result(&batches).unwrap();
    assert_eq!(
        result.rows[0].values,
        vec![Some("1".to_string()), Some("1970-01-01".to_string()), Some("123.45".to_string())]
    );
    assert_eq!(
        result.rows[1].values,
        vec![Some("0".to_string()), Some("2024-01-01".to_string()), Some("0.05".to_string())]
    );
}

#[test]
fn result_of_no_batches_is_empty() {
    let result = arrow_to_mysql_result(&Vec::new()).unwrap();
    assert!(result.columns.is_empty() && result.rows.is_empty() && !result.is_dml);
}

#[test]
fn decimal_text_pads_fraction() {
    assert_eq!(decimal_to_text(12345, 2), "123.45");
    assert_eq!(decimal_to_text(-12345, 2), "-123.45");
    assert_eq!(decimal_to_text(7, 3), "0.007");
    assert_eq!(decimal_to_text(42, 0), "42.0");
}

#[test]
fn result_value_errors_and_texts() {
    assert!(matches!(
        result_value_to_text(ResultValue::Decimal128 { value: 1, scale: -1 }),
        Err(DorisError::QueryExecution(_))
    ));
    assert!(matches!(
        result_value_to_text(ResultValue::Date32(i32::MAX)),
        Err(DorisError::QueryExecution(_))
    ));
    assert_eq!(result_value_to_text(ResultValue::Boolean(true)).unwrap(), Some("1".to_string()));
    assert_eq!(result_value_to_text(ResultValue::Null).unwrap(), None);
}

#[test]
fn result_types_and_lengths() {
    assert_eq!(arrow_to_mysql_type(ArrowType::Binary), ColumnType::Blob);
    assert_eq!(arrow_to_mysql_type(ArrowType::Time64), ColumnType::Time);
    assert_eq!(arrow_to_mysql_type(ArrowType::Timestamp), ColumnType::DateTime);
    assert_eq!(arrow_to_mysql_type(ArrowType::Date64), ColumnType::Date);
    assert_eq!(column_length(ArrowType::Int32), 11);
    assert_eq!(column_length(ArrowType::Float32), 12);
    assert_eq!(column_length(ArrowType::Boolean), 255);
}

#[test]
fn negative_decimal_scale_has_no_text() {
    let schema = Arc::new(Schema::new(vec![
        Field::new("label", DataType::Utf8, false),
        Field::new("x", DataType::Decimal128(10, -2), false),
    ]));
    let decimals = Decimal128Array::from(vec![5i128]).with_precision_and_scale(10, -2).unwrap();
    let batch = RecordBatch::try_new(
        schema,
        vec![Arc::new(StringArray::from(vec!["a"])), Arc::new(decimals)],
    )
    .unwrap();
    let batches = ArrowResultParser::read_batches(&ipc(&batch)).unwrap();
    match arrow_to_mysql_result(&batches) {
        Err(DorisError::QueryExecution(m)) => assert_eq!(m, "Decimal scale out of range"),
        other => panic!("unexpected {:?}", other.map(|q| q.rows.len())),
    }
}

#[test]
fn result_columns_are_named_after_the_first_batch() {
    let schema = Arc::new(Schema::new(vec![
        Field::new("l_orderkey", DataType::Int64, false),
        Field::new("l_comment", DataType::Utf8, false),
    ]));
    let batch = RecordBatch::try_new(
        schema,
        vec![Arc::new(Int64Array::from(vec![7])), Arc::new(StringArray::from(vec!["x"]))],
    )
    .unwrap();
    let batches = ArrowResultParser::read_batches(&ipc(&batch)).unwrap();
    let result = arrow_to_mysql_result(&batches).unwrap();
    let names: Vec<&str> = result.columns.iter().map(|c| c.name.as_str()).collect();
    assert_eq!(names, vec!["l_orderkey", "l_comment"]);
    assert_eq!(result.rows[0].values, vec![Some("7".to_string()), Some("x".to_string())]);
}

#[test]
fn dates_before_year_one_and_after_9999() {
    let text = |days: i32| match result_value_to_text(ResultValue::Date32(days)) {
        Ok(Some(s)) => s,
        other => panic!("unexpected {:?}", other),
    };
    assert_eq!(text(-719163), "0000-12-31");
    assert_eq!(text(-719163 - 365), "0000-01-01");
    assert_eq!(text(-719163 - 366), "-0001-12-31");
    assert_eq!(text(2932897), "+10000-01-01");
    assert!(result_value_to_text(ResultValue::Date32(i32::MAX)).is_err());
}
