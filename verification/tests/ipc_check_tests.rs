//! The layout check on Arrow IPC streams before they are decoded.

use arrow::array::{Array, Int64Array, ListArray, StringArray};
use arrow::datatypes::{DataType, Field, Int64Type, Schema};
use arrow::ipc::writer::StreamWriter;
use arrow::record_batch::RecordBatch;
use rust_fe::arrow_parser::ArrowResultParser;
use rust_fe::error::DorisError;
use rust_fe::ipc_check::ipc_stream_checked;
use std::sync::Arc;

fn stream_of(batch: &RecordBatch) -> Vec<u8> {
    let mut buffer = Vec::new();
    {
        let mut writer = StreamWriter::try_new(&mut buffer, &batch.schema()).unwrap();
        writer.write(batch).unwrap();
        writer.finish().unwrap();
    }
    buffer
}

fn int_batch() -> RecordBatch {
    let schema = Arc::new(Schema::new(vec![
        Field::new("k", DataType::Int64, false),
        Field::new("s", DataType::Utf8, true),
    ]));
    RecordBatch::try_new(
        schema,
        vec![Arc::new(Int64Array::from(vec![4, 5])), Arc::new(StringArray::from(vec![Some("x"), None]))],
    )
    .unwrap()
}

fn refused(result: Result<rust_fe::query::QueryResult, DorisError>) -> bool {
    matches!(result, Err(DorisError::QueryExecution(m)) if m == "Unsupported Arrow IPC stream layout")
}

#[test]
fn flat_stream_passes_the_check() {
    let data = stream_of(&int_batch());
    assert!(ipc_stream_checked(&data));
    let result = ArrowResultParser::parse_checked_arrow_stream(&data).unwrap();
    assert_eq!(result.rows.len(), 2);
    assert_eq!(result.rows[0].values, vec![Some("4".to_string()), Some("x".to_string())]);
}

#[test]
fn empty_and_truncated_bytes_pass_the_check() {
    assert!(ipc_stream_checked(&[]));
    assert!(ipc_stream_checked(&[1, 2]));
    let data = stream_of(&int_batch());
    assert!(ipc_stream_checked(&data[..data.len() / 2]));
    assert!(ArrowResultParser::parse_checked_arrow_stream(&data[..data.len() / 2]).is_err());
}

#[test]
fn nested_columns_are_refused() {
    let list = ListArray::from_iter_primitive::<Int64Type, _, _>(vec![Some(vec![Some(1)])]);
    let schema = Arc::new(Schema::new(vec![Field::new("l", list.data_type().clone(), true)]));
    let batch = RecordBatch::try_new(schema, vec![Arc::new(list)]).unwrap();
    let data = stream_of(&batch);
    assert!(!ipc_stream_checked(&data));
    assert!(refused(ArrowResultParser::parse_checked_arrow_stream(&data)));
}

#[test]
fn buffer_outside_its_body_is_refused() {
    let schema = Arc::new(Schema::new(vec![Field::new("k", DataType::Int64, false)]));
    let batch = RecordBatch::try_new(schema, vec![Arc::new(Int64Array::from(vec![4, 5]))]).unwrap();
    let mut data = stream_of(&batch);
    // The data buffer of the column: offset 0, length 16, as two little-endian i64.
    let mut pattern = vec![0u8; 8];
    pattern.extend_from_slice(&16i64.to_le_bytes());
    let at = data.windows(16).rposition(|w| w == pattern.as_slice()).unwrap();
    data[at..at + 8].copy_from_slice(&1000i64.to_le_bytes());
    assert!(!ipc_stream_checked(&data));
    assert!(refused(ArrowResultParser::parse_checked_arrow_stream(&data)));
}
