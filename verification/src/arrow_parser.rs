//! Results that the backends send in the Arrow IPC stream format, read into
//! MySQL result sets.

use vstd::prelude::*;
use arrow::array::{
    Array, BooleanArray, Date32Array, Date64Array, Decimal128Array, Float32Array, Float64Array, Int16Array,
    Int32Array, Int64Array, Int8Array, LargeStringArray, StringArray, UInt16Array, UInt32Array,
    UInt64Array, UInt8Array,
};
use arrow::datatypes::DataType as ArrowDataType;
use arrow::ipc::reader::StreamReader;
use arrow::record_batch::RecordBatch;
use crate::error::DorisError;
use crate::ipc_check::{ipc_stream_checked, stream_checked};
use crate::mysql::{column_type_code, ColumnDefinition, ColumnType, ResultRow};
use crate::query::QueryResult;
use crate::text::{int_text, nat_digits, push_i64_text, push_str, string_of, u64_to_string};

verus! {

/// A decoded batch of rows: arrow's `RecordBatch`, whose declaration Verus
/// refuses, held whole; its shape and column types are read by name.
#[verifier::external_body]
pub struct ArrowBatch {
    batch: RecordBatch,
}

/// A reader of an Arrow IPC stream (an outside type, carried through).
#[verifier::external_type_specification]
#[verifier::external_body]
#[verifier::reject_recursive_types(R)]
pub struct ExStreamReader<R>(StreamReader<R>);

/// The Arrow data types that results are read by.
#[derive(Debug, Clone, Copy, PartialEq, Eq, Structural)]
pub enum ArrowType {
    Boolean,
    Int8,
    Int16,
    Int32,
    Int64,
    UInt8,
    UInt16,
    UInt32,
    UInt64,
    Float32,
    Float64,
    Utf8,
    LargeUtf8,
    Date32,
    Date64,
    Timestamp,
    Decimal128,
    Decimal256,
    Binary,
    LargeBinary,
    Time32,
    Time64,
    Other,
}

/// A value of a result, as read from a column.
#[derive(Debug, Clone)]
pub enum ArrowValue {
    Null,
    Boolean(bool),
    Int(i64),
    UInt(u64),
    /// A floating-point value, in std's `Display` rendering.
    FloatText(String),
    Text(String),
    /// Days since the epoch.
    Date32(i32),
    /// Milliseconds since the epoch.
    Date64(i64),
    /// A value of another type, in the `Debug` rendering of its one-row slice.
    Debug(String),
}

/// What an Arrow IPC stream of these bytes gives: the error of opening it,
/// or its items (see `reader_items`).
pub uninterp spec fn ipc_stream(data: Seq<u8>) -> Result<Seq<Result<ArrowBatch, Seq<char>>>, Seq<char>>;

/// The items that a stream reader has yet to give: its batches in order,
/// ending at the end of the stream or at its first error.
pub uninterp spec fn reader_items(reader: StreamReader<&[u8]>) -> Seq<Result<ArrowBatch, Seq<char>>>;

/// The batches of a list of stream items, or the message of its first error.
pub open spec fn batches_read(items: Seq<Result<ArrowBatch, Seq<char>>>) -> Result<Seq<ArrowBatch>, Seq<char>>
    decreases items.len(),
{
    if items.len() == 0 {
        Ok(Seq::empty())
    } else {
        match items[0] {
            Err(e) => Err("Failed to read Arrow batch: "@ + e),
            Ok(b) => prepend_batches(seq![b], batches_read(items.drop_first())),
        }
    }
}

/// `acc` in front of the batches of a read, or its error.
pub open spec fn prepend_batches(acc: Seq<ArrowBatch>, r: Result<Seq<ArrowBatch>, Seq<char>>) -> Result<
    Seq<ArrowBatch>,
    Seq<char>,
> {
    match r {
        Ok(bs) => Ok(acc + bs),
        Err(m) => Err(m),
    }
}

/// The batches of an Arrow IPC stream, or the message of the error that
/// stops reading it.
pub open spec fn stream_batches(data: Seq<u8>) -> Result<Seq<ArrowBatch>, Seq<char>> {
    match ipc_stream(data) {
        Err(e) => Err("Failed to parse Arrow stream: "@ + e),
        Ok(items) => batches_read(items),
    }
}

/// The (rows, columns) of a batch.
pub uninterp spec fn batch_dims(b: ArrowBatch) -> (nat, nat);

/// A value of a cell as the reader of its column's type gives it.
pub enum CellValue {
    Boolean(bool),
    Int(i64),
    UInt(u64),
    /// A floating-point value, in std's `Display` rendering.
    Float(Seq<char>),
    Text(Seq<char>),
    Date32(i32),
    Date64(i64),
    /// An unscaled value and its type's scale.
    Decimal128(i128, i8),
    Other,
}

/// A cell of a batch: whether it is null, its value, and the `Debug`
/// rendering of its one-row slice.
pub struct CellModel {
    pub null: bool,
    pub value: CellValue,
    pub debug: Seq<char>,
}

/// A column of a batch: its field's name, its type and its cells.
pub struct ColumnModel {
    pub name: Seq<char>,
    pub data_type: ArrowType,
    pub cells: Seq<CellModel>,
}

/// The columns of a batch. The readers below claim that what they read of
/// a batch (names, types, nulls, values, renderings) is what this records,
/// so two reads of one cell agree.
pub uninterp spec fn batch_columns(b: ArrowBatch) -> Seq<ColumnModel>;

/// The data type of each column of a batch.
pub open spec fn batch_column_types(b: ArrowBatch) -> Seq<ArrowType> {
    batch_columns(b).map_values(|c: ColumnModel| c.data_type)
}

/// The cell at `(col, row)` of a batch.
pub open spec fn cell_of(b: ArrowBatch, col: int, row: int) -> CellModel {
    batch_columns(b)[col].cells[row]
}

/// The types read as numbers, booleans or floats.
pub open spec fn is_primitive(t: ArrowType) -> bool {
    match t {
        ArrowType::Boolean | ArrowType::Int8 | ArrowType::Int16 | ArrowType::Int32
        | ArrowType::Int64 | ArrowType::UInt8 | ArrowType::UInt16 | ArrowType::UInt32
        | ArrowType::UInt64 | ArrowType::Float32 | ArrowType::Float64 => true,
        _ => false,
    }
}

/// `(col, row)` is a cell of the batch. Not stated of the readers: that
/// every column has as many cells as the batch has rows.
pub open spec fn in_batch(b: ArrowBatch, col: int, row: int) -> bool {
    0 <= col < batch_dims(b).1 && 0 <= row < batch_dims(b).0 && batch_column_types(b).len()
        == batch_dims(b).1
}

/// The next call of `next` on the reader returns without a failed
/// assertion inside arrow: what is left of its stream passed the layout
/// check (see `stream_checked`).
pub uninterp spec fn reader_checked(reader: StreamReader<&[u8]>) -> bool;

/// Opens an Arrow IPC stream (arrow's `StreamReader::try_new`, no
/// projection); the error is arrow's `Display` of it. Claimed: what the
/// stream gives depends on the bytes alone (named by `ipc_stream`), and a
/// reader opened on bytes that pass the layout check decodes its next item
/// without a failed assertion (arrow slices each buffer of a record batch
/// out of the message body with `Buffer::slice_with_length`, which asserts
/// that it lies inside; the check rules out buffers outside the body,
/// compression, dictionaries and nested column types).
#[verifier::external_body]
fn open_stream<'a>(data: &'a [u8]) -> (r: Result<StreamReader<&'a [u8]>, String>)
    requires
        stream_checked(data@),
    ensures
        match r {
            Ok(reader) => ipc_stream(data@) == Ok::<Seq<Result<ArrowBatch, Seq<char>>>, Seq<char>>(
                reader_items(reader),
            ) && reader_checked(reader),
            Err(e) => ipc_stream(data@) == Err::<Seq<Result<ArrowBatch, Seq<char>>>, Seq<char>>(e@),
        },
{
    match StreamReader::try_new(data, None) {
        Ok(reader) => Ok(reader),
        Err(e) => Err(e.to_string()),
    }
}

/// The next item of the stream (`Iterator::next` of `StreamReader`); the
/// error is arrow's `Display` of it. Claimed: it is the first of the items
/// the reader has yet to give (`reader_items`), and after a batch the rest
/// remain, and what is left of the stream still passes the layout check;
/// after an error nothing is said of the reader.
#[verifier::external_body]
fn next_batch<'a>(reader: &mut StreamReader<&'a [u8]>) -> (r: Option<Result<ArrowBatch, String>>)
    requires
        reader_checked(*old(reader)),
    ensures
        reader_items(*old(reader)).len() == 0 ==> r is None,
        reader_items(*old(reader)).len() > 0 ==> match r {
            Some(Ok(b)) => reader_items(*old(reader))[0] == Ok::<ArrowBatch, Seq<char>>(b)
                && reader_items(*final(reader)) == reader_items(*old(reader)).drop_first()
                && batch_columns(b).len() == batch_dims(b).1 && reader_checked(*final(reader)),
            Some(Err(e)) => reader_items(*old(reader))[0] == Err::<ArrowBatch, Seq<char>>(e@),
            None => false,
        },
{
    match reader.next() {
        Some(Ok(batch)) => Some(Ok(ArrowBatch { batch })),
        Some(Err(e)) => Some(Err(e.to_string())),
        None => None,
    }
}

/// The number of rows of a batch (`RecordBatch::num_rows`).
#[verifier::external_body]
pub(crate) fn batch_num_rows(b: &ArrowBatch) -> (r: usize)
    ensures
        r == batch_dims(*b).0,
{
    b.batch.num_rows()
}

/// The number of columns of a batch (`RecordBatch::num_columns`), which is
/// also the number of fields of its schema.
#[verifier::external_body]
pub(crate) fn batch_num_columns(b: &ArrowBatch) -> (r: usize)
    ensures
        r == batch_dims(*b).1,
        r == batch_columns(*b).len(),
{
    b.batch.num_columns()
}

/// The name of field `i` of a batch's schema.
#[verifier::external_body]
pub(crate) fn batch_field_name(b: &ArrowBatch, i: usize) -> (r: String)
    requires
        i < batch_dims(*b).1,
    ensures
        r@ == batch_columns(*b)[i as int].name,
{
    b.batch.schema().field(i).name().clone()
}

/// The type of column `i` when it is a primitive type.
#[verifier::external_body]
fn column_primitive_type(b: &ArrowBatch, i: usize) -> (r: Option<ArrowType>)
    requires
        i < batch_dims(*b).1,
        batch_column_types(*b).len() == batch_dims(*b).1,
    ensures
        match r {
            Some(t) => batch_column_types(*b)[i as int] == t && is_primitive(t),
            None => !is_primitive(batch_column_types(*b)[i as int]),
        },
{
    match b.batch.column(i).data_type() {
        ArrowDataType::Boolean => Some(ArrowType::Boolean),
        ArrowDataType::Int8 => Some(ArrowType::Int8),
        ArrowDataType::Int16 => Some(ArrowType::Int16),
        ArrowDataType::Int32 => Some(ArrowType::Int32),
        ArrowDataType::Int64 => Some(ArrowType::Int64),
        ArrowDataType::UInt8 => Some(ArrowType::UInt8),
        ArrowDataType::UInt16 => Some(ArrowType::UInt16),
        ArrowDataType::UInt32 => Some(ArrowType::UInt32),
        ArrowDataType::UInt64 => Some(ArrowType::UInt64),
        ArrowDataType::Float32 => Some(ArrowType::Float32),
        ArrowDataType::Float64 => Some(ArrowType::Float64),
        _ => None,
    }
}

/// The type of column `i` when it is not a primitive type.
#[verifier::external_body]
fn column_other_type(b: &ArrowBatch, i: usize) -> (r: ArrowType)
    requires
        i < batch_dims(*b).1,
        batch_column_types(*b).len() == batch_dims(*b).1,
        !is_primitive(batch_column_types(*b)[i as int]),
    ensures
        r == batch_column_types(*b)[i as int],
{
    match b.batch.column(i).data_type() {
        ArrowDataType::Utf8 => ArrowType::Utf8,
        ArrowDataType::LargeUtf8 => ArrowType::LargeUtf8,
        ArrowDataType::Date32 => ArrowType::Date32,
        ArrowDataType::Date64 => ArrowType::Date64,
        ArrowDataType::Timestamp(..) => ArrowType::Timestamp,
        ArrowDataType::Decimal128(..) => ArrowType::Decimal128,
        ArrowDataType::Decimal256(..) => ArrowType::Decimal256,
        ArrowDataType::Binary => ArrowType::Binary,
        ArrowDataType::LargeBinary => ArrowType::LargeBinary,
        ArrowDataType::Time32(..) => ArrowType::Time32,
        ArrowDataType::Time64(..) => ArrowType::Time64,
        _ => ArrowType::Other,
    }
}

/// Whether a cell is null (`Array::is_null`).
#[verifier::external_body]
pub(crate) fn cell_is_null(b: &ArrowBatch, col: usize, row: usize) -> (r: bool)
    requires
        in_batch(*b, col as int, row as int),
    ensures
        r == cell_of(*b, col as int, row as int).null,
{
    b.batch.column(col).is_null(row)
}

/// A boolean cell.
#[verifier::external_body]
pub(crate) fn cell_bool(b: &ArrowBatch, col: usize, row: usize) -> (r: bool)
    requires
        in_batch(*b, col as int, row as int),
        batch_column_types(*b)[col as int] == ArrowType::Boolean,
    ensures
        cell_of(*b, col as int, row as int).value == CellValue::Boolean(r),
{
    b.batch.column(col).as_any().downcast_ref::<BooleanArray>().unwrap().value(row)
}

/// A signed integer cell, widened to 64 bits.
#[verifier::external_body]
pub(crate) fn cell_int(b: &ArrowBatch, col: usize, row: usize) -> (r: i64)
    requires
        in_batch(*b, col as int, row as int),
        batch_column_types(*b)[col as int] is Int8 || batch_column_types(*b)[col as int] is Int16
            || batch_column_types(*b)[col as int] is Int32 || batch_column_types(
            *b,
        )[col as int] is Int64,
    ensures
        cell_of(*b, col as int, row as int).value == CellValue::Int(r),
{
    let a = b.batch.column(col).as_any();
    match b.batch.column(col).data_type() {
        ArrowDataType::Int8 => a.downcast_ref::<Int8Array>().unwrap().value(row) as i64,
        ArrowDataType::Int16 => a.downcast_ref::<Int16Array>().unwrap().value(row) as i64,
        ArrowDataType::Int32 => a.downcast_ref::<Int32Array>().unwrap().value(row) as i64,
        _ => a.downcast_ref::<Int64Array>().unwrap().value(row),
    }
}

/// An unsigned integer cell, widened to 64 bits.
#[verifier::external_body]
fn cell_uint(b: &ArrowBatch, col: usize, row: usize) -> (r: u64)
    requires
        in_batch(*b, col as int, row as int),
        batch_column_types(*b)[col as int] is UInt8 || batch_column_types(*b)[col as int] is UInt16
            || batch_column_types(*b)[col as int] is UInt32 || batch_column_types(
            *b,
        )[col as int] is UInt64,
    ensures
        cell_of(*b, col as int, row as int).value == CellValue::UInt(r),
{
    let a = b.batch.column(col).as_any();
    match b.batch.column(col).data_type() {
        ArrowDataType::UInt8 => a.downcast_ref::<UInt8Array>().unwrap().value(row) as u64,
        ArrowDataType::UInt16 => a.downcast_ref::<UInt16Array>().unwrap().value(row) as u64,
        ArrowDataType::UInt32 => a.downcast_ref::<UInt32Array>().unwrap().value(row) as u64,
        _ => a.downcast_ref::<UInt64Array>().unwrap().value(row),
    }
}

/// A floating-point cell, in std's `Display` rendering.
#[verifier::external_body]
pub(crate) fn cell_float_text(b: &ArrowBatch, col: usize, row: usize) -> (r: String)
    requires
        in_batch(*b, col as int, row as int),
        batch_column_types(*b)[col as int] is Float32 || batch_column_types(
            *b,
        )[col as int] is Float64,
    ensures
        cell_of(*b, col as int, row as int).value == CellValue::Float(r@),
{
    let a = b.batch.column(col).as_any();
    match b.batch.column(col).data_type() {
        ArrowDataType::Float32 => a.downcast_ref::<Float32Array>().unwrap().value(row).to_string(),
        _ => a.downcast_ref::<Float64Array>().unwrap().value(row).to_string(),
    }
}

/// A string cell.
#[verifier::external_body]
pub(crate) fn cell_str(b: &ArrowBatch, col: usize, row: usize) -> (r: String)
    requires
        in_batch(*b, col as int, row as int),
        batch_column_types(*b)[col as int] is Utf8 || batch_column_types(
            *b,
        )[col as int] is LargeUtf8,
    ensures
        cell_of(*b, col as int, row as int).value == CellValue::Text(r@),
{
    let a = b.batch.column(col).as_any();
    match b.batch.column(col).data_type() {
        ArrowDataType::Utf8 => a.downcast_ref::<StringArray>().unwrap().value(row).to_string(),
        _ => a.downcast_ref::<LargeStringArray>().unwrap().value(row).to_string(),
    }
}

/// A date cell, in days since the epoch.
#[verifier::external_body]
pub(crate) fn cell_date32(b: &ArrowBatch, col: usize, row: usize) -> (r: i32)
    requires
        in_batch(*b, col as int, row as int),
        batch_column_types(*b)[col as int] == ArrowType::Date32,
    ensures
        cell_of(*b, col as int, row as int).value == CellValue::Date32(r),
{
    b.batch.column(col).as_any().downcast_ref::<Date32Array>().unwrap().value(row)
}

/// A 128-bit decimal cell: its unscaled value and its type's scale.
#[verifier::external_body]
pub(crate) fn cell_decimal128(b: &ArrowBatch, col: usize, row: usize) -> (r: (i128, i8))
    requires
        in_batch(*b, col as int, row as int),
        batch_column_types(*b)[col as int] == ArrowType::Decimal128,
    ensures
        cell_of(*b, col as int, row as int).value == CellValue::Decimal128(r.0, r.1),
{
    let a = b.batch.column(col).as_any().downcast_ref::<Decimal128Array>().unwrap();
    (a.value(row), a.scale())
}

/// A date-time cell, in milliseconds since the epoch.
#[verifier::external_body]
fn cell_date64(b: &ArrowBatch, col: usize, row: usize) -> (r: i64)
    requires
        in_batch(*b, col as int, row as int),
        batch_column_types(*b)[col as int] == ArrowType::Date64,
    ensures
        cell_of(*b, col as int, row as int).value == CellValue::Date64(r),
{
    b.batch.column(col).as_any().downcast_ref::<Date64Array>().unwrap().value(row)
}

/// Any cell, in the `Debug` rendering of its one-row slice.
#[verifier::external_body]
pub(crate) fn cell_debug(b: &ArrowBatch, col: usize, row: usize) -> (r: String)
    requires
        in_batch(*b, col as int, row as int),
    ensures
        r@ == cell_of(*b, col as int, row as int).debug,
{
    format!("{:?}", b.batch.column(col).slice(row, 1))
}

/// The number of rows of a list of batches.
pub open spec fn total_rows(batches: Seq<ArrowBatch>) -> nat
    decreases batches.len(),
{
    if batches.len() == 0 {
        0
    } else {
        total_rows(batches.drop_last()) + batch_dims(batches.last()).0
    }
}

/// `v` is the value read from cell `c` of a column of type `t`: null for a
/// null cell, else the value variant of the type's family holding the
/// cell's value (the `Debug` rendering for the other types).
pub open spec fn is_value_read(v: ArrowValue, t: ArrowType, c: CellModel) -> bool {
    if c.null {
        v is Null
    } else {
        match t {
            ArrowType::Boolean => (v matches ArrowValue::Boolean(x) && c.value == CellValue::Boolean(x)),
            ArrowType::Int8 | ArrowType::Int16 | ArrowType::Int32 | ArrowType::Int64 => (v matches ArrowValue::Int(
                x,
            ) && c.value == CellValue::Int(x)),
            ArrowType::UInt8 | ArrowType::UInt16 | ArrowType::UInt32 | ArrowType::UInt64 => (v matches ArrowValue::UInt(
                x,
            ) && c.value == CellValue::UInt(x)),
            ArrowType::Float32 | ArrowType::Float64 => (v matches ArrowValue::FloatText(x) && c.value
                == CellValue::Float(x@)),
            ArrowType::Utf8 | ArrowType::LargeUtf8 => (v matches ArrowValue::Text(x) && c.value
                == CellValue::Text(x@)),
            ArrowType::Date32 => (v matches ArrowValue::Date32(x) && c.value == CellValue::Date32(x)),
            ArrowType::Date64 => (v matches ArrowValue::Date64(x) && c.value == CellValue::Date64(x)),
            _ => (v matches ArrowValue::Debug(x) && x@ == c.debug),
        }
    }
}

/// The text sent to the client for cell `c` of a column of type `t`
/// (`None` for NULL; see `value_text`).
pub open spec fn arrow_cell_text(t: ArrowType, c: CellModel) -> Option<Seq<char>> {
    if c.null {
        None
    } else {
        match t {
            ArrowType::Boolean => match c.value {
                CellValue::Boolean(x) => Some(
                    if x {
                        "true"@
                    } else {
                        "false"@
                    },
                ),
                _ => None,
            },
            ArrowType::Int8 | ArrowType::Int16 | ArrowType::Int32 | ArrowType::Int64 => match c.value {
                CellValue::Int(x) => Some(int_text(x as int)),
                _ => None,
            },
            ArrowType::UInt8 | ArrowType::UInt16 | ArrowType::UInt32 | ArrowType::UInt64 => match c.value {
                CellValue::UInt(x) => Some(nat_digits(x as nat)),
                _ => None,
            },
            ArrowType::Float32 | ArrowType::Float64 => match c.value {
                CellValue::Float(x) => Some(x),
                _ => None,
            },
            ArrowType::Utf8 | ArrowType::LargeUtf8 => match c.value {
                CellValue::Text(x) => Some(x),
                _ => None,
            },
            ArrowType::Date32 => match c.value {
                CellValue::Date32(x) => Some("Date("@ + int_text(x as int) + ")"@),
                _ => None,
            },
            ArrowType::Date64 => match c.value {
                CellValue::Date64(x) => Some("DateTime("@ + int_text(x as int) + ")"@),
                _ => None,
            },
            _ => Some(c.debug),
        }
    }
}

/// The MySQL column type of an Arrow type.
pub open spec fn mysql_type_of(t: ArrowType) -> ColumnType {
    match t {
        ArrowType::Boolean => ColumnType::Tiny,
        ArrowType::Int8 => ColumnType::Tiny,
        ArrowType::Int16 => ColumnType::Short,
        ArrowType::Int32 => ColumnType::Long,
        ArrowType::Int64 => ColumnType::LongLong,
        ArrowType::UInt8 => ColumnType::Tiny,
        ArrowType::UInt16 => ColumnType::Short,
        ArrowType::UInt32 => ColumnType::Long,
        ArrowType::UInt64 => ColumnType::LongLong,
        ArrowType::Float32 => ColumnType::Float,
        ArrowType::Float64 => ColumnType::Double,
        ArrowType::Utf8 => ColumnType::VarString,
        ArrowType::LargeUtf8 => ColumnType::VarString,
        ArrowType::Date32 => ColumnType::Date,
        ArrowType::Date64 => ColumnType::DateTime,
        ArrowType::Timestamp => ColumnType::Timestamp,
        ArrowType::Decimal128 => ColumnType::NewDecimal,
        ArrowType::Decimal256 => ColumnType::NewDecimal,
        _ => ColumnType::VarString,
    }
}

/// The text of a value sent to the client (`None` for NULL): booleans as
/// `true`/`false`, integers in decimal, dates as `Date(days)` and
/// `DateTime(millis)`, the rest as read.
pub open spec fn value_text(v: ArrowValue) -> Option<Seq<char>> {
    match v {
        ArrowValue::Null => None,
        ArrowValue::Boolean(b) => Some(
            if b {
                "true"@
            } else {
                "false"@
            },
        ),
        ArrowValue::Int(n) => Some(int_text(n as int)),
        ArrowValue::UInt(n) => Some(nat_digits(n as nat)),
        ArrowValue::FloatText(s) => Some(s@),
        ArrowValue::Text(s) => Some(s@),
        ArrowValue::Date32(d) => Some("Date("@ + int_text(d as int) + ")"@),
        ArrowValue::Date64(ms) => Some("DateTime("@ + int_text(ms as int) + ")"@),
        ArrowValue::Debug(s) => Some(s@),
    }
}

/// The texts of a row, `None` for NULL.
pub open spec fn row_texts(r: ResultRow) -> Seq<Option<Seq<char>>> {
    r.values@.map_values(|v: Option<String>| match v {
        Some(s) => Some(s@),
        None => None,
    })
}

/// The texts of the rows of a result.
pub open spec fn rows_texts(rows: Seq<ResultRow>) -> Seq<Seq<Option<Seq<char>>>> {
    rows.map_values(|r: ResultRow| row_texts(r))
}

/// The texts of row `row` of a batch, one per column.
pub open spec fn batch_row_texts(b: ArrowBatch, row: int) -> Seq<Option<Seq<char>>> {
    Seq::new(
        batch_dims(b).1,
        |c: int| arrow_cell_text(batch_column_types(b)[c], cell_of(b, c, row)),
    )
}

/// The texts of the rows of a batch.
pub open spec fn batch_rows_texts(b: ArrowBatch) -> Seq<Seq<Option<Seq<char>>>> {
    Seq::new(batch_dims(b).0, |r: int| batch_row_texts(b, r))
}

/// The texts of every row of every batch, in order.
pub open spec fn result_rows(bs: Seq<ArrowBatch>) -> Seq<Seq<Option<Seq<char>>>>
    decreases bs.len(),
{
    if bs.len() == 0 {
        Seq::empty()
    } else {
        result_rows(bs.drop_last()) + batch_rows_texts(bs.last())
    }
}

/// `d` is the MySQL column of field `i` of a batch: its name, the MySQL
/// type of its Arrow type, catalog `def`, UTF-8, display length 255.
pub open spec fn is_result_column(d: ColumnDefinition, b: ArrowBatch, i: int) -> bool {
    &&& d.catalog@ == "def"@
    &&& d.schema@.len() == 0
    &&& d.table@.len() == 0
    &&& d.org_table@.len() == 0
    &&& d.name@ == batch_columns(b)[i].name
    &&& d.org_name@ == d.name@
    &&& d.character_set == 33
    &&& d.column_length == 255
    &&& d.column_type == column_type_code(mysql_type_of(batch_column_types(b)[i]))
    &&& d.flags == 0
    &&& d.decimals == 0
}

/// `q` is the MySQL result of the batches: the columns of the first batch's
/// schema, then every row of every batch in order.
pub open spec fn is_arrow_result(q: QueryResult, bs: Seq<ArrowBatch>) -> bool {
    &&& !q.is_dml
    &&& q.affected_rows == 0
    &&& bs.len() == 0 ==> q.columns@.len() == 0
    &&& bs.len() > 0 ==> q.columns@.len() == batch_dims(bs[0]).1 && forall|i: int|
        0 <= i < q.columns@.len() ==> is_result_column(#[trigger] q.columns@[i], bs[0], i)
    &&& rows_texts(q.rows@) == result_rows(bs)
}

/// What parsing a backend response gives: an empty result for no bytes or
/// no batches, the MySQL result of the batches, or the reading error.
pub open spec fn is_parse_outcome(r: Result<QueryResult, DorisError>, data: Seq<u8>) -> bool {
    if data.len() == 0 {
        r matches Ok(q) && is_arrow_result(q, Seq::empty())
    } else {
        match stream_batches(data) {
            Err(m) => r matches Err(DorisError::QueryExecution(x)) && x@ == m,
            Ok(bs) => r matches Ok(q) && is_arrow_result(q, bs),
        }
    }
}

/// Arrow result parser.
pub struct ArrowResultParser;

impl ArrowResultParser {
    /// Parses an Arrow IPC stream from a backend response: an empty
    /// response is an empty result; a stream that does not open or a batch
    /// that does not read is an error. The bytes must pass the layout check
    /// (arrow's decoder asserts on buffers outside a message's body).
    pub fn parse_arrow_stream(data: &[u8]) -> (r: Result<QueryResult, DorisError>)
        requires
            stream_checked(data@),
        ensures
            is_parse_outcome(r, data@),
    {
        if data.len() == 0 {
            let q = QueryResult::empty();
            assert(rows_texts(q.rows@) =~= result_rows(Seq::<ArrowBatch>::empty()));
            return Ok(q);
        }
        let all_batches = Self::read_batches(data)?;
        if all_batches.len() == 0 {
            let q = QueryResult::empty();
            assert(rows_texts(q.rows@) =~= result_rows(all_batches@));
            return Ok(q);
        }
        Self::convert_to_query_result(&all_batches)
    }

    /// Reads every batch of an Arrow IPC stream, in order: an error when the
    /// stream does not open or a batch does not read.
    pub fn read_batches(data: &[u8]) -> (r: Result<Vec<ArrowBatch>, DorisError>)
        requires
            stream_checked(data@),
        ensures
            match r {
                Ok(v) => stream_batches(data@) == Ok::<Seq<ArrowBatch>, Seq<char>>(v@) && forall|i: int|
                    0 <= i < v@.len() ==> batch_column_types(#[trigger] v@[i]).len() == batch_dims(v@[i]).1,
                Err(DorisError::QueryExecution(m)) => stream_batches(data@) == Err::<
                    Seq<ArrowBatch>,
                    Seq<char>,
                >(m@),
                Err(DorisError::QueueFull) => false,
            },
    {
        let mut reader = match open_stream(data) {
            Ok(reader) => reader,
            Err(e) => {
                let mut m = string_of("Failed to parse Arrow stream: ");
                push_str(&mut m, &e);
                return Err(DorisError::QueryExecution(m));
            },
        };
        let mut all_batches: Vec<ArrowBatch> = Vec::new();
        assert(all_batches@ + Seq::<ArrowBatch>::empty() =~= Seq::<ArrowBatch>::empty());
        proof {
            match batches_read(reader_items(reader)) {
                Ok(bs) => assert(all_batches@ + bs =~= bs),
                Err(_) => {},
            }
        }
        loop
            invariant_except_break
                stream_batches(data@) == prepend_batches(all_batches@, batches_read(reader_items(reader))),
                reader_checked(reader),
            invariant
                forall|i: int|
                    0 <= i < all_batches@.len() ==> batch_column_types(#[trigger] all_batches@[i]).len()
                        == batch_dims(all_batches@[i]).1,
            ensures
                stream_batches(data@) == Ok::<Seq<ArrowBatch>, Seq<char>>(all_batches@),
            decreases reader_items(reader).len(),
        {
            let ghost items = reader_items(reader);
            match next_batch(&mut reader) {
                Some(Ok(batch)) => {
                    let ghost acc = all_batches@;
                    all_batches.push(batch);
                    proof {
                        assert(items[0] == Ok::<ArrowBatch, Seq<char>>(batch));
                        match batches_read(items.drop_first()) {
                            Ok(bs) => assert(acc + (seq![batch] + bs) =~= acc.push(batch) + bs),
                            Err(_) => {},
                        }
                    }
                },
                Some(Err(e)) => {
                    let mut m = string_of("Failed to read Arrow batch: ");
                    push_str(&mut m, &e);
                    return Err(DorisError::QueryExecution(m));
                },
                None => {
                    assert(items.len() == 0);
                    assert(all_batches@ + Seq::<ArrowBatch>::empty() =~= all_batches@);
                    break;
                },
            }
        }
        Ok(all_batches)
    }

    /// Converts decoded batches into a MySQL result: the columns of the
    /// first batch's schema, then every row of every batch in order.
    pub fn convert_to_query_result(batches: &Vec<ArrowBatch>) -> (r: Result<QueryResult, DorisError>)
        ensures
            r matches Ok(q) && is_arrow_result(q, batches@),
    {
        if batches.len() == 0 {
            let q = QueryResult::empty();
            assert(rows_texts(q.rows@) =~= result_rows(batches@));
            return Ok(q);
        }
        let columns = Self::convert_schema_to_columns(&batches[0]);
        let mut rows: Vec<ResultRow> = Vec::new();
        let mut b: usize = 0;
        assert(rows_texts(rows@) =~= result_rows(batches@.subrange(0, 0)));
        while b < batches.len()
            invariant
                b <= batches@.len(),
                rows_texts(rows@) == result_rows(batches@.subrange(0, b as int)),
            decreases batches@.len() - b,
        {
            let batch = &batches[b];
            let num_rows = batch_num_rows(batch);
            let num_cols = batch_num_columns(batch);
            let ghost before = rows_texts(rows@);
            assert(batches@.subrange(0, b + 1).drop_last() =~= batches@.subrange(0, b as int));
            assert(batches@.subrange(0, b + 1).last() == batches@[b as int]);
            let mut row_idx: usize = 0;
            assert(rows_texts(rows@) =~= before + batch_rows_texts(*batch).subrange(0, 0));
            while row_idx < num_rows
                invariant
                    b < batches@.len(),
                    batch == batches@[b as int],
                    num_rows == batch_dims(*batch).0,
                    num_cols == batch_dims(*batch).1,
                    batch_column_types(*batch).len() == batch_dims(*batch).1,
                    row_idx <= num_rows,
                    rows_texts(rows@) == before + batch_rows_texts(*batch).subrange(0, row_idx as int),
                decreases num_rows - row_idx,
            {
                let mut row_values: Vec<Option<String>> = Vec::new();
                let mut col_idx: usize = 0;
                while col_idx < num_cols
                    invariant
                        row_idx < num_rows,
                        num_rows == batch_dims(*batch).0,
                        num_cols == batch_dims(*batch).1,
                        batch_column_types(*batch).len() == batch_dims(*batch).1,
                        col_idx <= num_cols,
                        row_values@.len() == col_idx,
                        forall|c: int|
                            0 <= c < col_idx ==> (match #[trigger] row_values@[c] {
                                Some(s) => Some(s@),
                                None => None::<Seq<char>>,
                            }) == arrow_cell_text(
                                batch_column_types(*batch)[c],
                                cell_of(*batch, c, row_idx as int),
                            ),
                    decreases num_cols - col_idx,
                {
                    let value = Self::extract_value_at(batch, col_idx, row_idx);
                    row_values.push(value);
                    col_idx = col_idx + 1;
                }
                let row = ResultRow::new(row_values);
                assert(row_texts(row) =~= batch_row_texts(*batch, row_idx as int));
                let ghost prev = rows@;
                rows.push(row);
                assert(rows_texts(rows@) =~= rows_texts(prev).push(row_texts(row)));
                assert(batch_rows_texts(*batch).subrange(0, row_idx + 1) =~= batch_rows_texts(
                    *batch,
                ).subrange(0, row_idx as int).push(batch_row_texts(*batch, row_idx as int)));
                row_idx = row_idx + 1;
            }
            assert(batch_rows_texts(*batch).subrange(0, num_rows as int) =~= batch_rows_texts(*batch));
            b = b + 1;
        }
        assert(batches@.subrange(0, batches@.len() as int) =~= batches@);
        Ok(QueryResult::new_select(columns, rows))
    }

    /// The MySQL columns of a batch's schema: each field's name, with the
    /// MySQL type of its Arrow type.
    pub fn convert_schema_to_columns(batch: &ArrowBatch) -> (r: Vec<ColumnDefinition>)
        ensures
            r@.len() == batch_dims(*batch).1,
            forall|i: int| 0 <= i < r@.len() ==> is_result_column(#[trigger] r@[i], *batch, i),
    {
        let n = batch_num_columns(batch);
        let mut columns: Vec<ColumnDefinition> = Vec::new();
        let mut i: usize = 0;
        while i < n
            invariant
                n == batch_dims(*batch).1,
                batch_column_types(*batch).len() == batch_dims(*batch).1,
                i <= n,
                columns@.len() == i,
                forall|k: int| 0 <= k < i ==> is_result_column(#[trigger] columns@[k], *batch, k),
            decreases n - i,
        {
            let t = Self::column_type(batch, i);
            let column_type = Self::arrow_type_to_mysql_type(t);
            columns.push(ColumnDefinition::new(batch_field_name(batch, i), column_type));
            i = i + 1;
        }
        columns
    }

    /// The Arrow type of column `i` of a batch.
    pub fn column_type(batch: &ArrowBatch, i: usize) -> (r: ArrowType)
        requires
            i < batch_dims(*batch).1,
            batch_column_types(*batch).len() == batch_dims(*batch).1,
        ensures
            r == batch_column_types(*batch)[i as int],
    {
        match column_primitive_type(batch, i) {
            Some(t) => t,
            None => column_other_type(batch, i),
        }
    }

    /// Maps an Arrow data type to a MySQL column type.
    pub fn arrow_type_to_mysql_type(arrow_type: ArrowType) -> (r: ColumnType)
        ensures
            r == mysql_type_of(arrow_type),
    {
        match arrow_type {
            ArrowType::Boolean => ColumnType::Tiny,
            ArrowType::Int8 => ColumnType::Tiny,
            ArrowType::Int16 => ColumnType::Short,
            ArrowType::Int32 => ColumnType::Long,
            ArrowType::Int64 => ColumnType::LongLong,
            ArrowType::UInt8 => ColumnType::Tiny,
            ArrowType::UInt16 => ColumnType::Short,
            ArrowType::UInt32 => ColumnType::Long,
            ArrowType::UInt64 => ColumnType::LongLong,
            ArrowType::Float32 => ColumnType::Float,
            ArrowType::Float64 => ColumnType::Double,
            ArrowType::Utf8 => ColumnType::VarString,
            ArrowType::LargeUtf8 => ColumnType::VarString,
            ArrowType::Date32 => ColumnType::Date,
            ArrowType::Date64 => ColumnType::DateTime,
            ArrowType::Timestamp => ColumnType::Timestamp,
            ArrowType::Decimal128 => ColumnType::NewDecimal,
            ArrowType::Decimal256 => ColumnType::NewDecimal,
            _ => ColumnType::VarString,
        }
    }

    /// Reads the value at a cell: null, or the value in the form its
    /// column's type gives it.
    pub fn read_value_at(batch: &ArrowBatch, col: usize, row: usize) -> (r: ArrowValue)
        requires
            in_batch(*batch, col as int, row as int),
        ensures
            is_value_read(r, batch_column_types(*batch)[col as int], cell_of(*batch, col as int, row as int)),
    {
        if cell_is_null(batch, col, row) {
            return ArrowValue::Null;
        }
        match Self::column_type(batch, col) {
            ArrowType::Boolean => ArrowValue::Boolean(cell_bool(batch, col, row)),
            ArrowType::Int8 | ArrowType::Int16 | ArrowType::Int32 | ArrowType::Int64 => ArrowValue::Int(
                cell_int(batch, col, row),
            ),
            ArrowType::UInt8 | ArrowType::UInt16 | ArrowType::UInt32 | ArrowType::UInt64 =>
                ArrowValue::UInt(cell_uint(batch, col, row)),
            ArrowType::Float32 | ArrowType::Float64 => ArrowValue::FloatText(
                cell_float_text(batch, col, row),
            ),
            ArrowType::Utf8 | ArrowType::LargeUtf8 => ArrowValue::Text(cell_str(batch, col, row)),
            ArrowType::Date32 => ArrowValue::Date32(cell_date32(batch, col, row)),
            ArrowType::Date64 => ArrowValue::Date64(cell_date64(batch, col, row)),
            _ => ArrowValue::Debug(cell_debug(batch, col, row)),
        }
    }

    /// The text sent to the client for a value (see `value_text`).
    pub fn value_to_text(value: ArrowValue) -> (r: Option<String>)
        ensures
            match r {
                Some(s) => value_text(value) == Some(s@),
                None => value_text(value) is None,
            },
    {
        match value {
            ArrowValue::Null => None,
            ArrowValue::Boolean(b) => Some(
                if b {
                    string_of("true")
                } else {
                    string_of("false")
                },
            ),
            ArrowValue::Int(n) => {
                let mut s = String::new();
                push_i64_text(&mut s, n);
                assert(s@ =~= int_text(n as int));
                Some(s)
            },
            ArrowValue::UInt(n) => Some(u64_to_string(n)),
            ArrowValue::FloatText(s) => Some(s),
            ArrowValue::Text(s) => Some(s),
            ArrowValue::Date32(d) => {
                let mut s = string_of("Date(");
                push_i64_text(&mut s, d as i64);
                push_str(&mut s, ")");
                assert(s@ =~= "Date("@ + int_text(d as int) + ")"@);
                Some(s)
            },
            ArrowValue::Date64(ms) => {
                let mut s = string_of("DateTime(");
                push_i64_text(&mut s, ms);
                push_str(&mut s, ")");
                assert(s@ =~= "DateTime("@ + int_text(ms as int) + ")"@);
                Some(s)
            },
            ArrowValue::Debug(s) => Some(s),
        }
    }

    /// The text of the value at a cell, `None` for NULL.
    pub fn extract_value_at(batch: &ArrowBatch, col: usize, row: usize) -> (r: Option<String>)
        requires
            in_batch(*batch, col as int, row as int),
        ensures
            arrow_cell_text(batch_column_types(*batch)[col as int], cell_of(*batch, col as int, row as int))
                == match r {
                Some(s) => Some(s@),
                None => None::<Seq<char>>,
            },
    {
        Self::value_to_text(Self::read_value_at(batch, col, row))
    }

    /// Parses Arrow Flight data (for now the same as an IPC stream).
    pub fn parse_arrow_flight(data: &[u8]) -> (r: Result<QueryResult, DorisError>)
        requires
            stream_checked(data@),
        ensures
            is_parse_outcome(r, data@),
    {
        Self::parse_arrow_stream(data)
    }

    /// Parses a backend response whose layout is first checked (see
    /// `ipc_stream_checked`): bytes that pass are parsed as an IPC stream
    /// (see `parse_arrow_stream`); others are refused with an error.
    pub fn parse_checked_arrow_stream(data: &[u8]) -> (r: Result<QueryResult, DorisError>)
        ensures
            stream_checked(data@) ==> is_parse_outcome(r, data@),
            !stream_checked(data@) ==> (r matches Err(DorisError::QueryExecution(m)) && m@
                == "Unsupported Arrow IPC stream layout"@),
    {
        if ipc_stream_checked(data) {
            Self::parse_arrow_stream(data)
        } else {
            Err(DorisError::QueryExecution(string_of("Unsupported Arrow IPC stream layout")))
        }
    }
}

} // verus!
