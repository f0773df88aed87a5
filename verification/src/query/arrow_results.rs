//! Query results computed as Arrow batches, turned into MySQL result sets
//! with the column lengths and value renderings that clients expect.

use vstd::prelude::*;
use crate::arrow_parser::{
    batch_column_types, batch_columns, batch_dims, row_texts, rows_texts, batch_field_name, batch_num_columns, batch_num_rows,
    cell_bool, cell_debug, cell_decimal128, cell_float_text, cell_int, cell_is_null, cell_str,
    cell_date32, cell_of, in_batch, ArrowBatch, ArrowResultParser, ArrowType, CellModel, CellValue,
};
use crate::error::DorisError;
use crate::mysql::{column_type_code, ColumnDefinition, ColumnType, ResultRow};
use crate::query::QueryResult;
use crate::text::{
    int_text, nat_digits, push_char, push_i64_text, push_str, push_u128_digits, string_of,
    zero_pad, zeros,
};

verus! {

/// A leap year of the proleptic Gregorian calendar.
pub open spec fn is_leap_year(y: int) -> bool {
    y % 4 == 0 && (y % 100 != 0 || y % 400 == 0)
}

/// The number of days of month `m` of year `y`.
pub open spec fn month_length(y: int, m: int) -> int {
    if m == 2 {
        if is_leap_year(y) {
            29
        } else {
            28
        }
    } else if m == 4 || m == 6 || m == 9 || m == 11 {
        30
    } else {
        31
    }
}

/// The days of the months of year `y` before month `m`.
pub open spec fn days_before_month(y: int, m: int) -> int
    decreases m,
{
    if m <= 1 {
        0
    } else {
        days_before_month(y, m - 1) + month_length(y, m - 1)
    }
}

/// The number of day `d` of month `m` of year `y`, counted from January 1
/// of year 1 (day 1) in the proleptic Gregorian calendar.
pub open spec fn ce_day_number(y: int, m: int, d: int) -> int {
    let p = y - 1;
    365 * p + p / 4 - p / 100 + p / 400 + days_before_month(y, m) + d
}

/// `(y, m, d)` is a date that chrono represents (years -262143 to 262142).
pub open spec fn is_ce_date(y: int, m: int, d: int) -> bool {
    -262143 <= y <= 262142 && 1 <= m <= 12 && 1 <= d <= month_length(y, m)
}

/// A year as chrono's `%Y` writes it: four digits, zero-padded, for years
/// 0 to 9999; otherwise a sign and at least four digits.
pub open spec fn year_text(y: int) -> Seq<char> {
    if 0 <= y <= 9999 {
        zero_pad(nat_digits(y as nat), 4)
    } else if y < 0 {
        "-"@ + zero_pad(nat_digits((-y) as nat), 4)
    } else {
        "+"@ + zero_pad(nat_digits(y as nat), 4)
    }
}

/// The calendar date (`%Y-%m-%d`) of a day numbered from January 1 of year
/// 1 (day 1), if chrono represents it.
pub open spec fn ce_date_text(days: int) -> Option<Seq<char>> {
    if exists|y: int, m: int, d: int| is_ce_date(y, m, d) && ce_day_number(y, m, d) == days {
        let (y, m, d) = choose|y: int, m: int, d: int| is_ce_date(y, m, d) && ce_day_number(y, m, d) == days;
        Some(year_text(y) + "-"@ + zero_pad(nat_digits(m as nat), 2) + "-"@ + zero_pad(nat_digits(d as nat), 2))
    } else {
        None
    }
}

/// The date of a day numbered from January 1 of year 1, formatted as
/// `%Y-%m-%d` (chrono's `NaiveDate::from_num_days_from_ce_opt`, then
/// `format`); `None` where chrono has no such date. Claimed: the text is
/// `ce_date_text` of the day.
#[verifier::external_body]
fn date_from_ce_days(days: i32) -> (r: Option<String>)
    ensures
        match r {
            Some(s) => ce_date_text(days as int) == Some(s@),
            None => ce_date_text(days as int) is None,
        },
{
    match chrono::NaiveDate::from_num_days_from_ce_opt(days) {
        Some(date) => Some(date.format("%Y-%m-%d").to_string()),
        None => None,
    }
}

/// A value of a query result, as read from a column.
#[derive(Debug, Clone)]
pub enum ResultValue {
    Null,
    Int(i64),
    /// A floating-point value, in std's `Display` rendering.
    FloatText(String),
    Text(String),
    Boolean(bool),
    /// Days since the epoch.
    Date32(i32),
    /// An unscaled value and its scale.
    Decimal128 { value: i128, scale: i8 },
    /// A value of another type, in the `Debug` rendering of its one-row slice.
    Debug(String),
}

/// The MySQL column type of an Arrow type in query results.
pub open spec fn result_type_of(t: ArrowType) -> ColumnType {
    match t {
        ArrowType::Int8 | ArrowType::UInt8 => ColumnType::Tiny,
        ArrowType::Int16 | ArrowType::UInt16 => ColumnType::Short,
        ArrowType::Int32 | ArrowType::UInt32 => ColumnType::Long,
        ArrowType::Int64 | ArrowType::UInt64 => ColumnType::LongLong,
        ArrowType::Float32 => ColumnType::Float,
        ArrowType::Float64 => ColumnType::Double,
        ArrowType::Decimal128 | ArrowType::Decimal256 => ColumnType::NewDecimal,
        ArrowType::Utf8 | ArrowType::LargeUtf8 => ColumnType::VarString,
        ArrowType::Binary | ArrowType::LargeBinary => ColumnType::Blob,
        ArrowType::Date32 | ArrowType::Date64 => ColumnType::Date,
        ArrowType::Timestamp => ColumnType::DateTime,
        ArrowType::Time32 | ArrowType::Time64 => ColumnType::Time,
        ArrowType::Boolean => ColumnType::Tiny,
        ArrowType::Other => ColumnType::VarString,
    }
}

/// The display length announced for a column of an Arrow type.
pub open spec fn display_length(t: ArrowType) -> u32 {
    match t {
        ArrowType::Utf8 | ArrowType::LargeUtf8 => 65535,
        ArrowType::Int32 => 11,
        ArrowType::Int64 => 20,
        ArrowType::Float32 => 12,
        ArrowType::Float64 => 22,
        _ => 255,
    }
}

pub open spec fn pow10(n: nat) -> nat
    decreases n,
{
    if n == 0 {
        1
    } else {
        10 * pow10((n - 1) as nat)
    }
}

pub open spec fn abs(v: int) -> nat {
    if v < 0 {
        (-v) as nat
    } else {
        v as nat
    }
}

/// A decimal's text: its integer part (truncated toward zero), a dot, and
/// its fraction zero-padded to `scale` digits.
pub open spec fn decimal_text(value: int, scale: nat) -> Seq<char> {
    let q = abs(value) / pow10(scale);
    let r = abs(value) % pow10(scale);
    (if value < 0 && q != 0 {
        "-"@
    } else {
        Seq::<char>::empty()
    }) + nat_digits(q) + "."@ + zero_pad(nat_digits(r), scale)
}

/// The text of a `Date32` value (days since the epoch): the calendar date,
/// or `None` beyond the calendar.
pub open spec fn date32_text(days: i32) -> Option<Option<Seq<char>>> {
    if days + 719163 > i32::MAX {
        None
    } else {
        match ce_date_text(days + 719163) {
            Some(s) => Some(Some(s)),
            None => None,
        }
    }
}

/// The text of a 128-bit decimal, or `None` for a scale outside `0..=38`.
pub open spec fn decimal128_text(value: i128, scale: i8) -> Option<Option<Seq<char>>> {
    if 0 <= scale <= 38 {
        Some(Some(decimal_text(value as int, scale as nat)))
    } else {
        None
    }
}

pub open spec fn bool_text(b: bool) -> Seq<char> {
    if b {
        "1"@
    } else {
        "0"@
    }
}

/// The text sent for a value, or `None` where the value has no text: a
/// date beyond the calendar, or a decimal scale outside `0..=38`.
pub open spec fn result_value_text(v: ResultValue) -> Option<Option<Seq<char>>> {
    match v {
        ResultValue::Null => Some(None),
        ResultValue::Int(n) => Some(Some(int_text(n as int))),
        ResultValue::FloatText(s) => Some(Some(s@)),
        ResultValue::Text(s) => Some(Some(s@)),
        ResultValue::Boolean(b) => Some(Some(bool_text(b))),
        ResultValue::Date32(days) => date32_text(days),
        ResultValue::Decimal128 { value, scale } => decimal128_text(value, scale),
        ResultValue::Debug(s) => Some(Some(s@)),
    }
}

/// The types whose cells a query result reads by value; the others are
/// sent in their `Debug` rendering.
pub open spec fn read_by_value(t: ArrowType) -> bool {
    match t {
        ArrowType::Int8 | ArrowType::Int16 | ArrowType::Int32 | ArrowType::Int64 | ArrowType::Float32
        | ArrowType::Float64 | ArrowType::Utf8 | ArrowType::Boolean | ArrowType::Date32
        | ArrowType::Decimal128 => true,
        _ => false,
    }
}

/// The text of a cell value read by value.
pub open spec fn cell_value_text(v: CellValue) -> Option<Option<Seq<char>>> {
    match v {
        CellValue::Int(n) => Some(Some(int_text(n as int))),
        CellValue::Float(s) => Some(Some(s)),
        CellValue::Text(s) => Some(Some(s)),
        CellValue::Boolean(b) => Some(Some(bool_text(b))),
        CellValue::Date32(days) => date32_text(days),
        CellValue::Decimal128(value, scale) => decimal128_text(value, scale),
        _ => None,
    }
}

/// The text sent for cell `c` of a column of type `t`: `Some(None)` for
/// NULL, `None` where the value has no text (see `result_value_text`).
pub open spec fn result_cell_text(t: ArrowType, c: CellModel) -> Option<Option<Seq<char>>> {
    if c.null {
        Some(None)
    } else if read_by_value(t) {
        cell_value_text(c.value)
    } else {
        Some(Some(c.debug))
    }
}

/// Every cell of a batch has a text.
pub open spec fn batch_has_texts(b: ArrowBatch) -> bool {
    forall|col: int, row: int|
        0 <= col < batch_dims(b).1 && 0 <= row < batch_dims(b).0 ==> (#[trigger] result_cell_text(
            batch_column_types(b)[col],
            cell_of(b, col, row),
        )) is Some
}

/// Every cell of every batch has a text.
pub open spec fn batches_have_texts(bs: Seq<ArrowBatch>) -> bool {
    forall|i: int| 0 <= i < bs.len() ==> batch_has_texts(#[trigger] bs[i])
}

/// The texts of row `row` of a batch in a query result.
pub open spec fn result_row_texts(b: ArrowBatch, row: int) -> Seq<Option<Seq<char>>> {
    Seq::new(
        batch_dims(b).1,
        |c: int| result_cell_text(batch_column_types(b)[c], cell_of(b, c, row)).unwrap(),
    )
}

/// The texts of the rows of a batch in a query result.
pub open spec fn result_batch_rows(b: ArrowBatch) -> Seq<Seq<Option<Seq<char>>>> {
    Seq::new(batch_dims(b).0, |r: int| result_row_texts(b, r))
}

/// The texts of every row of every batch of a query result, in order.
pub open spec fn query_result_rows(bs: Seq<ArrowBatch>) -> Seq<Seq<Option<Seq<char>>>>
    decreases bs.len(),
{
    if bs.len() == 0 {
        Seq::empty()
    } else {
        query_result_rows(bs.drop_last()) + result_batch_rows(bs.last())
    }
}

/// The text of a value read from a cell is the cell's text.
proof fn lemma_read_value_text(v: ResultValue, t: ArrowType, c: CellModel)
    requires
        is_result_value_read(v, t, c),
    ensures
        result_value_text(v) == result_cell_text(t, c),
{
}

/// The MySQL type name that `DESCRIBE` shows for an Arrow type; a decimal
/// shows its precision and scale.
pub open spec fn mysql_type_name(t: ArrowType, precision: u8, scale: i8) -> Seq<char> {
    match t {
        ArrowType::Int8 => "TINYINT"@,
        ArrowType::Int16 => "SMALLINT"@,
        ArrowType::Int32 => "INT"@,
        ArrowType::Int64 => "BIGINT"@,
        ArrowType::UInt8 => "TINYINT UNSIGNED"@,
        ArrowType::UInt16 => "SMALLINT UNSIGNED"@,
        ArrowType::UInt32 => "INT UNSIGNED"@,
        ArrowType::UInt64 => "BIGINT UNSIGNED"@,
        ArrowType::Float32 => "FLOAT"@,
        ArrowType::Float64 => "DOUBLE"@,
        ArrowType::Decimal128 | ArrowType::Decimal256 => "DECIMAL("@ + nat_digits(precision as nat)
            + ","@ + int_text(scale as int) + ")"@,
        ArrowType::Utf8 | ArrowType::LargeUtf8 => "VARCHAR(65535)"@,
        ArrowType::Binary | ArrowType::LargeBinary => "BLOB"@,
        ArrowType::Date32 | ArrowType::Date64 => "DATE"@,
        ArrowType::Timestamp => "DATETIME"@,
        ArrowType::Time32 | ArrowType::Time64 => "TIME"@,
        ArrowType::Boolean => "BOOLEAN"@,
        ArrowType::Other => "VARCHAR(255)"@,
    }
}

/// The MySQL type name for `DESCRIBE` (see `mysql_type_name`); `precision`
/// and `scale` are those of a decimal type and are not read otherwise.
pub fn arrow_type_to_mysql_string(arrow_type: ArrowType, precision: u8, scale: i8) -> (r: String)
    ensures
        r@ == mysql_type_name(arrow_type, precision, scale),
{
    match arrow_type {
        ArrowType::Int8 => string_of("TINYINT"),
        ArrowType::Int16 => string_of("SMALLINT"),
        ArrowType::Int32 => string_of("INT"),
        ArrowType::Int64 => string_of("BIGINT"),
        ArrowType::UInt8 => string_of("TINYINT UNSIGNED"),
        ArrowType::UInt16 => string_of("SMALLINT UNSIGNED"),
        ArrowType::UInt32 => string_of("INT UNSIGNED"),
        ArrowType::UInt64 => string_of("BIGINT UNSIGNED"),
        ArrowType::Float32 => string_of("FLOAT"),
        ArrowType::Float64 => string_of("DOUBLE"),
        ArrowType::Decimal128 | ArrowType::Decimal256 => {
            let mut s = string_of("DECIMAL(");
            crate::text::push_u64_digits(&mut s, precision as u64);
            push_str(&mut s, ",");
            push_i64_text(&mut s, scale as i64);
            push_str(&mut s, ")");
            assert(s@ =~= "DECIMAL("@ + nat_digits(precision as nat) + ","@ + int_text(scale as int)
                + ")"@);
            s
        },
        ArrowType::Utf8 | ArrowType::LargeUtf8 => string_of("VARCHAR(65535)"),
        ArrowType::Binary | ArrowType::LargeBinary => string_of("BLOB"),
        ArrowType::Date32 | ArrowType::Date64 => string_of("DATE"),
        ArrowType::Timestamp => string_of("DATETIME"),
        ArrowType::Time32 | ArrowType::Time64 => string_of("TIME"),
        ArrowType::Boolean => string_of("BOOLEAN"),
        ArrowType::Other => string_of("VARCHAR(255)"),
    }
}

/// Maps an Arrow data type to the MySQL column type of a query result.
pub fn arrow_to_mysql_type(arrow_type: ArrowType) -> (r: ColumnType)
    ensures
        r == result_type_of(arrow_type),
{
    match arrow_type {
        ArrowType::Int8 | ArrowType::UInt8 => ColumnType::Tiny,
        ArrowType::Int16 | ArrowType::UInt16 => ColumnType::Short,
        ArrowType::Int32 | ArrowType::UInt32 => ColumnType::Long,
        ArrowType::Int64 | ArrowType::UInt64 => ColumnType::LongLong,
        ArrowType::Float32 => ColumnType::Float,
        ArrowType::Float64 => ColumnType::Double,
        ArrowType::Decimal128 | ArrowType::Decimal256 => ColumnType::NewDecimal,
        ArrowType::Utf8 | ArrowType::LargeUtf8 => ColumnType::VarString,
        ArrowType::Binary | ArrowType::LargeBinary => ColumnType::Blob,
        ArrowType::Date32 | ArrowType::Date64 => ColumnType::Date,
        ArrowType::Timestamp => ColumnType::DateTime,
        ArrowType::Time32 | ArrowType::Time64 => ColumnType::Time,
        ArrowType::Boolean => ColumnType::Tiny,
        ArrowType::Other => ColumnType::VarString,
    }
}

/// The display length of a column of a query result.
pub fn column_length(arrow_type: ArrowType) -> (r: u32)
    ensures
        r == display_length(arrow_type),
{
    match arrow_type {
        ArrowType::Utf8 | ArrowType::LargeUtf8 => 65535,
        ArrowType::Int32 => 11,
        ArrowType::Int64 => 20,
        ArrowType::Float32 => 12,
        ArrowType::Float64 => 22,
        _ => 255,
    }
}

/// `d` is the column definition of field `i` of a batch in a query result:
/// the field's name, catalog `def`, UTF-8, with the MySQL type and display
/// length of the column's type.
pub open spec fn is_query_result_column(d: ColumnDefinition, b: ArrowBatch, i: int) -> bool {
    &&& d.catalog@ == "def"@
    &&& d.schema@.len() == 0
    &&& d.table@.len() == 0
    &&& d.org_table@.len() == 0
    &&& d.name@ == batch_columns(b)[i].name
    &&& d.org_name@ == d.name@
    &&& d.character_set == 33
    &&& d.column_length == display_length(batch_column_types(b)[i])
    &&& d.column_type == column_type_code(result_type_of(batch_column_types(b)[i]))
    &&& d.flags == 0
    &&& d.decimals == 0
}

/// The column definition of field `i` of a batch in a query result (see
/// `is_query_result_column`).
pub fn result_column(batch: &ArrowBatch, i: usize) -> (r: ColumnDefinition)
    requires
        i < batch_dims(*batch).1,
        batch_column_types(*batch).len() == batch_dims(*batch).1,
    ensures
        is_query_result_column(r, *batch, i as int),
{
    let t = ArrowResultParser::column_type(batch, i);
    let name = batch_field_name(batch, i);
    let org_name = name.clone();
    ColumnDefinition {
        catalog: string_of("def"),
        schema: String::new(),
        table: String::new(),
        org_table: String::new(),
        name,
        org_name,
        character_set: 33,
        column_length: column_length(t),
        column_type: arrow_to_mysql_type(t).code(),
        flags: 0,
        decimals: 0,
    }
}

/// `v` is the value of a query result read from cell `c` of a column of
/// type `t`: null for a null cell; signed integers, floats, `Utf8` strings,
/// booleans, dates and 128-bit decimals by their values; the `Debug`
/// rendering for the other types.
pub open spec fn is_result_value_read(v: ResultValue, t: ArrowType, c: CellModel) -> bool {
    if c.null {
        v is Null
    } else {
        match t {
            ArrowType::Int8 | ArrowType::Int16 | ArrowType::Int32 | ArrowType::Int64 => (v matches ResultValue::Int(
                x,
            ) && c.value == CellValue::Int(x)),
            ArrowType::Float32 | ArrowType::Float64 => (v matches ResultValue::FloatText(x) && c.value
                == CellValue::Float(x@)),
            ArrowType::Utf8 => (v matches ResultValue::Text(x) && c.value == CellValue::Text(x@)),
            ArrowType::Boolean => (v matches ResultValue::Boolean(x) && c.value == CellValue::Boolean(x)),
            ArrowType::Date32 => (v matches ResultValue::Date32(x) && c.value == CellValue::Date32(x)),
            ArrowType::Decimal128 => (v matches ResultValue::Decimal128 { value, scale } && c.value
                == CellValue::Decimal128(value, scale)),
            _ => (v matches ResultValue::Debug(x) && x@ == c.debug),
        }
    }
}

/// Reads the value at a cell of a query result.
pub fn read_result_value(batch: &ArrowBatch, col: usize, row: usize) -> (r: ResultValue)
    requires
        in_batch(*batch, col as int, row as int),
    ensures
        is_result_value_read(r, batch_column_types(*batch)[col as int], cell_of(*batch, col as int, row as int)),
{
    if cell_is_null(batch, col, row) {
        return ResultValue::Null;
    }
    match ArrowResultParser::column_type(batch, col) {
        ArrowType::Int8 | ArrowType::Int16 | ArrowType::Int32 | ArrowType::Int64 => ResultValue::Int(
            cell_int(batch, col, row),
        ),
        ArrowType::Float32 | ArrowType::Float64 => ResultValue::FloatText(
            cell_float_text(batch, col, row),
        ),
        ArrowType::Utf8 => ResultValue::Text(cell_str(batch, col, row)),
        ArrowType::Boolean => ResultValue::Boolean(cell_bool(batch, col, row)),
        ArrowType::Date32 => ResultValue::Date32(cell_date32(batch, col, row)),
        ArrowType::Decimal128 => {
            let (value, scale) = cell_decimal128(batch, col, row);
            ResultValue::Decimal128 { value, scale }
        },
        _ => ResultValue::Debug(cell_debug(batch, col, row)),
    }
}

/// The text of a decimal (see `decimal_text`).
pub fn decimal_to_text(value: i128, scale: u32) -> (r: String)
    requires
        scale <= 38,
    ensures
        r@ == decimal_text(value as int, scale as nat),
{
    proof {
        lemma_pow10_38();
    }
    let mut divisor: u128 = 1;
    let mut k: u32 = 0;
    while k < scale
        invariant
            k <= scale <= 38,
            divisor == pow10(k as nat),
            divisor >= 1,
            pow10(38) == 100000000000000000000000000000000000000nat,
        decreases scale - k,
    {
        proof {
            lemma_pow10_mono(k as nat + 1, 38);
        }
        divisor = divisor * 10;
        k = k + 1;
    }
    let magnitude: u128 = if value < 0 {
        if value == i128::MIN {
            170141183460469231731687303715884105728u128
        } else {
            (-value) as u128
        }
    } else {
        value as u128
    };
    assert(magnitude == abs(value as int));
    let q = magnitude / divisor;
    let rem = magnitude % divisor;
    proof {
        reveal_strlit("-");
        reveal_strlit(".");
    }
    let mut s = String::new();
    if value < 0 && q != 0 {
        push_char(&mut s, '-');
    }
    assert(s@ =~= (if value < 0 && q != 0 {
        "-"@
    } else {
        Seq::<char>::empty()
    }));
    push_u128_digits(&mut s, q);
    push_char(&mut s, '.');
    let mut digits = String::new();
    push_u128_digits(&mut digits, rem);
    let len = digits.unicode_len();
    let mut pad: usize = 0;
    assert(zeros(0) =~= Seq::<char>::empty());
    assert(s@ =~= (if value < 0 && q != 0 {
        "-"@
    } else {
        Seq::<char>::empty()
    }) + nat_digits(q as nat) + "."@ + zeros(0));
    while len + pad < scale as usize
        invariant
            len == nat_digits(rem as nat).len(),
            scale <= 38,
            len + pad <= scale || pad == 0,
            s@ == (if value < 0 && q != 0 {
                "-"@
            } else {
                Seq::<char>::empty()
            }) + nat_digits(q as nat) + "."@ + zeros(pad as nat),
        decreases scale - pad,
    {
        push_char(&mut s, '0');
        assert(zeros(pad as nat + 1) =~= zeros(pad as nat).push('0'));
        pad = pad + 1;
    }
    push_str(&mut s, &digits);
    proof {
        if len < scale {
            assert(pad == scale - len);
        } else {
            assert(pad == 0);
            assert(zeros(0) =~= Seq::<char>::empty());
        }
    }
    assert(s@ =~= decimal_text(value as int, scale as nat));
    s
}

proof fn lemma_pow10_38()
    ensures
        pow10(38) == 100000000000000000000000000000000000000nat,
{
    reveal_with_fuel(pow10, 39);
}

proof fn lemma_pow10_mono(a: nat, b: nat)
    requires
        a <= b,
    ensures
        pow10(a) <= pow10(b),
    decreases b,
{
    if a < b {
        lemma_pow10_mono(a, (b - 1) as nat);
    }
}

/// The text sent for a value (see `result_value_text`): `Err` for a date
/// beyond the calendar or a decimal scale outside `0..=38`.
pub fn result_value_to_text(value: ResultValue) -> (r: Result<Option<String>, DorisError>)
    ensures
        match r {
            Ok(Some(s)) => result_value_text(value) == Some(Some(s@)),
            Ok(None) => result_value_text(value) == Some(None::<Seq<char>>),
            Err(e) => result_value_text(value) is None && e is QueryExecution,
        },
{
    match value {
        ResultValue::Null => Ok(None),
        ResultValue::Int(n) => {
            let mut s = String::new();
            push_i64_text(&mut s, n);
            assert(s@ =~= int_text(n as int));
            Ok(Some(s))
        },
        ResultValue::FloatText(s) => Ok(Some(s)),
        ResultValue::Text(s) => Ok(Some(s)),
        ResultValue::Boolean(b) => Ok(
            Some(
                if b {
                    string_of("1")
                } else {
                    string_of("0")
                },
            ),
        ),
        ResultValue::Date32(days) => {
            if days > i32::MAX - 719163 {
                return Err(DorisError::QueryExecution(string_of("Date out of range")));
            }
            match date_from_ce_days(days + 719163) {
                Some(s) => Ok(Some(s)),
                None => Err(DorisError::QueryExecution(string_of("Date out of range"))),
            }
        },
        ResultValue::Decimal128 { value, scale } => {
            if scale < 0 || scale > 38 {
                return Err(DorisError::QueryExecution(string_of("Decimal scale out of range")));
            }
            Ok(Some(decimal_to_text(value, scale as u32)))
        },
        ResultValue::Debug(s) => Ok(Some(s)),
    }
}

/// Converts the batches of a query result into a MySQL result: the columns
/// of the first batch's schema (see `result_column`), then every row of
/// every batch in order, NULL as `None`. It fails exactly when some cell has
/// no text (see `result_cell_text`).
pub fn arrow_to_mysql_result(batches: &Vec<ArrowBatch>) -> (r: Result<QueryResult, DorisError>)
    ensures
        r is Ok <==> batches_have_texts(batches@),
        match r {
            Ok(q) => {
                &&& !q.is_dml
                &&& q.affected_rows == 0
                &&& batches@.len() == 0 ==> q.columns@.len() == 0
                &&& batches@.len() > 0 ==> q.columns@.len() == batch_dims(batches@[0]).1
                &&& forall|i: int|
                    0 <= i < q.columns@.len() ==> is_query_result_column(
                        #[trigger] q.columns@[i],
                        batches@[0],
                        i,
                    )
                &&& rows_texts(q.rows@) == query_result_rows(batches@)
            },
            Err(e) => e is QueryExecution,
        },
{
    if batches.len() == 0 {
        let q = QueryResult::empty();
        assert(rows_texts(q.rows@) =~= query_result_rows(batches@));
        return Ok(q);
    }
    let first = &batches[0];
    let n = batch_num_columns(first);
    let mut columns: Vec<ColumnDefinition> = Vec::new();
    let mut i: usize = 0;
    while i < n
        invariant
            n == batch_dims(*first).1,
            batch_column_types(*first).len() == batch_dims(*first).1,
            i <= n,
            columns@.len() == i,
            forall|k: int| 0 <= k < i ==> is_query_result_column(#[trigger] columns@[k], *first, k),
        decreases n - i,
    {
        columns.push(result_column(first, i));
        i = i + 1;
    }
    let mut rows: Vec<ResultRow> = Vec::new();
    let mut b: usize = 0;
    assert(rows_texts(rows@) =~= query_result_rows(batches@.subrange(0, 0)));
    while b < batches.len()
        invariant
            b <= batches@.len(),
            batches@.len() > 0,
            columns@.len() == batch_dims(batches@[0]).1,
            forall|k: int|
                0 <= k < columns@.len() ==> is_query_result_column(#[trigger] columns@[k], batches@[0], k),
            rows_texts(rows@) == query_result_rows(batches@.subrange(0, b as int)),
            forall|k: int| 0 <= k < b ==> batch_has_texts(#[trigger] batches@[k]),
        decreases batches@.len() - b,
    {
        let batch = &batches[b];
        let num_rows = batch_num_rows(batch);
        let num_cols = batch_num_columns(batch);
        let ghost before = rows_texts(rows@);
        assert(batches@.subrange(0, b + 1).drop_last() =~= batches@.subrange(0, b as int));
        assert(batches@.subrange(0, b + 1).last() == batches@[b as int]);
        assert(rows_texts(rows@) =~= before + result_batch_rows(*batch).subrange(0, 0));
        let mut row_idx: usize = 0;
        while row_idx < num_rows
            invariant
                b < batches@.len(),
                batch == batches@[b as int],
                row_idx <= num_rows,
                num_rows == batch_dims(*batch).0,
                num_cols == batch_dims(*batch).1,
                batch_column_types(*batch).len() == batch_dims(*batch).1,
                rows_texts(rows@) == before + result_batch_rows(*batch).subrange(0, row_idx as int),
                forall|col: int, row: int|
                    0 <= col < num_cols && 0 <= row < row_idx ==> (#[trigger] result_cell_text(
                        batch_column_types(*batch)[col],
                        cell_of(*batch, col, row),
                    )) is Some,
            decreases num_rows - row_idx,
        {
            let mut values: Vec<Option<String>> = Vec::new();
            let mut col_idx: usize = 0;
            while col_idx < num_cols
                invariant
                    b < batches@.len(),
                    batch == batches@[b as int],
                    row_idx < num_rows,
                    num_rows == batch_dims(*batch).0,
                    num_cols == batch_dims(*batch).1,
                    batch_column_types(*batch).len() == batch_dims(*batch).1,
                    col_idx <= num_cols,
                    values@.len() == col_idx,
                    forall|c: int|
                        0 <= c < col_idx ==> result_cell_text(
                            batch_column_types(*batch)[c],
                            cell_of(*batch, c, row_idx as int),
                        ) == Some(
                            match #[trigger] values@[c] {
                                Some(s) => Some(s@),
                                None => None::<Seq<char>>,
                            },
                        ),
                decreases num_cols - col_idx,
            {
                let v = read_result_value(batch, col_idx, row_idx);
                let ghost t = batch_column_types(*batch)[col_idx as int];
                let ghost c = cell_of(*batch, col_idx as int, row_idx as int);
                proof {
                    lemma_read_value_text(v, t, c);
                }
                match result_value_to_text(v) {
                    Ok(text) => values.push(text),
                    Err(e) => {
                        proof {
                            assert(result_cell_text(t, c) is None);
                            assert(!batch_has_texts(batches@[b as int]));
                        }
                        return Err(e);
                    },
                }
                col_idx = col_idx + 1;
            }
            assert forall|col: int, row: int|
                0 <= col < num_cols && 0 <= row < row_idx + 1 implies (#[trigger] result_cell_text(
                batch_column_types(*batch)[col],
                cell_of(*batch, col, row),
            )) is Some by {
                if row == row_idx {
                    let _ = values@[col];
                }
            }
            let row = ResultRow::new(values);
            assert(row_texts(row) =~= result_row_texts(*batch, row_idx as int));
            let ghost prev = rows@;
            rows.push(row);
            assert(rows_texts(rows@) =~= rows_texts(prev).push(row_texts(row)));
            assert(result_batch_rows(*batch).subrange(0, row_idx + 1) =~= result_batch_rows(
                *batch,
            ).subrange(0, row_idx as int).push(result_row_texts(*batch, row_idx as int)));
            row_idx = row_idx + 1;
        }
        assert(result_batch_rows(*batch).subrange(0, num_rows as int) =~= result_batch_rows(*batch));
        assert(batch_has_texts(*batch));
        b = b + 1;
    }
    assert(batches@.subrange(0, batches@.len() as int) =~= batches@);
    Ok(QueryResult::new_select(columns, rows))
}

} // verus!
