//! Column and row descriptions of a result set as the MySQL wire protocol
//! carries them.

use vstd::prelude::*;
use crate::text::string_of;

verus! {

/// MySQL column types.
#[derive(Debug, Clone, Copy, PartialEq, Eq, Structural)]
pub enum ColumnType {
    Decimal,
    Tiny,
    Short,
    Long,
    Float,
    Double,
    Null,
    Timestamp,
    LongLong,
    Int24,
    Date,
    Time,
    DateTime,
    Year,
    VarChar,
    Bit,
    NewDecimal,
    Blob,
    VarString,
    String,
}

/// The protocol's type code of each column type.
pub open spec fn column_type_code(t: ColumnType) -> u8 {
    match t {
        ColumnType::Decimal => 0,
        ColumnType::Tiny => 1,
        ColumnType::Short => 2,
        ColumnType::Long => 3,
        ColumnType::Float => 4,
        ColumnType::Double => 5,
        ColumnType::Null => 6,
        ColumnType::Timestamp => 7,
        ColumnType::LongLong => 8,
        ColumnType::Int24 => 9,
        ColumnType::Date => 10,
        ColumnType::Time => 11,
        ColumnType::DateTime => 12,
        ColumnType::Year => 13,
        ColumnType::VarChar => 15,
        ColumnType::Bit => 16,
        ColumnType::NewDecimal => 246,
        ColumnType::Blob => 252,
        ColumnType::VarString => 253,
        ColumnType::String => 254,
    }
}

impl ColumnType {
    /// The protocol's type code.
    pub fn code(&self) -> (r: u8)
        ensures
            r == column_type_code(*self),
    {
        match self {
            ColumnType::Decimal => 0,
            ColumnType::Tiny => 1,
            ColumnType::Short => 2,
            ColumnType::Long => 3,
            ColumnType::Float => 4,
            ColumnType::Double => 5,
            ColumnType::Null => 6,
            ColumnType::Timestamp => 7,
            ColumnType::LongLong => 8,
            ColumnType::Int24 => 9,
            ColumnType::Date => 10,
            ColumnType::Time => 11,
            ColumnType::DateTime => 12,
            ColumnType::Year => 13,
            ColumnType::VarChar => 15,
            ColumnType::Bit => 16,
            ColumnType::NewDecimal => 246,
            ColumnType::Blob => 252,
            ColumnType::VarString => 253,
            ColumnType::String => 254,
        }
    }
}

/// A column of a result set.
#[derive(Debug, Clone)]
pub struct ColumnDefinition {
    pub catalog: String,
    pub schema: String,
    pub table: String,
    pub org_table: String,
    pub name: String,
    pub org_name: String,
    pub character_set: u16,
    pub column_length: u32,
    pub column_type: u8,
    pub flags: u16,
    pub decimals: u8,
}

impl ColumnDefinition {
    /// A column of the given name and type: catalog `def`, no table, UTF-8,
    /// a display length of 255.
    pub fn new(name: String, column_type: ColumnType) -> (r: Self)
        ensures
            r.catalog@ == "def"@,
            r.schema@ == Seq::<char>::empty(),
            r.table@ == Seq::<char>::empty(),
            r.org_table@ == Seq::<char>::empty(),
            r.name@ == name@,
            r.org_name@ == name@,
            r.character_set == 33,
            r.column_length == 255,
            r.column_type == column_type_code(column_type),
            r.flags == 0,
            r.decimals == 0,
    {
        let org_name = name.clone();
        ColumnDefinition {
            catalog: string_of("def"),
            schema: String::new(),
            table: String::new(),
            org_table: String::new(),
            name,
            org_name,
            character_set: 33,
            column_length: 255,
            column_type: column_type.code(),
            flags: 0,
            decimals: 0,
        }
    }
}

/// A row of a result set: one text value per column, `None` for NULL.
#[derive(Debug, Clone)]
pub struct ResultRow {
    pub values: Vec<Option<String>>,
}

impl ResultRow {
    pub fn new(values: Vec<Option<String>>) -> (r: Self)
        ensures
            r.values@ == values@,
    {
        ResultRow { values }
    }
}

} // verus!
