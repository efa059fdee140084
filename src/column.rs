//! Column metadata as the database engine reports it, and the normalized
//! type label that the wire format carries for each column.

use vstd::prelude::*;

verus! {

/// The column holds unsigned integers.
pub const UNSIGNED_FLAG: u16 = 32;

/// The column holds binary data rather than text.
pub const BINARY_FLAG: u16 = 128;

/// Metadata of one result column, in plain values.
pub struct ColumnMeta {
    pub name: String,
    pub table: String,
    pub schema: String,
    pub org_table: String,
    pub org_name: String,
    pub column_length: u32,
    pub charset: u16,
    pub flags: u16,
    /// The engine's numeric type code.
    pub type_code: u8,
}

/// The normalized type of a column.
#[derive(Clone, Copy, Debug, PartialEq, Eq, Structural)]
pub enum TypeLabel {
    NullType,
    Int8,
    Uint8,
    Int16,
    Uint16,
    Int24,
    Uint24,
    Int32,
    Uint32,
    Int64,
    Uint64,
    Float32,
    Float64,
    Decimal,
    Timestamp,
    Date,
    Time,
    Datetime,
    Year,
    Bit,
    Json,
    EnumType,
    SetType,
    Geometry,
    Char,
    Binary,
    Varchar,
    Varbinary,
    Text,
    Blob,
    Unknown,
}

pub open spec fn has_flag(flags: u16, flag: u16) -> bool {
    flags & flag != 0
}

/// A signed or unsigned integer label, by the column's flags.
pub open spec fn int_label(flags: u16, signed: TypeLabel, unsigned: TypeLabel) -> TypeLabel {
    if has_flag(flags, UNSIGNED_FLAG) { unsigned } else { signed }
}

/// A text or binary label, by the column's flags.
pub open spec fn text_label(flags: u16, text: TypeLabel, binary: TypeLabel) -> TypeLabel {
    if has_flag(flags, BINARY_FLAG) { binary } else { text }
}

/// The label of a column with the given type code and flags.
pub open spec fn label_of(code: u8, flags: u16) -> TypeLabel {
    if code == 0 || code == 246 { TypeLabel::Decimal }
    else if code == 1 { int_label(flags, TypeLabel::Int8, TypeLabel::Uint8) }
    else if code == 2 { int_label(flags, TypeLabel::Int16, TypeLabel::Uint16) }
    else if code == 3 { int_label(flags, TypeLabel::Int32, TypeLabel::Uint32) }
    else if code == 4 { TypeLabel::Float32 }
    else if code == 5 { TypeLabel::Float64 }
    else if code == 6 { TypeLabel::NullType }
    else if code == 7 || code == 17 { TypeLabel::Timestamp }
    else if code == 8 { int_label(flags, TypeLabel::Int64, TypeLabel::Uint64) }
    else if code == 9 { int_label(flags, TypeLabel::Int24, TypeLabel::Uint24) }
    else if code == 10 || code == 14 { TypeLabel::Date }
    else if code == 11 || code == 19 { TypeLabel::Time }
    else if code == 12 || code == 18 { TypeLabel::Datetime }
    else if code == 13 { TypeLabel::Year }
    else if code == 15 || code == 253 { text_label(flags, TypeLabel::Varchar, TypeLabel::Varbinary) }
    else if code == 16 { TypeLabel::Bit }
    else if code == 245 { TypeLabel::Json }
    else if code == 247 { TypeLabel::EnumType }
    else if code == 248 { TypeLabel::SetType }
    else if 249 <= code && code <= 252 { text_label(flags, TypeLabel::Text, TypeLabel::Blob) }
    else if code == 254 { text_label(flags, TypeLabel::Char, TypeLabel::Binary) }
    else if code == 255 { TypeLabel::Geometry }
    else { TypeLabel::Unknown }
}

fn pick_int(flags: u16, signed: TypeLabel, unsigned: TypeLabel) -> (r: TypeLabel)
    ensures
        r == int_label(flags, signed, unsigned),
{
    if flags & UNSIGNED_FLAG != 0 { unsigned } else { signed }
}

fn pick_text(flags: u16, text: TypeLabel, binary: TypeLabel) -> (r: TypeLabel)
    ensures
        r == text_label(flags, text, binary),
{
    if flags & BINARY_FLAG != 0 { binary } else { text }
}

/// Normalizes a column's type code and flags to its label.
pub fn type_label(code: u8, flags: u16) -> (r: TypeLabel)
    ensures
        r == label_of(code, flags),
{
    if code == 0 || code == 246 { TypeLabel::Decimal }
    else if code == 1 { pick_int(flags, TypeLabel::Int8, TypeLabel::Uint8) }
    else if code == 2 { pick_int(flags, TypeLabel::Int16, TypeLabel::Uint16) }
    else if code == 3 { pick_int(flags, TypeLabel::Int32, TypeLabel::Uint32) }
    else if code == 4 { TypeLabel::Float32 }
    else if code == 5 { TypeLabel::Float64 }
    else if code == 6 { TypeLabel::NullType }
    else if code == 7 || code == 17 { TypeLabel::Timestamp }
    else if code == 8 { pick_int(flags, TypeLabel::Int64, TypeLabel::Uint64) }
    else if code == 9 { pick_int(flags, TypeLabel::Int24, TypeLabel::Uint24) }
    else if code == 10 || code == 14 { TypeLabel::Date }
    else if code == 11 || code == 19 { TypeLabel::Time }
    else if code == 12 || code == 18 { TypeLabel::Datetime }
    else if code == 13 { TypeLabel::Year }
    else if code == 15 || code == 253 { pick_text(flags, TypeLabel::Varchar, TypeLabel::Varbinary) }
    else if code == 16 { TypeLabel::Bit }
    else if code == 245 { TypeLabel::Json }
    else if code == 247 { TypeLabel::EnumType }
    else if code == 248 { TypeLabel::SetType }
    else if 249 <= code && code <= 252 { pick_text(flags, TypeLabel::Text, TypeLabel::Blob) }
    else if code == 254 { pick_text(flags, TypeLabel::Char, TypeLabel::Binary) }
    else if code == 255 { TypeLabel::Geometry }
    else { TypeLabel::Unknown }
}

impl TypeLabel {
    /// The label's wire text.
    pub open spec fn text(self) -> Seq<char> {
        match self {
            TypeLabel::NullType => "NULL_TYPE"@,
            TypeLabel::Int8 => "INT8"@,
            TypeLabel::Uint8 => "UINT8"@,
            TypeLabel::Int16 => "INT16"@,
            TypeLabel::Uint16 => "UINT16"@,
            TypeLabel::Int24 => "INT24"@,
            TypeLabel::Uint24 => "UINT24"@,
            TypeLabel::Int32 => "INT32"@,
            TypeLabel::Uint32 => "UINT32"@,
            TypeLabel::Int64 => "INT64"@,
            TypeLabel::Uint64 => "UINT64"@,
            TypeLabel::Float32 => "FLOAT32"@,
            TypeLabel::Float64 => "FLOAT64"@,
            TypeLabel::Decimal => "DECIMAL"@,
            TypeLabel::Timestamp => "TIMESTAMP"@,
            TypeLabel::Date => "DATE"@,
            TypeLabel::Time => "TIME"@,
            TypeLabel::Datetime => "DATETIME"@,
            TypeLabel::Year => "YEAR"@,
            TypeLabel::Bit => "BIT"@,
            TypeLabel::Json => "JSON"@,
            TypeLabel::EnumType => "ENUM"@,
            TypeLabel::SetType => "SET"@,
            TypeLabel::Geometry => "GEOMETRY"@,
            TypeLabel::Char => "CHAR"@,
            TypeLabel::Binary => "BINARY"@,
            TypeLabel::Varchar => "VARCHAR"@,
            TypeLabel::Varbinary => "VARBINARY"@,
            TypeLabel::Text => "TEXT"@,
            TypeLabel::Blob => "BLOB"@,
            TypeLabel::Unknown => "UNKNOWN"@,
        }
    }

    /// The label's wire text.
    pub fn name(&self) -> (r: &'static str)
        ensures
            r@ == self.text(),
    {
        match self {
            TypeLabel::NullType => "NULL_TYPE",
            TypeLabel::Int8 => "INT8",
            TypeLabel::Uint8 => "UINT8",
            TypeLabel::Int16 => "INT16",
            TypeLabel::Uint16 => "UINT16",
            TypeLabel::Int24 => "INT24",
            TypeLabel::Uint24 => "UINT24",
            TypeLabel::Int32 => "INT32",
            TypeLabel::Uint32 => "UINT32",
            TypeLabel::Int64 => "INT64",
            TypeLabel::Uint64 => "UINT64",
            TypeLabel::Float32 => "FLOAT32",
            TypeLabel::Float64 => "FLOAT64",
            TypeLabel::Decimal => "DECIMAL",
            TypeLabel::Timestamp => "TIMESTAMP",
            TypeLabel::Date => "DATE",
            TypeLabel::Time => "TIME",
            TypeLabel::Datetime => "DATETIME",
            TypeLabel::Year => "YEAR",
            TypeLabel::Bit => "BIT",
            TypeLabel::Json => "JSON",
            TypeLabel::EnumType => "ENUM",
            TypeLabel::SetType => "SET",
            TypeLabel::Geometry => "GEOMETRY",
            TypeLabel::Char => "CHAR",
            TypeLabel::Binary => "BINARY",
            TypeLabel::Varchar => "VARCHAR",
            TypeLabel::Varbinary => "VARBINARY",
            TypeLabel::Text => "TEXT",
            TypeLabel::Blob => "BLOB",
            TypeLabel::Unknown => "UNKNOWN",
        }
    }
}

} // verus!
