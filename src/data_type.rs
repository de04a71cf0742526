//! SQL column types, as the schema model and type resolution see them.
use vstd::prelude::*;


verus! {

/// A SQL column type, as far as type resolution distinguishes it.
#[derive(Debug, PartialEq, Eq)]
pub enum DataType {
    Character,
    Char,
    CharacterVarying,
    CharVarying,
    Varchar,
    Nvarchar,
    Text,
    TinyText,
    MediumText,
    LongText,
    String,
    FixedString,
    Uuid,
    Varbinary,
    Blob,
    TinyBlob,
    MediumBlob,
    LongBlob,
    Bytes,
    Bytea,
    Binary,
    Numeric,
    Decimal,
    Dec,
    Int2,
    SmallInt,
    UnsignedInt2,
    UnsignedSmallInt,
    Int,
    Int32,
    Int4,
    Integer,
    Int8,
    Int64,
    BigInt,
    Float,
    Float4,
    Real,
    Float32,
    Float64,
    Float8,
    Double,
    DoublePrecision,
    Bool,
    Boolean,
    Date,
    Time,
    Timestamp,
    Datetime,
    Interval,
    Json,
    Jsonb,
    Bit,
    BitVarying,
    Regclass,
    Custom,
    Enum,
    Struct,
    MapOf,
    Tuple,
    Nullable,
    Unspecified,
    /// An array whose element type is given.
    Array(Box<DataType>),
    /// An array declared without an element type.
    UntypedArray,
    /// Any other vendor-specific type.
    Other,
}



impl DataType {
    /// A structurally equal copy.
    pub fn duplicate(&self) -> (r: DataType)
        ensures
            r == *self,
        decreases self,
    {
        match self {
            DataType::Array(e) => DataType::Array(Box::new((**e).duplicate())),
            DataType::Character => DataType::Character,
            DataType::Char => DataType::Char,
            DataType::CharacterVarying => DataType::CharacterVarying,
            DataType::CharVarying => DataType::CharVarying,
            DataType::Varchar => DataType::Varchar,
            DataType::Nvarchar => DataType::Nvarchar,
            DataType::Text => DataType::Text,
            DataType::TinyText => DataType::TinyText,
            DataType::MediumText => DataType::MediumText,
            DataType::LongText => DataType::LongText,
            DataType::String => DataType::String,
            DataType::FixedString => DataType::FixedString,
            DataType::Uuid => DataType::Uuid,
            DataType::Varbinary => DataType::Varbinary,
            DataType::Blob => DataType::Blob,
            DataType::TinyBlob => DataType::TinyBlob,
            DataType::MediumBlob => DataType::MediumBlob,
            DataType::LongBlob => DataType::LongBlob,
            DataType::Bytes => DataType::Bytes,
            DataType::Bytea => DataType::Bytea,
            DataType::Binary => DataType::Binary,
            DataType::Numeric => DataType::Numeric,
            DataType::Decimal => DataType::Decimal,
            DataType::Dec => DataType::Dec,
            DataType::Int2 => DataType::Int2,
            DataType::SmallInt => DataType::SmallInt,
            DataType::UnsignedInt2 => DataType::UnsignedInt2,
            DataType::UnsignedSmallInt => DataType::UnsignedSmallInt,
            DataType::Int => DataType::Int,
            DataType::Int32 => DataType::Int32,
            DataType::Int4 => DataType::Int4,
            DataType::Integer => DataType::Integer,
            DataType::Int8 => DataType::Int8,
            DataType::Int64 => DataType::Int64,
            DataType::BigInt => DataType::BigInt,
            DataType::Float => DataType::Float,
            DataType::Float4 => DataType::Float4,
            DataType::Real => DataType::Real,
            DataType::Float32 => DataType::Float32,
            DataType::Float64 => DataType::Float64,
            DataType::Float8 => DataType::Float8,
            DataType::Double => DataType::Double,
            DataType::DoublePrecision => DataType::DoublePrecision,
            DataType::Bool => DataType::Bool,
            DataType::Boolean => DataType::Boolean,
            DataType::Date => DataType::Date,
            DataType::Time => DataType::Time,
            DataType::Timestamp => DataType::Timestamp,
            DataType::Datetime => DataType::Datetime,
            DataType::Interval => DataType::Interval,
            DataType::Json => DataType::Json,
            DataType::Jsonb => DataType::Jsonb,
            DataType::Bit => DataType::Bit,
            DataType::BitVarying => DataType::BitVarying,
            DataType::Regclass => DataType::Regclass,
            DataType::Custom => DataType::Custom,
            DataType::Enum => DataType::Enum,
            DataType::Struct => DataType::Struct,
            DataType::MapOf => DataType::MapOf,
            DataType::Tuple => DataType::Tuple,
            DataType::Nullable => DataType::Nullable,
            DataType::Unspecified => DataType::Unspecified,
            DataType::UntypedArray => DataType::UntypedArray,
            DataType::Other => DataType::Other,
        }
    }
}

} // verus!
