use rasql::data_type::DataType;
use rasql::traits::PostgresTypesTraits;
use rasql::type_gen::{
    RustType, TokioPostgresGenerator, TypeGenerator, UnsupportedDataType, UseRustDecimal, UseUuid,
    MAX_ARRAY_NESTING,
};

fn plain() -> TokioPostgresGenerator {
    TokioPostgresGenerator { use_rust_decimal: UseRustDecimal::DontUse, use_uuid: UseUuid::DontUse }
}

fn full() -> TokioPostgresGenerator {
    TokioPostgresGenerator { use_rust_decimal: UseRustDecimal::Version1, use_uuid: UseUuid::Version1 }
}

fn resolve(g: &TokioPostgresGenerator, t: DataType) -> Result<RustType, UnsupportedDataType> {
    TypeGenerator::<PostgresTypesTraits>::sql_datatype_to_rust_type(g, &t)
}

fn text(g: &TokioPostgresGenerator, t: DataType) -> String {
    resolve(g, t).unwrap().to_source()
}

#[test]
fn scalar_families() {
    let g = plain();
    for t in [DataType::Text, DataType::Varchar, DataType::Char, DataType::Nvarchar] {
        assert_eq!(text(&g, t), "String");
    }
    for t in [DataType::Bytea, DataType::Blob, DataType::Varbinary] {
        assert_eq!(text(&g, t), "Vec<u8>");
    }
    assert_eq!(text(&g, DataType::Int2), "i16");
    assert_eq!(text(&g, DataType::UnsignedInt2), "u16");
    assert_eq!(text(&g, DataType::Int4), "i32");
    assert_eq!(text(&g, DataType::Integer), "i32");
    assert_eq!(text(&g, DataType::BigInt), "i64");
    assert_eq!(text(&g, DataType::Int8), "i64");
    assert_eq!(text(&g, DataType::Real), "f32");
    assert_eq!(text(&g, DataType::Float8), "f64");
    assert_eq!(text(&g, DataType::DoublePrecision), "f64");
}

#[test]
fn optional_capabilities() {
    assert_eq!(resolve(&plain(), DataType::Numeric), Err(UnsupportedDataType(DataType::Numeric)));
    assert_eq!(resolve(&plain(), DataType::Uuid), Err(UnsupportedDataType(DataType::Uuid)));
    assert_eq!(text(&full(), DataType::Decimal), "rust_decimal::Decimal");
    assert_eq!(text(&full(), DataType::Uuid), "uuid::Uuid");
    let old_uuid = TokioPostgresGenerator { use_rust_decimal: UseRustDecimal::DontUse, use_uuid: UseUuid::Version0_8 };
    assert_eq!(text(&old_uuid, DataType::Uuid), "uuid::Uuid");
}

#[test]
fn unsupported_types_fail() {
    for t in [DataType::Boolean, DataType::Date, DataType::Json, DataType::Timestamp, DataType::Other] {
        let expected = UnsupportedDataType(t.duplicate());
        assert_eq!(resolve(&full(), t), Err(expected));
    }
}

#[test]
fn arrays_wrap_once_per_level() {
    let g = plain();
    let one = DataType::Array(Box::new(DataType::Int4));
    assert_eq!(resolve(&g, one), Ok(RustType::Vec(Box::new(RustType::I32))));
    let two = DataType::Array(Box::new(DataType::Array(Box::new(DataType::Text))));
    assert_eq!(text(&g, two), "Vec<Vec<String>>");
}

#[test]
fn array_failure_names_the_outer_type() {
    let g = plain();
    let inner = DataType::Array(Box::new(DataType::Boolean));
    let outer = DataType::Array(Box::new(inner.duplicate()));
    assert_eq!(resolve(&g, outer.duplicate()), Err(UnsupportedDataType(outer)));
    assert_eq!(resolve(&g, DataType::UntypedArray), Err(UnsupportedDataType(DataType::UntypedArray)));
}

#[test]
fn array_nesting_limit() {
    let g = plain();
    let mut t = DataType::Int4;
    for _ in 0..MAX_ARRAY_NESTING {
        t = DataType::Array(Box::new(t));
    }
    assert!(resolve(&g, t.duplicate()).is_ok());
    let deeper = DataType::Array(Box::new(t));
    assert_eq!(resolve(&g, deeper.duplicate()), Err(UnsupportedDataType(deeper)));
}

#[test]
fn resolution_is_deterministic() {
    let g = full();
    let t = DataType::Array(Box::new(DataType::Numeric));
    assert_eq!(resolve(&g, t.duplicate()), resolve(&g, t));
}
