//! Resolution of SQL column types into Rust type expressions.
use crate::codegen::{TableStruct, TableStructField, TableStructFieldV, TableStructV};
use crate::data_type::DataType;
use crate::sql::idents;
use crate::text::{escaped, push_escaped};
use crate::traits::{DbTraits, PostgresTypesTraits};
use vstd::prelude::*;
use vstd::string::*;

verus! {

/// A Rust type expression that a column resolves to.
#[derive(Debug, PartialEq, Eq)]
pub enum RustType {
    String,
    Bytes,
    I16,
    U16,
    I32,
    I64,
    F32,
    F64,
    Decimal,
    Uuid,
    Vec(Box<RustType>),
}

/// Whether the fixed-point decimal type of `rust_decimal` is available.
#[derive(Clone, Copy, Debug, PartialEq, Eq)]
pub enum UseRustDecimal {
    DontUse,
    Version1,
}

/// Whether the `uuid` crate's type is available, and in which major version.
#[derive(Clone, Copy, Debug, PartialEq, Eq)]
pub enum UseUuid {
    DontUse,
    Version0_8,
    Version1,
}

/// The SQL type could not be mapped under the generator's configuration.
#[derive(Debug, PartialEq, Eq)]
pub struct UnsupportedDataType(pub DataType);

/// How many array levels may be nested before resolution gives up.
pub const MAX_ARRAY_NESTING: usize = 32;

/// Number of nested array levels around the innermost element type.
pub open spec fn array_depth(dt: DataType) -> nat
    decreases dt,
{
    match dt {
        DataType::Array(e) => 1 + array_depth(*e),
        _ => 0,
    }
}

/// The source text of a Rust type expression.
pub open spec fn rust_type_text(t: RustType) -> Seq<char>
    decreases t,
{
    match t {
        RustType::String => "String"@,
        RustType::Bytes => "Vec<u8>"@,
        RustType::I16 => "i16"@,
        RustType::U16 => "u16"@,
        RustType::I32 => "i32"@,
        RustType::I64 => "i64"@,
        RustType::F32 => "f32"@,
        RustType::F64 => "f64"@,
        RustType::Decimal => "rust_decimal::Decimal"@,
        RustType::Uuid => "uuid::Uuid"@,
        RustType::Vec(e) => "Vec<"@ + rust_type_text(*e) + ">"@,
    }
}

impl RustType {
    /// The type expression as Rust source text.
    pub fn to_source(&self) -> (r: String)
        ensures
            r@ == rust_type_text(*self),
        decreases self,
    {
        match self {
            RustType::String => String::from_str("String"),
            RustType::Bytes => String::from_str("Vec<u8>"),
            RustType::I16 => String::from_str("i16"),
            RustType::U16 => String::from_str("u16"),
            RustType::I32 => String::from_str("i32"),
            RustType::I64 => String::from_str("i64"),
            RustType::F32 => String::from_str("f32"),
            RustType::F64 => String::from_str("f64"),
            RustType::Decimal => String::from_str("rust_decimal::Decimal"),
            RustType::Uuid => String::from_str("uuid::Uuid"),
            RustType::Vec(e) => {
                let mut r = String::from_str("Vec<");
                let inner = (**e).to_source();
                r.append(inner.as_str());
                r.append(">");
                r
            },
        }
    }
}

/// Maps SQL column types to Rust types for the database family `Traits`.
pub trait TypeGenerator<Traits: DbTraits> {
    /// The mapping this generator implements.
    spec fn resolve_spec(&self, datatype: DataType) -> Result<RustType, UnsupportedDataType>;

    fn sql_datatype_to_rust_type(&self, datatype: &DataType) -> (r: Result<
        RustType,
        UnsupportedDataType,
    >)
        ensures
            r == self.resolve_spec(*datatype),
    ;

    /// The declaration this generator emits for a record.
    spec fn struct_decl_spec(&self, table_struct: TableStructV) -> Seq<char>;

    fn generate_table_struct(&self, table_struct: &TableStruct) -> (r: String)
        ensures
            r@ == self.struct_decl_spec(table_struct@),
    ;
}

/// Type generation for the `tokio_postgres` client.
#[derive(Clone, Copy, Debug)]
pub struct TokioPostgresGenerator {
    pub use_rust_decimal: UseRustDecimal,
    pub use_uuid: UseUuid,
}

impl TokioPostgresGenerator {
    /// The mapping of a type that is not an array, or `None` where it has none.
    pub open spec fn scalar_type(self, dt: DataType) -> Option<RustType> {
        match dt {
            DataType::Character | DataType::Char | DataType::CharacterVarying
            | DataType::CharVarying | DataType::Varchar | DataType::Nvarchar | DataType::Text
            | DataType::TinyText | DataType::MediumText | DataType::LongText | DataType::String
            | DataType::FixedString => Some(RustType::String),
            DataType::Varbinary | DataType::Blob | DataType::TinyBlob | DataType::MediumBlob
            | DataType::LongBlob | DataType::Bytes | DataType::Bytea | DataType::Binary => Some(
                RustType::Bytes,
            ),
            DataType::Uuid => if self.use_uuid is DontUse {
                None
            } else {
                Some(RustType::Uuid)
            },
            DataType::Numeric | DataType::Decimal | DataType::Dec => if self.use_rust_decimal
                is Version1 {
                Some(RustType::Decimal)
            } else {
                None
            },
            DataType::Int2 | DataType::SmallInt => Some(RustType::I16),
            DataType::UnsignedInt2 | DataType::UnsignedSmallInt => Some(RustType::U16),
            DataType::Int | DataType::Int32 | DataType::Int4 | DataType::Integer => Some(
                RustType::I32,
            ),
            DataType::Int8 | DataType::Int64 | DataType::BigInt => Some(RustType::I64),
            DataType::Float | DataType::Float4 | DataType::Real | DataType::Float32 => Some(
                RustType::F32,
            ),
            DataType::Float64 | DataType::Float8 | DataType::Double
            | DataType::DoublePrecision => Some(RustType::F64),
            _ => None,
        }
    }

    /// Resolution with at most `budget` further array levels allowed. A failure
    /// inside an array is reported against the array type itself.
    pub open spec fn resolve_within(self, dt: DataType, budget: nat) -> Result<
        RustType,
        UnsupportedDataType,
    >
        decreases dt,
    {
        match dt {
            DataType::Array(e) => if budget == 0 {
                Err(UnsupportedDataType(dt))
            } else {
                match self.resolve_within(*e, (budget - 1) as nat) {
                    Ok(t) => Ok(RustType::Vec(Box::new(t))),
                    Err(_) => Err(UnsupportedDataType(dt)),
                }
            },
            _ => match self.scalar_type(dt) {
                Some(t) => Ok(t),
                None => Err(UnsupportedDataType(dt)),
            },
        }
    }

    /// The complete mapping: arrays may nest up to `MAX_ARRAY_NESTING` levels.
    pub open spec fn resolve(self, dt: DataType) -> Result<RustType, UnsupportedDataType> {
        self.resolve_within(dt, MAX_ARRAY_NESTING as nat)
    }

    fn scalar_rust_type(&self, dt: &DataType) -> (r: Option<RustType>)
        ensures
            r == self.scalar_type(*dt),
    {
        match dt {
            DataType::Character | DataType::Char | DataType::CharacterVarying
            | DataType::CharVarying | DataType::Varchar | DataType::Nvarchar | DataType::Text
            | DataType::TinyText | DataType::MediumText | DataType::LongText | DataType::String
            | DataType::FixedString => Some(RustType::String),
            DataType::Varbinary | DataType::Blob | DataType::TinyBlob | DataType::MediumBlob
            | DataType::LongBlob | DataType::Bytes | DataType::Bytea | DataType::Binary => Some(
                RustType::Bytes,
            ),
            DataType::Uuid => match self.use_uuid {
                UseUuid::DontUse => None,
                UseUuid::Version0_8 | UseUuid::Version1 => Some(RustType::Uuid),
            },
            DataType::Numeric | DataType::Decimal | DataType::Dec => match self.use_rust_decimal {
                UseRustDecimal::Version1 => Some(RustType::Decimal),
                UseRustDecimal::DontUse => None,
            },
            DataType::Int2 | DataType::SmallInt => Some(RustType::I16),
            DataType::UnsignedInt2 | DataType::UnsignedSmallInt => Some(RustType::U16),
            DataType::Int | DataType::Int32 | DataType::Int4 | DataType::Integer => Some(
                RustType::I32,
            ),
            DataType::Int8 | DataType::Int64 | DataType::BigInt => Some(RustType::I64),
            DataType::Float | DataType::Float4 | DataType::Real | DataType::Float32 => Some(
                RustType::F32,
            ),
            DataType::Float64 | DataType::Float8 | DataType::Double
            | DataType::DoublePrecision => Some(RustType::F64),
            _ => None,
        }
    }

    fn resolve_nested(&self, dt: &DataType, budget: usize) -> (r: Result<
        RustType,
        UnsupportedDataType,
    >)
        ensures
            r == self.resolve_within(*dt, budget as nat),
        decreases dt,
    {
        match dt {
            DataType::Array(e) => {
                if budget == 0 {
                    return Err(UnsupportedDataType(dt.duplicate()));
                }
                match self.resolve_nested(&**e, budget - 1) {
                    Ok(t) => Ok(RustType::Vec(Box::new(t))),
                    Err(_) => Err(UnsupportedDataType(dt.duplicate())),
                }
            },
            _ => match self.scalar_rust_type(dt) {
                Some(t) => Ok(t),
                None => Err(UnsupportedDataType(dt.duplicate())),
            },
        }
    }
}

impl TypeGenerator<PostgresTypesTraits> for TokioPostgresGenerator {
    open spec fn resolve_spec(&self, datatype: DataType) -> Result<RustType, UnsupportedDataType> {
        self.resolve(datatype)
    }

    fn sql_datatype_to_rust_type(&self, datatype: &DataType) -> (r: Result<
        RustType,
        UnsupportedDataType,
    >) {
        self.resolve_nested(datatype, MAX_ARRAY_NESTING)
    }

    open spec fn struct_decl_spec(&self, table_struct: TableStructV) -> Seq<char> {
        postgres_struct_decl(table_struct)
    }

    fn generate_table_struct(&self, table_struct: &TableStruct) -> (r: String) {
        let mut r = String::from_str("#[derive(ToSql, FromSql)]\n");
        proof {
            reveal_strlit("");
        }
        match &table_struct.db_alias {
            Some(a) => push_name_attr(&mut r, "", a.as_str()),
            None => {},
        }
        r.append("struct ");
        r.append(table_struct.name.as_str());
        push_where_clause(&mut r, &table_struct.fields);
        r.append(" {\n");
        push_fields(&mut r, &table_struct.fields);
        r.append("}\n");
        assert(r@ =~= postgres_struct_decl(table_struct@));
        r
    }
}

proof fn lemma_budget_irrelevant(g: TokioPostgresGenerator, dt: DataType, b1: nat, b2: nat)
    requires
        array_depth(dt) <= b1,
        array_depth(dt) <= b2,
    ensures
        g.resolve_within(dt, b1) == g.resolve_within(dt, b2),
    decreases dt,
{
    if let DataType::Array(e) = dt {
        lemma_budget_irrelevant(g, *e, (b1 - 1) as nat, (b2 - 1) as nat);
    }
}

/// An array type nested within the limit resolves exactly when its element
/// type resolves; it then resolves to one `Vec` around the element's type, and
/// otherwise fails naming the array type itself.
pub proof fn lemma_array_resolution(g: TokioPostgresGenerator, elem: DataType)
    requires
        array_depth(DataType::Array(Box::new(elem))) <= MAX_ARRAY_NESTING,
    ensures
        g.resolve(DataType::Array(Box::new(elem))) is Ok <==> g.resolve(elem) is Ok,
        g.resolve(elem) is Ok ==> g.resolve(DataType::Array(Box::new(elem))) == Ok::<
            RustType,
            UnsupportedDataType,
        >(RustType::Vec(Box::new(g.resolve(elem)->Ok_0))),
        g.resolve(elem) is Err ==> g.resolve(DataType::Array(Box::new(elem))) == Err::<
            RustType,
            UnsupportedDataType,
        >(UnsupportedDataType(DataType::Array(Box::new(elem)))),
{
    lemma_budget_irrelevant(g, elem, (MAX_ARRAY_NESTING - 1) as nat, MAX_ARRAY_NESTING as nat);
}

/// The attribute that maps an item to its database name.
pub open spec fn name_attr_text(indent: Seq<char>, alias: Seq<char>) -> Seq<char> {
    indent + "#[postgres(name = \""@ + escaped(alias) + "\")]\n"@
}

pub open spec fn alias_attr_text(indent: Seq<char>, alias: Option<Seq<char>>) -> Seq<char> {
    match alias {
        Some(a) => name_attr_text(indent, a),
        None => seq![],
    }
}

/// Extra attributes, one per line.
pub open spec fn attrs_text(attrs: Seq<Seq<char>>) -> Seq<char>
    decreases attrs.len(),
{
    if attrs.len() == 0 {
        seq![]
    } else {
        attrs_text(attrs.drop_last()) + "    "@ + attrs.last() + "\n"@
    }
}

/// One field of a record declaration.
pub open spec fn field_text(f: TableStructFieldV) -> Seq<char> {
    alias_attr_text("    "@, f.db_alias) + attrs_text(f.attrs) + "    "@ + f.name + ": "@ + f.ty
        + ",\n"@
}

pub open spec fn fields_text(fs: Seq<TableStructFieldV>) -> Seq<char>
    decreases fs.len(),
{
    if fs.len() == 0 {
        seq![]
    } else {
        fields_text(fs.drop_last()) + field_text(fs.last())
    }
}

/// The bounds that promoted identifier fields put on their types.
pub open spec fn bounds_text(fs: Seq<TableStructFieldV>) -> Seq<char>
    decreases fs.len(),
{
    if fs.len() == 0 {
        seq![]
    } else {
        bounds_text(fs.drop_last()) + match fs.last().id_bound {
            Some(b) => " "@ + fs.last().ty + ": "@ + b + ","@,
            None => seq![],
        }
    }
}

pub open spec fn where_text(fs: Seq<TableStructFieldV>) -> Seq<char> {
    if bounds_text(fs).len() == 0 {
        seq![]
    } else {
        " where"@ + bounds_text(fs)
    }
}

/// The declaration of a record that `postgres_types` can read and write.
pub open spec fn postgres_struct_decl(ts: TableStructV) -> Seq<char> {
    "#[derive(ToSql, FromSql)]\n"@ + alias_attr_text(seq![], ts.db_alias) + "struct "@ + ts.name
        + where_text(ts.fields) + " {\n"@ + fields_text(ts.fields) + "}\n"@
}

fn push_name_attr(out: &mut String, indent: &str, alias: &str)
    ensures
        final(out)@ == old(out)@ + name_attr_text(indent@, alias@),
{
    out.append(indent);
    out.append("#[postgres(name = \"");
    push_escaped(out, alias);
    out.append("\")]\n");
}

fn push_field(out: &mut String, f: &TableStructField)
    ensures
        final(out)@ == old(out)@ + field_text(f@),
{
    match &f.db_alias {
        Some(a) => push_name_attr(out, "    ", a.as_str()),
        None => {},
    }
    let ghost a = idents(f.attrs@);
    let ghost mid = out@;
    let mut i: usize = 0;
    assert(a.take(0) =~= seq![]);
    while i < f.attrs.len()
        invariant
            i <= f.attrs.len(),
            a == idents(f.attrs@),
            out@ == mid + attrs_text(a.take(i as int)),
        decreases f.attrs.len() - i,
    {
        assert(a.take(i + 1).drop_last() =~= a.take(i as int));
        out.append("    ");
        out.append(f.attrs[i].as_str());
        out.append("\n");
        i += 1;
    }
    assert(a.take(f.attrs.len() as int) =~= a);
    out.append("    ");
    out.append(f.name.as_str());
    out.append(": ");
    out.append(f.ty.as_str());
    out.append(",\n");
}

fn push_fields(out: &mut String, fields: &Vec<TableStructField>)
    ensures
        final(out)@ == old(out)@ + fields_text(crate::codegen::struct_fields_view(fields@)),
{
    let ghost fs = crate::codegen::struct_fields_view(fields@);
    let ghost start = out@;
    let mut i: usize = 0;
    assert(fs.take(0) =~= seq![]);
    while i < fields.len()
        invariant
            i <= fields.len(),
            fs == crate::codegen::struct_fields_view(fields@),
            out@ == start + fields_text(fs.take(i as int)),
        decreases fields.len() - i,
    {
        assert(fs.take(i + 1).drop_last() =~= fs.take(i as int));
        push_field(out, &fields[i]);
        i += 1;
    }
    assert(fs.take(fields.len() as int) =~= fs);
}

fn bounds_of(fields: &Vec<TableStructField>) -> (r: String)
    ensures
        r@ == bounds_text(crate::codegen::struct_fields_view(fields@)),
{
    let ghost fs = crate::codegen::struct_fields_view(fields@);
    let mut r = String::new();
    let mut i: usize = 0;
    assert(fs.take(0) =~= seq![]);
    while i < fields.len()
        invariant
            i <= fields.len(),
            fs == crate::codegen::struct_fields_view(fields@),
            r@ == bounds_text(fs.take(i as int)),
        decreases fields.len() - i,
    {
        assert(fs.take(i + 1).drop_last() =~= fs.take(i as int));
        let f = &fields[i];
        match &f.id_bound {
            Some(b) => {
                r.append(" ");
                r.append(f.ty.as_str());
                r.append(": ");
                r.append(b.as_str());
                r.append(",");
            },
            None => {},
        }
        i += 1;
    }
    assert(fs.take(fields.len() as int) =~= fs);
    r
}

fn push_where_clause(out: &mut String, fields: &Vec<TableStructField>)
    ensures
        final(out)@ == old(out)@ + where_text(crate::codegen::struct_fields_view(fields@)),
{
    let bounds = bounds_of(fields);
    if bounds.as_str().unicode_len() > 0 {
        out.append(" where");
        out.append(bounds.as_str());
    }
}

} // verus!
