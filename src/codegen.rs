//! Record models derived from tables under a configuration overlay.
use crate::naming::{
    alias_for, alias_of, field_name_of, sql_ident_to_field_name, sql_ident_to_type_name,
    type_name_of,
};
use crate::sql::{
    clone_idents, fields_view, first_index, idents, lemma_first_index_absent,
    lemma_first_index_found, Field, FieldV, Table, TableV,
};
use crate::client_gen::AsyncClientCodeGenerator;
use crate::sql::lemma_first_index_bounds;
use crate::table_impls::{
    base_impl_lines, base_table_impl, column_names, column_names_of, first_missing, key_complete,
    key_positions, key_positions_of, lines_text, pk_impl_lines, pk_table_impl, positions_view,
    primary_key_columns, primary_key_of,
};
use crate::traits::{Client, DbTraits};
use crate::type_gen::{rust_type_text, TypeGenerator, UnsupportedDataType};
use vstd::prelude::*;
use vstd::string::*;

verus! {

/// Whether a column's value is wrapped in a domain identifier type, and
/// which identifier trait that type must implement.
#[derive(Clone, Copy, Debug, PartialEq, Eq)]
pub enum IdPromoteMode {
    /// The raw column value is kept.
    NoPromotion,
    /// The field's type is a domain identifier named after the column that
    /// implements `rasql_traits::TrustedId` over the resolved type.
    TrustedId,
    /// The field's type is a domain identifier named after the column that
    /// implements `rasql_traits::Id` over the resolved type.
    Id,
}

impl Default for IdPromoteMode {
    fn default() -> (r: Self)
        ensures
            r == IdPromoteMode::NoPromotion,
    {
        IdPromoteMode::NoPromotion
    }
}

/// Per-column overrides of the generated field.
#[derive(Debug)]
pub struct StructFieldCodeGenConfig {
    pub rename: Option<String>,
    pub override_type: Option<String>,
    pub attrs: Vec<String>,
    pub id_promote_mode: IdPromoteMode,
}

pub struct FieldConfigV {
    pub rename: Option<Seq<char>>,
    pub override_type: Option<Seq<char>>,
    pub attrs: Seq<Seq<char>>,
    pub id_promote_mode: IdPromoteMode,
}

pub open spec fn opt_view(o: Option<String>) -> Option<Seq<char>> {
    match o {
        Some(s) => Some(s@),
        None => None,
    }
}

impl View for StructFieldCodeGenConfig {
    type V = FieldConfigV;

    open spec fn view(&self) -> FieldConfigV {
        FieldConfigV {
            rename: opt_view(self.rename),
            override_type: opt_view(self.override_type),
            attrs: idents(self.attrs@),
            id_promote_mode: self.id_promote_mode,
        }
    }
}

/// The configuration of a column that the overlay does not mention.
pub open spec fn default_field_config() -> FieldConfigV {
    FieldConfigV {
        rename: None,
        override_type: None,
        attrs: seq![],
        id_promote_mode: IdPromoteMode::NoPromotion,
    }
}

/// The model of a list of entries keyed by name.
pub open spec fn entries_view<T: View>(v: Seq<(String, T)>) -> Seq<(Seq<char>, T::V)> {
    v.map_values(|e: (String, T)| (e.0@, e.1@))
}

/// The value of the first entry under `k`.
pub open spec fn lookup<T>(entries: Seq<(Seq<char>, T)>, k: Seq<char>) -> Option<T> {
    let i = first_index(entries.map_values(|e: (Seq<char>, T)| e.0), k);
    if i >= 0 {
        Some(entries[i].1)
    } else {
        None
    }
}

impl Default for StructFieldCodeGenConfig {
    fn default() -> (r: Self)
        ensures
            r@ == default_field_config(),
    {
        let r = StructFieldCodeGenConfig {
            rename: None,
            override_type: None,
            attrs: Vec::new(),
            id_promote_mode: IdPromoteMode::NoPromotion,
        };
        assert(r@.attrs =~= seq![]);
        r
    }
}

/// Per-record overrides: field configurations keyed by the SQL column name.
/// Where a key repeats, the first entry counts.
#[derive(Debug)]
pub struct StructCodeGenConfig {
    pub field_configs: Vec<(String, StructFieldCodeGenConfig)>,
    /// Decoding must reject rows with columns the record does not have. The
    /// generated statements name every column they read, so rows read through
    /// them never hold others.
    pub deny_extra_fields: bool,
}

pub struct StructConfigV {
    pub field_configs: Seq<(Seq<char>, FieldConfigV)>,
    pub deny_extra_fields: bool,
}

impl View for StructCodeGenConfig {
    type V = StructConfigV;

    open spec fn view(&self) -> StructConfigV {
        StructConfigV {
            field_configs: entries_view(self.field_configs@),
            deny_extra_fields: self.deny_extra_fields,
        }
    }
}

/// The configuration of a record that the overlay does not mention.
pub open spec fn default_struct_config() -> StructConfigV {
    StructConfigV { field_configs: seq![], deny_extra_fields: false }
}

/// Per-module overrides: `use` items, and record configurations keyed by the
/// generated record name. Where a key repeats, the first entry counts.
#[derive(Debug)]
pub struct ModuleCodeGenConfig {
    pub use_statements: Vec<String>,
    pub struct_configs: Vec<(String, StructCodeGenConfig)>,
}

pub struct ModuleConfigV {
    pub use_statements: Seq<Seq<char>>,
    pub struct_configs: Seq<(Seq<char>, StructConfigV)>,
}

impl View for ModuleCodeGenConfig {
    type V = ModuleConfigV;

    open spec fn view(&self) -> ModuleConfigV {
        ModuleConfigV {
            use_statements: idents(self.use_statements@),
            struct_configs: entries_view(self.struct_configs@),
        }
    }
}

/// The whole overlay: module configurations keyed by module name. Where a
/// key repeats, the first entry counts.
#[derive(Debug)]
pub struct CodeGenConfig {
    pub module_configs: Vec<(String, ModuleCodeGenConfig)>,
}

impl View for CodeGenConfig {
    type V = Seq<(Seq<char>, ModuleConfigV)>;

    open spec fn view(&self) -> Seq<(Seq<char>, ModuleConfigV)> {
        entries_view(self.module_configs@)
    }
}

impl CodeGenConfig {
    /// The configuration of a module, if the overlay has one.
    pub fn module_config(&self, module: &String) -> (r: Option<&ModuleCodeGenConfig>)
        ensures
            module_config_view(r) == lookup(self@, module@),
    {
        lookup_entry(&self.module_configs, module)
    }
}

/// A field of a generated record.
#[derive(Debug)]
pub struct TableStructField {
    pub name: String,
    /// The field's type as Rust source text.
    pub ty: String,
    /// The column's name, where it differs from the field's.
    pub db_alias: Option<String>,
    /// Attributes placed on the field, as source text.
    pub attrs: Vec<String>,
    /// For a promoted identifier: the trait bound its type must meet.
    pub id_bound: Option<String>,
}

pub struct TableStructFieldV {
    pub name: Seq<char>,
    pub ty: Seq<char>,
    pub db_alias: Option<Seq<char>>,
    pub attrs: Seq<Seq<char>>,
    pub id_bound: Option<Seq<char>>,
}

impl View for TableStructField {
    type V = TableStructFieldV;

    open spec fn view(&self) -> TableStructFieldV {
        TableStructFieldV {
            name: self.name@,
            ty: self.ty@,
            db_alias: opt_view(self.db_alias),
            attrs: idents(self.attrs@),
            id_bound: opt_view(self.id_bound),
        }
    }
}

pub open spec fn struct_fields_view(v: Seq<TableStructField>) -> Seq<TableStructFieldV> {
    v.map_values(|f: TableStructField| f@)
}

/// A generated record: its name, fields in column order, and the table's
/// name where it differs from the record's.
#[derive(Debug)]
pub struct TableStruct {
    pub name: String,
    pub fields: Vec<TableStructField>,
    pub db_alias: Option<String>,
}

pub struct TableStructV {
    pub name: Seq<char>,
    pub fields: Seq<TableStructFieldV>,
    pub db_alias: Option<Seq<char>>,
}

impl View for TableStruct {
    type V = TableStructV;

    open spec fn view(&self) -> TableStructV {
        TableStructV {
            name: self.name@,
            fields: struct_fields_view(self.fields@),
            db_alias: opt_view(self.db_alias),
        }
    }
}

/// Why a record or its impls could not be generated.
#[derive(Debug, PartialEq, Eq)]
pub enum GenerationError {
    /// A column's type has no Rust type under the generator's configuration.
    UnsupportedDataType(UnsupportedDataType),
    /// An identifier whose case conversion leaves no characters.
    EmptyName(String),
    /// A primary key names a column that the table does not have.
    UnknownKeyColumn(String),
}

pub enum GenerationErrorV {
    UnsupportedDataType(UnsupportedDataType),
    EmptyName(Seq<char>),
    UnknownKeyColumn(Seq<char>),
}

impl View for GenerationError {
    type V = GenerationErrorV;

    open spec fn view(&self) -> GenerationErrorV {
        match self {
            GenerationError::UnsupportedDataType(e) => GenerationErrorV::UnsupportedDataType(*e),
            GenerationError::EmptyName(n) => GenerationErrorV::EmptyName(n@),
            GenerationError::UnknownKeyColumn(n) => GenerationErrorV::UnknownKeyColumn(n@),
        }
    }
}

/// The trait bound of a domain identifier over the given underlying type.
pub open spec fn id_bound_text(mode: IdPromoteMode, underlying: Seq<char>) -> Seq<char> {
    if mode is TrustedId {
        "rasql_traits::TrustedId<Underlying = "@ + underlying + ">"@
    } else {
        "rasql_traits::Id<Underlying = "@ + underlying + ">"@
    }
}

/// The field's name and alias: a rename is always aliased; a derived name
/// only where it differs from the column's. `None` where the derived name is
/// empty.
pub open spec fn field_naming(col: Seq<char>, fc: FieldConfigV) -> Option<
    (Seq<char>, Option<Seq<char>>),
> {
    match fc.rename {
        Some(r) => Some((r, Some(col))),
        None => if field_name_of(col).len() == 0 {
            None
        } else {
            Some((field_name_of(col), alias_for(field_name_of(col), col)))
        },
    }
}

/// The field's type text and identifier bound: an override wins outright;
/// otherwise the resolved type, wrapped in a domain identifier named after
/// the column when promoted.
pub open spec fn field_typing<Traits: DbTraits, G: TypeGenerator<Traits>>(
    generator: G,
    col: FieldV,
    fc: FieldConfigV,
) -> Result<(Seq<char>, Option<Seq<char>>), GenerationErrorV> {
    match fc.override_type {
        Some(t) => Ok((t, None)),
        None => match generator.resolve_spec(col.data_type) {
            Err(e) => Err(GenerationErrorV::UnsupportedDataType(e)),
            Ok(rt) => if fc.id_promote_mode is NoPromotion {
                Ok((rust_type_text(rt), None))
            } else if type_name_of(col.name).len() == 0 {
                Err(GenerationErrorV::EmptyName(col.name))
            } else {
                Ok(
                    (
                        type_name_of(col.name),
                        Some(id_bound_text(fc.id_promote_mode, rust_type_text(rt))),
                    ),
                )
            },
        },
    }
}

/// The generated field for one column: named first, then typed.
pub open spec fn field_spec<Traits: DbTraits, G: TypeGenerator<Traits>>(
    generator: G,
    col: FieldV,
    fc: FieldConfigV,
) -> Result<TableStructFieldV, GenerationErrorV> {
    match field_naming(col.name, fc) {
        None => Err(GenerationErrorV::EmptyName(col.name)),
        Some(naming) => match field_typing(generator, col, fc) {
            Err(e) => Err(e),
            Ok(t) => Ok(
                TableStructFieldV {
                    name: naming.0,
                    ty: t.0,
                    db_alias: naming.1,
                    attrs: fc.attrs,
                    id_bound: t.1,
                },
            ),
        },
    }
}

/// The configuration the overlay gives a column.
pub open spec fn field_config_for(sc: StructConfigV, col: Seq<char>) -> FieldConfigV {
    match lookup(sc.field_configs, col) {
        Some(fc) => fc,
        None => default_field_config(),
    }
}

/// The generated fields for columns in order, or the failure of the first
/// column that cannot be named or typed.
pub open spec fn fields_spec<Traits: DbTraits, G: TypeGenerator<Traits>>(
    generator: G,
    cols: Seq<FieldV>,
    sc: StructConfigV,
) -> Result<Seq<TableStructFieldV>, GenerationErrorV>
    decreases cols.len(),
{
    if cols.len() == 0 {
        Ok(seq![])
    } else {
        match fields_spec(generator, cols.drop_last(), sc) {
            Err(e) => Err(e),
            Ok(fs) => match field_spec(
                generator,
                cols.last(),
                field_config_for(sc, cols.last().name),
            ) {
                Err(e) => Err(e),
                Ok(f) => Ok(fs.push(f)),
            },
        }
    }
}

/// The model of a result whose success value has a view.
pub open spec fn result_view<T: View, E: View>(r: Result<T, E>) -> Result<T::V, E::V> {
    match r {
        Ok(t) => Ok(t@),
        Err(e) => Err(e@),
    }
}

/// The name of a table with its parts joined by dots.
pub open spec fn qualified_text(parts: Seq<Seq<char>>) -> Seq<char>
    decreases parts.len(),
{
    if parts.len() == 0 {
        seq![]
    } else if parts.len() == 1 {
        parts[0]
    } else {
        qualified_text(parts.drop_last()) + "."@ + parts.last()
    }
}

/// The configuration the overlay gives a record.
pub open spec fn struct_config_for(mc: Option<ModuleConfigV>, name: Seq<char>) -> StructConfigV {
    match mc {
        Some(m) => match lookup(m.struct_configs, name) {
            Some(sc) => sc,
            None => default_struct_config(),
        },
        None => default_struct_config(),
    }
}

/// The record generated for a table under a module's overlay.
pub open spec fn table_struct_spec<Traits: DbTraits, G: TypeGenerator<Traits>>(
    generator: G,
    table: TableV,
    mc: Option<ModuleConfigV>,
) -> Result<TableStructV, GenerationErrorV> {
    let name = type_name_of(table.name.last());
    if name.len() == 0 {
        Err(GenerationErrorV::EmptyName(table.name.last()))
    } else {
        match fields_spec(generator, table.columns, struct_config_for(mc, name)) {
            Err(e) => Err(e),
            Ok(fs) => Ok(
                TableStructV {
                    name,
                    fields: fs,
                    db_alias: alias_for(name, qualified_text(table.name)),
                },
            ),
        }
    }
}

pub open spec fn module_config_view(mc: Option<&ModuleCodeGenConfig>) -> Option<ModuleConfigV> {
    match mc {
        Some(m) => Some(m@),
        None => None,
    }
}

pub(crate) fn lookup_entry<'a, T: View>(entries: &'a Vec<(String, T)>, key: &String) -> (r: Option<&'a T>)
    ensures
        match r {
            Some(x) => lookup(entries_view(entries@), key@) == Some(x@),
            None => lookup(entries_view(entries@), key@) is None,
        },
{
    let ghost keys = entries_view(entries@).map_values(|e: (Seq<char>, T::V)| e.0);
    let mut i: usize = 0;
    while i < entries.len()
        invariant
            i <= entries.len(),
            keys == entries_view(entries@).map_values(|e: (Seq<char>, T::V)| e.0),
            forall|j: int| 0 <= j < i ==> keys[j] != key@,
        decreases entries.len() - i,
    {
        if entries[i].0 == *key {
            proof {
                lemma_first_index_found(keys, key@, i as int);
            }
            return Some(&entries[i].1);
        }
        i += 1;
    }
    proof {
        lemma_first_index_absent(keys, key@);
    }
    None
}

fn id_bound(mode: IdPromoteMode, underlying: &String) -> (r: String)
    ensures
        r@ == id_bound_text(mode, underlying@),
{
    let mut r = match mode {
        IdPromoteMode::TrustedId => String::from_str("rasql_traits::TrustedId<Underlying = "),
        _ => String::from_str("rasql_traits::Id<Underlying = "),
    };
    r.append(underlying.as_str());
    r.append(">");
    r
}

pub open spec fn field_config_view(fc: Option<&StructFieldCodeGenConfig>) -> FieldConfigV {
    match fc {
        Some(c) => c@,
        None => default_field_config(),
    }
}

fn generate_field<Traits: DbTraits, G: TypeGenerator<Traits>>(
    generator: &G,
    col: &Field,
    fc: Option<&StructFieldCodeGenConfig>,
) -> (r: Result<TableStructField, GenerationError>)
    ensures
        result_view(r) == field_spec(*generator, col@, field_config_view(fc)),
{
    let rename = match fc {
        Some(c) => match &c.rename {
            Some(n) => Some(n.clone()),
            None => None,
        },
        None => None,
    };
    let (name, db_alias) = match rename {
        Some(n) => (n, Some(col.name.clone())),
        None => match sql_ident_to_field_name(col.name.as_str()) {
            None => {
                return Err(GenerationError::EmptyName(col.name.clone()));
            },
            Some(n) => {
                let a = alias_of(&n, &col.name);
                (n, a)
            },
        },
    };
    let override_type = match fc {
        Some(c) => match &c.override_type {
            Some(t) => Some(t.clone()),
            None => None,
        },
        None => None,
    };
    let mode = match fc {
        Some(c) => c.id_promote_mode,
        None => IdPromoteMode::NoPromotion,
    };
    let (ty, bound) = match override_type {
        Some(t) => (t, None),
        None => match generator.sql_datatype_to_rust_type(&col.data_type) {
            Err(e) => {
                return Err(GenerationError::UnsupportedDataType(e));
            },
            Ok(rt) => {
                let text = rt.to_source();
                match mode {
                    IdPromoteMode::NoPromotion => (text, None),
                    _ => match sql_ident_to_type_name(col.name.as_str()) {
                        None => {
                            return Err(GenerationError::EmptyName(col.name.clone()));
                        },
                        Some(promoted) => (promoted, Some(id_bound(mode, &text))),
                    },
                }
            },
        },
    };
    let attrs = match fc {
        Some(c) => clone_idents(&c.attrs),
        None => Vec::new(),
    };
    assert(idents(attrs@) =~= field_config_view(fc).attrs);
    Ok(TableStructField { name, ty, db_alias, attrs, id_bound: bound })
}

proof fn lemma_fields_error_persists<Traits: DbTraits, G: TypeGenerator<Traits>>(
    generator: G,
    cols: Seq<FieldV>,
    sc: StructConfigV,
    k: int,
)
    requires
        0 <= k <= cols.len(),
        fields_spec(generator, cols.take(k), sc) is Err,
    ensures
        fields_spec(generator, cols, sc) == fields_spec(generator, cols.take(k), sc),
    decreases cols.len() - k,
{
    if k == cols.len() {
        assert(cols.take(k) =~= cols);
    } else {
        let prev = cols.drop_last();
        assert(prev.take(k) =~= cols.take(k));
        lemma_fields_error_persists(generator, prev, sc, k);
    }
}

pub open spec fn struct_config_view(sc: Option<&StructCodeGenConfig>) -> StructConfigV {
    match sc {
        Some(c) => c@,
        None => default_struct_config(),
    }
}

pub open spec fn fields_result_view(r: Result<Vec<TableStructField>, GenerationError>) -> Result<
    Seq<TableStructFieldV>,
    GenerationErrorV,
> {
    match r {
        Ok(v) => Ok(struct_fields_view(v@)),
        Err(e) => Err(e@),
    }
}

fn generate_fields<Traits: DbTraits, G: TypeGenerator<Traits>>(
    generator: &G,
    columns: &Vec<Field>,
    sc: Option<&StructCodeGenConfig>,
) -> (r: Result<Vec<TableStructField>, GenerationError>)
    ensures
        fields_result_view(r) == fields_spec(
            *generator,
            fields_view(columns@),
            struct_config_view(sc),
        ),
{
    let ghost cols = fields_view(columns@);
    let ghost scv = struct_config_view(sc);
    let mut out: Vec<TableStructField> = Vec::new();
    let mut i: usize = 0;
    assert(cols.take(0) =~= seq![]);
    assert(struct_fields_view(out@) =~= seq![]);
    while i < columns.len()
        invariant
            i <= columns.len(),
            cols == fields_view(columns@),
            scv == struct_config_view(sc),
            fields_spec(*generator, cols.take(i as int), scv) == Ok::<
                Seq<TableStructFieldV>,
                GenerationErrorV,
            >(struct_fields_view(out@)),
        decreases columns.len() - i,
    {
        let col = &columns[i];
        assert(cols.take(i + 1).drop_last() =~= cols.take(i as int));
        assert(cols.take(i + 1).last() == col@);
        let fc = match sc {
            Some(c) => lookup_entry(&c.field_configs, &col.name),
            None => None,
        };
        assert(field_config_view(fc) == field_config_for(scv, col@.name));
        match generate_field(generator, col, fc) {
            Err(e) => {
                proof {
                    lemma_fields_error_persists(*generator, cols, scv, i + 1);
                }
                return Err(e);
            },
            Ok(f) => {
                out.push(f);
                assert(struct_fields_view(out@) =~= fields_spec(
                    *generator,
                    cols.take(i + 1),
                    scv,
                )->Ok_0);
            },
        }
        i += 1;
    }
    assert(cols.take(columns.len() as int) =~= cols);
    Ok(out)
}

fn qualified_name(parts: &Vec<String>) -> (r: String)
    ensures
        r@ == qualified_text(idents(parts@)),
{
    let ghost ps = idents(parts@);
    let mut r = String::new();
    let mut i: usize = 0;
    assert(ps.take(0) =~= seq![]);
    while i < parts.len()
        invariant
            i <= parts.len(),
            ps == idents(parts@),
            r@ == qualified_text(ps.take(i as int)),
        decreases parts.len() - i,
    {
        assert(ps.take(i + 1).drop_last() =~= ps.take(i as int));
        if i > 0 {
            r.append(".");
        }
        r.append(parts[i].as_str());
        assert(r@ =~= qualified_text(ps.take(i + 1)));
        i += 1;
    }
    assert(ps.take(parts.len() as int) =~= ps);
    r
}

/// Builds the record for a table: every column in order becomes a field,
/// named, typed and annotated as the module's overlay says, or by default.
/// Fails where the record's name or a derived field name is empty, or with
/// the first column that cannot be named or typed.
pub fn build_table_struct<Traits: DbTraits, G: TypeGenerator<Traits>>(
    generator: &G,
    table: &Table,
    module_config: Option<&ModuleCodeGenConfig>,
) -> (r: Result<TableStruct, GenerationError>)
    requires
        table@.name.len() > 0,
    ensures
        result_view(r) == table_struct_spec(*generator, table@, module_config_view(module_config)),
{
    let parts = &table.name.0;
    let last = &parts[parts.len() - 1];
    let name = match sql_ident_to_type_name(last.as_str()) {
        None => {
            return Err(GenerationError::EmptyName(last.clone()));
        },
        Some(n) => n,
    };
    let sc = match module_config {
        Some(m) => lookup_entry(&m.struct_configs, &name),
        None => None,
    };
    assert(struct_config_view(sc) == struct_config_for(module_config_view(module_config), name@));
    let fields = match generate_fields(generator, &table.columns, sc) {
        Err(e) => {
            return Err(e);
        },
        Ok(fs) => fs,
    };
    let qualified = qualified_name(parts);
    let db_alias = alias_of(&name, &qualified);
    Ok(TableStruct { name, fields, db_alias })
}

proof fn lemma_fields_len<Traits: DbTraits, G: TypeGenerator<Traits>>(
    generator: G,
    cols: Seq<FieldV>,
    sc: StructConfigV,
)
    requires
        fields_spec(generator, cols, sc) is Ok,
    ensures
        fields_spec(generator, cols, sc)->Ok_0.len() == cols.len(),
    decreases cols.len(),
{
    if cols.len() > 0 {
        lemma_fields_len(generator, cols.drop_last(), sc);
    }
}

/// A generated record declaration, as Rust source text.
#[derive(Debug)]
pub struct GeneratedTableStruct(pub String);

/// The accessor impls of a generated record, as Rust source text.
#[derive(Debug)]
pub struct TableStructImpls {
    pub base_table_impl: String,
    /// Present exactly when the table declares a primary key.
    pub table_with_pk_impl: Option<String>,
}

/// The `TableWithPK` impl of a record: absent without a primary key
/// constraint, present when the first one names only columns of the table,
/// and otherwise an error naming its first unknown column.
pub open spec fn pk_impl_spec<C: Client, CG: AsyncClientCodeGenerator<C>>(
    ts: TableStructV,
    table: TableV,
) -> Result<Option<Seq<char>>, GenerationErrorV> {
    let names = column_names(table.columns);
    match primary_key_columns(table.constraints) {
        Some(keys) => if key_complete(keys, names) {
            Ok(
                Some(
                    lines_text(
                        pk_impl_lines::<C, CG>(
                            ts.name,
                            ts.fields,
                            names,
                            table.name,
                            keys,
                            key_positions(keys, names),
                        ),
                    ),
                ),
            )
        } else {
            Err(GenerationErrorV::UnknownKeyColumn(keys[first_missing(keys, names)]))
        },
        None => Ok(None),
    }
}

/// What generation yields for a table: the record declaration, the base
/// impl and, with a primary key, the keyed impl; or the first failure.
pub open spec fn generation_spec<
    Traits: DbTraits,
    TG: TypeGenerator<Traits>,
    C: Client,
    CG: AsyncClientCodeGenerator<C>,
>(generator: TG, table: TableV, mc: Option<ModuleConfigV>) -> Result<
    (Seq<char>, Seq<char>, Option<Seq<char>>),
    GenerationErrorV,
> {
    match table_struct_spec(generator, table, mc) {
        Err(e) => Err(e),
        Ok(ts) => match pk_impl_spec::<C, CG>(ts, table) {
            Err(e) => Err(e),
            Ok(keyed) => Ok(
                (
                    generator.struct_decl_spec(ts),
                    lines_text(
                        base_impl_lines::<C, CG>(
                            ts.name,
                            ts.fields,
                            column_names(table.columns),
                            table.name,
                        ),
                    ),
                    keyed,
                ),
            ),
        },
    }
}

pub open spec fn generated_view(
    r: Result<(GeneratedTableStruct, TableStructImpls), GenerationError>,
) -> Result<(Seq<char>, Seq<char>, Option<Seq<char>>), GenerationErrorV> {
    match r {
        Err(e) => Err(e@),
        Ok((s, i)) => Ok((s.0@, i.base_table_impl@, opt_view(i.table_with_pk_impl))),
    }
}

/// Tables whose sizes the generated placeholders can number.
pub open spec fn numberable(table: TableV) -> bool {
    &&& table.columns.len() < usize::MAX
    &&& forall|k: Seq<Seq<char>>|
        primary_key_columns(table.constraints) == Some(k) ==> table.columns.len() + k.len()
            < usize::MAX
}

/// Generates the record for a table and its accessor impls, consulting the
/// module's overlay for the record before falling back to defaults. A table
/// with a primary key gets the keyed impl too; a key column that the table
/// lacks is an error.
pub fn generate_table_struct_and_impls<
    Traits: DbTraits,
    TypeGen: TypeGenerator<Traits>,
    C: Client<Traits = Traits>,
    ClientGen: AsyncClientCodeGenerator<C>,
>(type_gen: &TypeGen, table: &Table, module_config: Option<&ModuleCodeGenConfig>) -> (r: Result<
    (GeneratedTableStruct, TableStructImpls),
    GenerationError,
>)
    requires
        table@.name.len() > 0,
        numberable(table@),
    ensures
        generated_view(r) == generation_spec::<Traits, TypeGen, C, ClientGen>(
            *type_gen,
            table@,
            module_config_view(module_config),
        ),
        r is Ok ==> (r->Ok_0.1.table_with_pk_impl is Some <==> primary_key_columns(
            table@.constraints,
        ) is Some),
{
    let table_struct = match build_table_struct(type_gen, table, module_config) {
        Err(e) => {
            return Err(e);
        },
        Ok(ts) => ts,
    };
    proof {
        let name = type_name_of(table@.name.last());
        lemma_fields_len(
            *type_gen,
            table@.columns,
            struct_config_for(module_config_view(module_config), name),
        );
    }
    let declaration = type_gen.generate_table_struct(&table_struct);
    let base = base_table_impl::<C, ClientGen>(table, &table_struct);
    let names = column_names_of(&table.columns);
    let keyed = match primary_key_of(&table.constraints) {
        None => None,
        Some(keys) => match key_positions_of(&names, keys) {
            Err(i) => {
                return Err(GenerationError::UnknownKeyColumn(keys[i].clone()));
            },
            Ok(pos) => {
                proof {
                    assert forall|i: int| 0 <= i < pos.len() implies pos@[i]
                        < table_struct.fields.len() by {
                        lemma_first_index_bounds(idents(names@), idents(keys@)[i]);
                        assert(positions_view(pos@)[i] == pos@[i] as int);
                    }
                }
                Some(pk_table_impl::<C, ClientGen>(table, &table_struct, keys, &pos))
            },
        },
    };
    Ok(
        (
            GeneratedTableStruct(declaration),
            TableStructImpls { base_table_impl: base, table_with_pk_impl: keyed },
        ),
    )
}

/// A field that the overlay does not rename carries no alias exactly when its
/// case-converted name equals the column's name; otherwise its alias is the
/// column's name.
pub proof fn lemma_field_alias<Traits: DbTraits, G: TypeGenerator<Traits>>(
    generator: G,
    col: FieldV,
    fc: FieldConfigV,
)
    requires
        fc.rename is None,
        field_spec(generator, col, fc) is Ok,
    ensures
        (field_name_of(col.name) == col.name) <==> field_spec(generator, col, fc)->Ok_0.db_alias
            is None,
        field_name_of(col.name) != col.name ==> field_spec(generator, col, fc)->Ok_0.db_alias
            == Some(col.name),
{
}

/// A record carries no alias exactly when its name equals the table's
/// qualified name; otherwise its alias is that qualified name.
pub proof fn lemma_record_alias<Traits: DbTraits, G: TypeGenerator<Traits>>(
    generator: G,
    table: TableV,
    mc: Option<ModuleConfigV>,
)
    requires
        table_struct_spec(generator, table, mc) is Ok,
    ensures
        (table_struct_spec(generator, table, mc)->Ok_0.name == qualified_text(table.name))
            <==> table_struct_spec(generator, table, mc)->Ok_0.db_alias is None,
        table_struct_spec(generator, table, mc)->Ok_0.name != qualified_text(table.name)
            ==> table_struct_spec(generator, table, mc)->Ok_0.db_alias == Some(
            qualified_text(table.name),
        ),
{
}

/// Generation is idempotent: two generations for the same table under the
/// same overlay yield byte-identical declarations and impls, or the same error.
pub proof fn lemma_generation_idempotent<
    Traits: DbTraits,
    TG: TypeGenerator<Traits>,
    C: Client,
    CG: AsyncClientCodeGenerator<C>,
>(
    generator: TG,
    table: TableV,
    mc: Option<ModuleConfigV>,
    first: Result<(GeneratedTableStruct, TableStructImpls), GenerationError>,
    second: Result<(GeneratedTableStruct, TableStructImpls), GenerationError>,
)
    requires
        generated_view(first) == generation_spec::<Traits, TG, C, CG>(generator, table, mc),
        generated_view(second) == generation_spec::<Traits, TG, C, CG>(generator, table, mc),
    ensures
        generated_view(first) == generated_view(second),
{
}

} // verus!
