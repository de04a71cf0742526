//! The schema model and the builder that folds DDL statements into it.
use crate::data_type::DataType;
use vstd::prelude::*;
use vstd::string::*;

verus! {

/// The identifiers of a sequence of `String`s.
pub open spec fn idents(v: Seq<String>) -> Seq<Seq<char>> {
    v.map_values(|s: String| s@)
}

/// A possibly qualified object name: `table`, `schema.table` or
/// `catalog.schema.table`.
#[derive(Debug)]
pub struct ObjectName(pub Vec<String>);

impl View for ObjectName {
    type V = Seq<Seq<char>>;

    open spec fn view(&self) -> Seq<Seq<char>> {
        idents(self.0@)
    }
}

/// A column of a table, or an attribute of a composite type.
#[derive(Debug)]
pub struct Field {
    pub name: String,
    pub data_type: DataType,
}

pub struct FieldV {
    pub name: Seq<char>,
    pub data_type: DataType,
}

impl View for Field {
    type V = FieldV;

    open spec fn view(&self) -> FieldV {
        FieldV { name: self.name@, data_type: self.data_type }
    }
}

pub open spec fn fields_view(v: Seq<Field>) -> Seq<FieldV> {
    v.map_values(|f: Field| f@)
}

/// What a table constraint requires, as far as the generator reads it.
#[derive(Debug)]
pub enum ConstraintKind {
    PrimaryKey { columns: Vec<String> },
    Unique { columns: Vec<String> },
    Other,
}

pub enum ConstraintKindV {
    PrimaryKey(Seq<Seq<char>>),
    Unique(Seq<Seq<char>>),
    Other,
}

/// A table constraint, kept as declared.
#[derive(Debug)]
pub struct TableConstraint {
    pub name: Option<String>,
    pub kind: ConstraintKind,
}

pub struct ConstraintV {
    pub name: Option<Seq<char>>,
    pub kind: ConstraintKindV,
}

impl View for TableConstraint {
    type V = ConstraintV;

    open spec fn view(&self) -> ConstraintV {
        ConstraintV {
            name: match self.name {
                Some(n) => Some(n@),
                None => None,
            },
            kind: match self.kind {
                ConstraintKind::PrimaryKey { columns } => ConstraintKindV::PrimaryKey(
                    idents(columns@),
                ),
                ConstraintKind::Unique { columns } => ConstraintKindV::Unique(idents(columns@)),
                ConstraintKind::Other => ConstraintKindV::Other,
            },
        }
    }
}

pub open spec fn constraints_view(v: Seq<TableConstraint>) -> Seq<ConstraintV> {
    v.map_values(|c: TableConstraint| c@)
}

/// A table: its qualified name, its columns in order, and its constraints.
#[derive(Debug)]
pub struct Table {
    pub name: ObjectName,
    pub columns: Vec<Field>,
    pub constraints: Vec<TableConstraint>,
}

pub struct TableV {
    pub name: Seq<Seq<char>>,
    pub columns: Seq<FieldV>,
    pub constraints: Seq<ConstraintV>,
}

impl View for Table {
    type V = TableV;

    open spec fn view(&self) -> TableV {
        TableV {
            name: self.name@,
            columns: fields_view(self.columns@),
            constraints: constraints_view(self.constraints@),
        }
    }
}

/// A user-defined type: a composite of named fields, or an enumeration.
#[derive(Debug)]
pub enum Type {
    Composite { name: ObjectName, fields: Vec<Field> },
    Enum { name: ObjectName, variants: Vec<String> },
}

pub enum TypeV {
    Composite { name: Seq<Seq<char>>, fields: Seq<FieldV> },
    Enum { name: Seq<Seq<char>>, variants: Seq<Seq<char>> },
}

impl TypeV {
    pub open spec fn name(self) -> Seq<Seq<char>> {
        match self {
            TypeV::Composite { name, .. } => name,
            TypeV::Enum { name, .. } => name,
        }
    }
}

impl View for Type {
    type V = TypeV;

    open spec fn view(&self) -> TypeV {
        match self {
            Type::Composite { name, fields } => TypeV::Composite {
                name: name@,
                fields: fields_view(fields@),
            },
            Type::Enum { name, variants } => TypeV::Enum {
                name: name@,
                variants: idents(variants@),
            },
        }
    }
}

/// A schema: its key, and its tables and types, each unique by name.
#[derive(Debug)]
pub struct Schema {
    pub name: ObjectName,
    pub tables: Vec<Table>,
    pub types: Vec<Type>,
}

pub struct SchemaV {
    pub name: Seq<Seq<char>>,
    pub tables: Seq<TableV>,
    pub types: Seq<TypeV>,
}

impl View for Schema {
    type V = SchemaV;

    open spec fn view(&self) -> SchemaV {
        SchemaV {
            name: self.name@,
            tables: tables_view(self.tables@),
            types: types_view(self.types@),
        }
    }
}

pub open spec fn tables_view(v: Seq<Table>) -> Seq<TableV> {
    v.map_values(|t: Table| t@)
}

pub open spec fn types_view(v: Seq<Type>) -> Seq<TypeV> {
    v.map_values(|t: Type| t@)
}

pub open spec fn schemas_view(v: Seq<Schema>) -> Seq<SchemaV> {
    v.map_values(|s: Schema| s@)
}

/// One operation of an `ALTER TABLE` statement.
#[derive(Debug)]
pub enum AlterTableOperation {
    AddConstraint(TableConstraint),
    Other,
}

pub enum AlterOpV {
    AddConstraint(ConstraintV),
    Other,
}

impl View for AlterTableOperation {
    type V = AlterOpV;

    open spec fn view(&self) -> AlterOpV {
        match self {
            AlterTableOperation::AddConstraint(c) => AlterOpV::AddConstraint(c@),
            AlterTableOperation::Other => AlterOpV::Other,
        }
    }
}

/// A DDL statement, as far as the schema model reads it.
#[derive(Debug)]
pub enum Statement {
    CreateSchema { schema_name: ObjectName },
    CreateTable { name: ObjectName, columns: Vec<Field>, constraints: Vec<TableConstraint> },
    AlterTable { name: ObjectName, operations: Vec<AlterTableOperation> },
    CreateCompositeType { name: ObjectName, attributes: Vec<Field> },
    CreateEnumType { name: ObjectName, labels: Vec<String> },
    /// Any statement that does not shape the schema.
    Other,
}

pub enum StatementV {
    CreateSchema(Seq<Seq<char>>),
    CreateTable(TableV),
    AlterTable { name: Seq<Seq<char>>, operations: Seq<AlterOpV> },
    CreateCompositeType { name: Seq<Seq<char>>, attributes: Seq<FieldV> },
    CreateEnumType { name: Seq<Seq<char>>, labels: Seq<Seq<char>> },
    Other,
}

impl View for Statement {
    type V = StatementV;

    open spec fn view(&self) -> StatementV {
        match self {
            Statement::CreateSchema { schema_name } => StatementV::CreateSchema(schema_name@),
            Statement::CreateTable { name, columns, constraints } => StatementV::CreateTable(
                TableV {
                    name: name@,
                    columns: fields_view(columns@),
                    constraints: constraints_view(constraints@),
                },
            ),
            Statement::AlterTable { name, operations } => StatementV::AlterTable {
                name: name@,
                operations: operations@.map_values(|o: AlterTableOperation| o@),
            },
            Statement::CreateCompositeType { name, attributes } =>
                StatementV::CreateCompositeType { name: name@, attributes: fields_view(attributes@) },
            Statement::CreateEnumType { name, labels } => StatementV::CreateEnumType {
                name: name@,
                labels: idents(labels@),
            },
            Statement::Other => StatementV::Other,
        }
    }
}

/// An input item could not be turned into a statement.
#[derive(Debug)]
pub struct StatementConversionError {
    pub message: String,
}

/// An input item: a statement, or the reason it could not be had.
pub open spec fn item_view(item: Result<Statement, StatementConversionError>) -> Result<
    StatementV,
    Seq<char>,
> {
    match item {
        Ok(s) => Ok(s@),
        Err(e) => Err(e.message@),
    }
}

pub open spec fn items_view(v: Seq<Result<Statement, StatementConversionError>>) -> Seq<
    Result<StatementV, Seq<char>>,
> {
    v.map_values(|i: Result<Statement, StatementConversionError>| item_view(i))
}

/// Index of the first occurrence of `k` in `keys`, or -1.
pub open spec fn first_index<K>(keys: Seq<K>, k: K) -> int
    decreases keys.len(),
{
    if keys.len() == 0 {
        -1
    } else if keys[0] == k {
        0
    } else {
        let r = first_index(keys.drop_first(), k);
        if r < 0 {
            -1
        } else {
            r + 1
        }
    }
}

pub(crate) proof fn lemma_first_index_found<K>(keys: Seq<K>, k: K, i: int)
    requires
        0 <= i < keys.len(),
        keys[i] == k,
        forall|j: int| 0 <= j < i ==> keys[j] != k,
    ensures
        first_index(keys, k) == i,
    decreases keys.len(),
{
    if i > 0 {
        assert(keys[0] != k);
        assert forall|j: int| 0 <= j < i - 1 implies keys.drop_first()[j] != k by {
            assert(keys.drop_first()[j] == keys[j + 1]);
        }
        lemma_first_index_found(keys.drop_first(), k, i - 1);
    }
}

pub(crate) proof fn lemma_first_index_absent<K>(keys: Seq<K>, k: K)
    requires
        forall|j: int| 0 <= j < keys.len() ==> keys[j] != k,
    ensures
        first_index(keys, k) == -1,
    decreases keys.len(),
{
    if keys.len() > 0 {
        assert(keys[0] != k);
        assert forall|j: int| 0 <= j < keys.len() - 1 implies keys.drop_first()[j] != k by {
            assert(keys.drop_first()[j] == keys[j + 1]);
        }
        lemma_first_index_absent(keys.drop_first(), k);
    }
}

pub(crate) proof fn lemma_first_index_bounds<K>(keys: Seq<K>, k: K)
    ensures
        -1 <= first_index(keys, k) < keys.len(),
        first_index(keys, k) >= 0 ==> keys[first_index(keys, k)] == k,
    decreases keys.len(),
{
    if keys.len() > 0 && keys[0] != k {
        lemma_first_index_bounds(keys.drop_first(), k);
    }
}

/// The name under which an unqualified object's schema is kept.
pub open spec fn public_schema() -> Seq<Seq<char>> {
    seq!["public"@]
}

/// The key of the schema that owns an object: `public` for a bare name, else
/// every part but the last.
pub open spec fn schema_key(name: Seq<Seq<char>>) -> Seq<Seq<char>> {
    if name.len() == 1 {
        public_schema()
    } else {
        name.drop_last()
    }
}

/// Object names that resolve to a schema have one to three parts.
pub open spec fn resolvable(name: Seq<Seq<char>>) -> bool {
    1 <= name.len() <= 3
}

pub open spec fn schema_names(ss: Seq<SchemaV>) -> Seq<Seq<Seq<char>>> {
    ss.map_values(|s: SchemaV| s.name)
}

pub open spec fn table_names(ts: Seq<TableV>) -> Seq<Seq<Seq<char>>> {
    ts.map_values(|t: TableV| t.name)
}

pub open spec fn type_names(ts: Seq<TypeV>) -> Seq<Seq<Seq<char>>> {
    ts.map_values(|t: TypeV| t.name())
}

pub open spec fn empty_schema(key: Seq<Seq<char>>) -> SchemaV {
    SchemaV { name: key, tables: seq![], types: seq![] }
}

/// The schemas with one under `key`, added at the end if it was missing.
pub open spec fn with_schema(ss: Seq<SchemaV>, key: Seq<Seq<char>>) -> Seq<SchemaV> {
    if first_index(schema_names(ss), key) >= 0 {
        ss
    } else {
        ss.push(empty_schema(key))
    }
}

/// Where the schema under `key` stands in `with_schema(ss, key)`.
pub open spec fn schema_slot(ss: Seq<SchemaV>, key: Seq<Seq<char>>) -> int {
    let i = first_index(schema_names(ss), key);
    if i >= 0 {
        i
    } else {
        ss.len() as int
    }
}

/// Inserts a table, replacing one of the same name in place.
pub open spec fn put_table(ts: Seq<TableV>, t: TableV) -> Seq<TableV> {
    let i = first_index(table_names(ts), t.name);
    if i >= 0 {
        ts.update(i, t)
    } else {
        ts.push(t)
    }
}

/// Inserts a type, replacing one of the same name in place.
pub open spec fn put_type(ts: Seq<TypeV>, t: TypeV) -> Seq<TypeV> {
    let i = first_index(type_names(ts), t.name());
    if i >= 0 {
        ts.update(i, t)
    } else {
        ts.push(t)
    }
}

/// The constraints that a sequence of alter operations adds, in order.
pub open spec fn added_constraints(ops: Seq<AlterOpV>) -> Seq<ConstraintV>
    decreases ops.len(),
{
    if ops.len() == 0 {
        seq![]
    } else {
        let r = added_constraints(ops.drop_last());
        match ops.last() {
            AlterOpV::AddConstraint(c) => r.push(c),
            AlterOpV::Other => r,
        }
    }
}

/// The schemas after applying `f` to the one that owns `name`, which is
/// created first when missing.
pub open spec fn update_owner(
    ss: Seq<SchemaV>,
    name: Seq<Seq<char>>,
    f: spec_fn(SchemaV) -> SchemaV,
) -> Seq<SchemaV> {
    let key = schema_key(name);
    let ws = with_schema(ss, key);
    let i = schema_slot(ss, key);
    ws.update(i, f(ws[i]))
}

/// The effect of one statement on the schemas. An `ALTER TABLE` of a table
/// that no earlier statement created changes nothing but the owning schema's
/// presence: statement order is tolerated, not an error.
pub open spec fn statement_effect(ss: Seq<SchemaV>, st: StatementV) -> Seq<SchemaV> {
    match st {
        StatementV::CreateSchema(n) => with_schema(ss, n),
        StatementV::CreateTable(t) => update_owner(
            ss,
            t.name,
            |s: SchemaV|
                SchemaV {
                    name: s.name,
                    tables: put_table(s.tables, t),
                    types: put_type(s.types, TypeV::Composite { name: t.name, fields: t.columns }),
                },
        ),
        StatementV::AlterTable { name, operations } => update_owner(
            ss,
            name,
            |s: SchemaV|
                {
                    let ti = first_index(table_names(s.tables), name);
                    if ti < 0 {
                        s
                    } else {
                        let t = s.tables[ti];
                        SchemaV {
                            name: s.name,
                            tables: s.tables.update(
                                ti,
                                TableV {
                                    name: t.name,
                                    columns: t.columns,
                                    constraints: t.constraints + added_constraints(operations),
                                },
                            ),
                            types: s.types,
                        }
                    }
                },
        ),
        StatementV::CreateCompositeType { name, attributes } => update_owner(
            ss,
            name,
            |s: SchemaV|
                SchemaV {
                    name: s.name,
                    tables: s.tables,
                    types: put_type(s.types, TypeV::Composite { name, fields: attributes }),
                },
        ),
        StatementV::CreateEnumType { name, labels } => update_owner(
            ss,
            name,
            |s: SchemaV|
                SchemaV {
                    name: s.name,
                    tables: s.tables,
                    types: put_type(s.types, TypeV::Enum { name, variants: labels }),
                },
        ),
        StatementV::Other => ss,
    }
}

/// The schemas that a sequence of input items builds from nothing, or the
/// first conversion failure among them.
pub open spec fn build_spec(items: Seq<Result<StatementV, Seq<char>>>) -> Result<
    Seq<SchemaV>,
    Seq<char>,
>
    decreases items.len(),
{
    if items.len() == 0 {
        Ok(seq![])
    } else {
        match build_spec(items.drop_last()) {
            Err(e) => Err(e),
            Ok(ss) => match items.last() {
                Err(e) => Err(e),
                Ok(st) => Ok(statement_effect(ss, st)),
            },
        }
    }
}

/// Every object name that a statement resolves to a schema is resolvable.
pub open spec fn statement_resolvable(st: StatementV) -> bool {
    match st {
        StatementV::CreateSchema(_) => true,
        StatementV::CreateTable(t) => resolvable(t.name),
        StatementV::AlterTable { name, .. } => resolvable(name),
        StatementV::CreateCompositeType { name, .. } => resolvable(name),
        StatementV::CreateEnumType { name, .. } => resolvable(name),
        StatementV::Other => true,
    }
}

/// Every statement that the build reaches, before the first failed item, is
/// resolvable.
pub open spec fn reachable_resolvable(items: Seq<Result<StatementV, Seq<char>>>) -> bool {
    forall|i: int|
        0 <= i < items.len() && items[i] is Ok && (forall|j: int| 0 <= j < i ==> items[j] is Ok)
            ==> statement_resolvable(#[trigger] items[i]->Ok_0)
}

fn idents_equal(a: &Vec<String>, b: &Vec<String>) -> (r: bool)
    ensures
        r == (idents(a@) == idents(b@)),
{
    if a.len() != b.len() {
        assert(idents(a@).len() != idents(b@).len());
        return false;
    }
    let mut i: usize = 0;
    while i < a.len()
        invariant
            a.len() == b.len(),
            i <= a.len(),
            forall|j: int| 0 <= j < i ==> a@[j]@ == b@[j]@,
        decreases a.len() - i,
    {
        if a[i] != b[i] {
            assert(idents(a@)[i as int] != idents(b@)[i as int]);
            return false;
        }
        i += 1;
    }
    assert(idents(a@) =~= idents(b@));
    true
}

pub(crate) fn clone_idents(a: &Vec<String>) -> (r: Vec<String>)
    ensures
        idents(r@) == idents(a@),
{
    let mut r: Vec<String> = Vec::new();
    let mut i: usize = 0;
    while i < a.len()
        invariant
            i <= a.len(),
            r@.len() == i,
            forall|j: int| 0 <= j < i ==> r@[j]@ == a@[j]@,
        decreases a.len() - i,
    {
        r.push(a[i].clone());
        i += 1;
    }
    assert(idents(r@) =~= idents(a@));
    r
}

impl ObjectName {
    /// A copy with the same parts.
    pub fn duplicate(&self) -> (r: ObjectName)
        ensures
            r@ == self@,
    {
        ObjectName(clone_idents(&self.0))
    }
}

impl Field {
    /// A copy with the same name and type.
    pub fn duplicate(&self) -> (r: Field)
        ensures
            r@ == self@,
    {
        Field { name: self.name.clone(), data_type: self.data_type.duplicate() }
    }
}

fn clone_fields(a: &Vec<Field>) -> (r: Vec<Field>)
    ensures
        fields_view(r@) == fields_view(a@),
{
    let mut r: Vec<Field> = Vec::new();
    let mut i: usize = 0;
    while i < a.len()
        invariant
            i <= a.len(),
            r@.len() == i,
            forall|j: int| 0 <= j < i ==> r@[j]@ == a@[j]@,
        decreases a.len() - i,
    {
        r.push(a[i].duplicate());
        i += 1;
    }
    assert(fields_view(r@) =~= fields_view(a@));
    r
}

impl Type {
    /// The qualified name of the type.
    pub fn name(&self) -> (r: &ObjectName)
        ensures
            r@ == self@.name(),
    {
        match self {
            Type::Composite { name, .. } => name,
            Type::Enum { name, .. } => name,
        }
    }
}

/// Where the table `name` stands among `tables`, or their count if absent.
fn table_slot(tables: &Vec<Table>, name: &ObjectName) -> (r: usize)
    ensures
        r == (if first_index(table_names(tables_view(tables@)), name@) >= 0 {
            first_index(table_names(tables_view(tables@)), name@)
        } else {
            tables@.len() as int
        }),
{
    let ghost names = table_names(tables_view(tables@));
    let mut i: usize = 0;
    while i < tables.len()
        invariant
            i <= tables.len(),
            names == table_names(tables_view(tables@)),
            forall|j: int| 0 <= j < i ==> names[j] != name@,
        decreases tables.len() - i,
    {
        if idents_equal(&tables[i].name.0, &name.0) {
            proof {
                lemma_first_index_found(names, name@, i as int);
            }
            return i;
        }
        i += 1;
    }
    proof {
        lemma_first_index_absent(names, name@);
    }
    i
}

/// Where the type `name` stands among `types`, or their count if absent.
fn type_slot(types: &Vec<Type>, name: &ObjectName) -> (r: usize)
    ensures
        r == (if first_index(type_names(types_view(types@)), name@) >= 0 {
            first_index(type_names(types_view(types@)), name@)
        } else {
            types@.len() as int
        }),
{
    let ghost names = type_names(types_view(types@));
    let mut i: usize = 0;
    while i < types.len()
        invariant
            i <= types.len(),
            names == type_names(types_view(types@)),
            forall|j: int| 0 <= j < i ==> names[j] != name@,
        decreases types.len() - i,
    {
        if idents_equal(&types[i].name().0, &name.0) {
            proof {
                lemma_first_index_found(names, name@, i as int);
            }
            return i;
        }
        i += 1;
    }
    proof {
        lemma_first_index_absent(names, name@);
    }
    i
}

/// Where the schema `key` stands among `schemas`, or their count if absent.
fn schema_index(schemas: &Vec<Schema>, key: &ObjectName) -> (r: usize)
    ensures
        r == schema_slot(schemas_view(schemas@), key@),
{
    let ghost names = schema_names(schemas_view(schemas@));
    let mut i: usize = 0;
    while i < schemas.len()
        invariant
            i <= schemas.len(),
            names == schema_names(schemas_view(schemas@)),
            forall|j: int| 0 <= j < i ==> names[j] != key@,
        decreases schemas.len() - i,
    {
        if idents_equal(&schemas[i].name.0, &key.0) {
            proof {
                lemma_first_index_found(names, key@, i as int);
            }
            return i;
        }
        i += 1;
    }
    proof {
        lemma_first_index_absent(names, key@);
    }
    i
}

impl Schema {
    /// Inserts a table, replacing one of the same name in place.
    pub fn put_table(&mut self, t: Table)
        ensures
            final(self)@ == (SchemaV {
                name: old(self)@.name,
                tables: put_table(old(self)@.tables, t@),
                types: old(self)@.types,
            }),
    {
        let i = table_slot(&self.tables, &t.name);
        proof {
            lemma_first_index_bounds(table_names(tables_view(self.tables@)), t.name@);
        }
        if i < self.tables.len() {
            self.tables.set(i, t);
        } else {
            self.tables.push(t);
        }
        assert(self@.tables =~= put_table(old(self)@.tables, t@));
    }

    /// Inserts a type, replacing one of the same name in place.
    pub fn put_type(&mut self, t: Type)
        ensures
            final(self)@ == (SchemaV {
                name: old(self)@.name,
                tables: old(self)@.tables,
                types: put_type(old(self)@.types, t@),
            }),
    {
        let i = type_slot(&self.types, t.name());
        proof {
            lemma_first_index_bounds(type_names(types_view(self.types@)), t@.name());
        }
        if i < self.types.len() {
            self.types.set(i, t);
        } else {
            self.types.push(t);
        }
        assert(self@.types =~= put_type(old(self)@.types, t@));
    }
}

/// The index of the schema that owns `object_name`, created first when it is
/// missing.
fn schema_for_object(schemas: &mut Vec<Schema>, object_name: &ObjectName) -> (r: usize)
    requires
        resolvable(object_name@),
    ensures
        schemas_view(final(schemas)@) == with_schema(
            schemas_view(old(schemas)@),
            schema_key(object_name@),
        ),
        r == schema_slot(schemas_view(old(schemas)@), schema_key(object_name@)),
        r < final(schemas)@.len(),
{
    let parts = &object_name.0;
    let mut key: Vec<String> = Vec::new();
    if parts.len() == 1 {
        key.push(String::from_str("public"));
    } else {
        key.push(parts[0].clone());
        if parts.len() == 3 {
            key.push(parts[1].clone());
        }
    }
    let key = ObjectName(key);
    assert(key@ =~= schema_key(object_name@));
    let i = schema_index(schemas, &key);
    proof {
        lemma_first_index_bounds(schema_names(schemas_view(schemas@)), key@);
    }
    if i == schemas.len() {
        let fresh = Schema { name: key, tables: Vec::new(), types: Vec::new() };
        assert(fresh@.tables =~= seq![]);
        assert(fresh@.types =~= seq![]);
        schemas.push(fresh);
        assert(schemas_view(schemas@) =~= with_schema(
            schemas_view(old(schemas)@),
            schema_key(object_name@),
        ));
    }
    i
}

fn add_constraints(cs: &mut Vec<TableConstraint>, operations: Vec<AlterTableOperation>)
    ensures
        constraints_view(final(cs)@) == constraints_view(old(cs)@) + added_constraints(
            operations@.map_values(|o: AlterTableOperation| o@),
        ),
{
    let ghost ops = operations@;
    let ghost ov = operations@.map_values(|o: AlterTableOperation| o@);
    let ghost c0 = constraints_view(cs@);
    for op in it: operations.into_iter()
        invariant
            it.seq() == ops,
            ov == ops.map_values(|o: AlterTableOperation| o@),
            constraints_view(cs@) == c0 + added_constraints(ov.take(it.index())),
    {
        assert(ov.take(it.index() + 1).drop_last() =~= ov.take(it.index()));
        assert(op == ops[it.index()]);
        assert(ov.take(it.index() + 1).last() == op@);
        match op {
            AlterTableOperation::AddConstraint(c) => {
                let ghost before = constraints_view(cs@);
                let ghost cv = c@;
                cs.push(c);
                assert(constraints_view(cs@) =~= before.push(cv));
                assert(added_constraints(ov.take(it.index() + 1)) == added_constraints(
                    ov.take(it.index()),
                ).push(cv));
                assert(constraints_view(cs@) =~= c0 + added_constraints(ov.take(it.index() + 1)));
            },
            AlterTableOperation::Other => {},
        }
    }
    assert(ov.take(ov.len() as int) =~= ov);
}

fn apply_statement(schemas: &mut Vec<Schema>, st: Statement)
    requires
        statement_resolvable(st@),
    ensures
        schemas_view(final(schemas)@) == statement_effect(schemas_view(old(schemas)@), st@),
{
    let ghost sv = st@;
    match st {
        Statement::CreateSchema { schema_name } => {
            let i = schema_index(schemas, &schema_name);
            proof {
                lemma_first_index_bounds(schema_names(schemas_view(schemas@)), schema_name@);
            }
            if i == schemas.len() {
                let fresh = Schema { name: schema_name, tables: Vec::new(), types: Vec::new() };
                assert(fresh@.tables =~= seq![]);
                assert(fresh@.types =~= seq![]);
                schemas.push(fresh);
            }
            assert(schemas_view(schemas@) =~= statement_effect(schemas_view(old(schemas)@), sv));
        },
        Statement::CreateTable { name, columns, constraints } => {
            let i = schema_for_object(schemas, &name);
            let mut s = schemas.remove(i);
            let row_type = Type::Composite { name: name.duplicate(), fields: clone_fields(&columns) };
            s.put_type(row_type);
            s.put_table(Table { name, columns, constraints });
            schemas.insert(i, s);
            assert(schemas_view(schemas@) =~= statement_effect(schemas_view(old(schemas)@), sv));
        },
        Statement::AlterTable { name, operations } => {
            let i = schema_for_object(schemas, &name);
            let mut s = schemas.remove(i);
            let ti = table_slot(&s.tables, &name);
            proof {
                lemma_first_index_bounds(table_names(tables_view(s.tables@)), name@);
            }
            let ghost tables0 = s.tables@;
            if ti < s.tables.len() {
                let mut t = s.tables.remove(ti);
                add_constraints(&mut t.constraints, operations);
                s.tables.insert(ti, t);
                assert(tables_view(s.tables@) =~= tables_view(tables0).update(ti as int, t@));
            }
            schemas.insert(i, s);
            assert(schemas_view(schemas@) =~= statement_effect(schemas_view(old(schemas)@), sv));
        },
        Statement::CreateCompositeType { name, attributes } => {
            let i = schema_for_object(schemas, &name);
            let mut s = schemas.remove(i);
            s.put_type(Type::Composite { name, fields: attributes });
            schemas.insert(i, s);
            assert(schemas_view(schemas@) =~= statement_effect(schemas_view(old(schemas)@), sv));
        },
        Statement::CreateEnumType { name, labels } => {
            let i = schema_for_object(schemas, &name);
            let mut s = schemas.remove(i);
            s.put_type(Type::Enum { name, variants: labels });
            schemas.insert(i, s);
            assert(schemas_view(schemas@) =~= statement_effect(schemas_view(old(schemas)@), sv));
        },
        Statement::Other => {},
    }
}

/// No key occurs twice.
pub open spec fn unique_keys<K>(keys: Seq<K>) -> bool {
    forall|i: int, j: int|
        0 <= i < keys.len() && 0 <= j < keys.len() && i != j ==> keys[i] != keys[j]
}

/// Schema keys are unique, and so are table names and type names within each
/// schema.
pub open spec fn well_keyed(ss: Seq<SchemaV>) -> bool {
    &&& unique_keys(schema_names(ss))
    &&& forall|i: int|
        0 <= i < ss.len() ==> unique_keys(table_names(#[trigger] ss[i].tables)) && unique_keys(
            type_names(ss[i].types),
        )
}

proof fn lemma_first_index_negative<K>(keys: Seq<K>, k: K)
    requires
        first_index(keys, k) < 0,
    ensures
        forall|j: int| 0 <= j < keys.len() ==> keys[j] != k,
    decreases keys.len(),
{
    if keys.len() > 0 {
        lemma_first_index_negative(keys.drop_first(), k);
        assert forall|j: int| 0 <= j < keys.len() implies keys[j] != k by {
            if j > 0 {
                assert(keys[j] == keys.drop_first()[j - 1]);
            }
        }
    }
}

proof fn lemma_unique_upsert<K>(keys: Seq<K>, k: K)
    requires
        unique_keys(keys),
    ensures
        first_index(keys, k) >= 0 ==> keys.update(first_index(keys, k), k) =~= keys,
        first_index(keys, k) < 0 ==> unique_keys(keys.push(k)),
{
    lemma_first_index_bounds(keys, k);
    if first_index(keys, k) < 0 {
        lemma_first_index_negative(keys, k);
    }
}

proof fn lemma_put_table_unique(ts: Seq<TableV>, t: TableV)
    requires
        unique_keys(table_names(ts)),
    ensures
        unique_keys(table_names(put_table(ts, t))),
{
    let names = table_names(ts);
    let i = first_index(names, t.name);
    lemma_unique_upsert(names, t.name);
    lemma_first_index_bounds(names, t.name);
    if i >= 0 {
        assert(table_names(ts.update(i, t)) =~= names.update(i, t.name));
    } else {
        assert(table_names(ts.push(t)) =~= names.push(t.name));
    }
}

proof fn lemma_put_type_unique(ts: Seq<TypeV>, t: TypeV)
    requires
        unique_keys(type_names(ts)),
    ensures
        unique_keys(type_names(put_type(ts, t))),
{
    let names = type_names(ts);
    let i = first_index(names, t.name());
    lemma_unique_upsert(names, t.name());
    lemma_first_index_bounds(names, t.name());
    if i >= 0 {
        assert(type_names(ts.update(i, t)) =~= names.update(i, t.name()));
    } else {
        assert(type_names(ts.push(t)) =~= names.push(t.name()));
    }
}

proof fn lemma_with_schema(ss: Seq<SchemaV>, key: Seq<Seq<char>>)
    requires
        well_keyed(ss),
    ensures
        well_keyed(with_schema(ss, key)),
        0 <= schema_slot(ss, key) < with_schema(ss, key).len(),
        with_schema(ss, key)[schema_slot(ss, key)].name == key,
{
    let names = schema_names(ss);
    lemma_unique_upsert(names, key);
    lemma_first_index_bounds(names, key);
    if first_index(names, key) >= 0 {
        assert(names[first_index(names, key)] == ss[first_index(names, key)].name);
    }
    if first_index(names, key) < 0 {
        let ws = ss.push(empty_schema(key));
        assert(schema_names(ws) =~= names.push(key));
        assert(table_names(empty_schema(key).tables) =~= seq![]);
        assert(type_names(empty_schema(key).types) =~= seq![]);
        assert forall|i: int| 0 <= i < ws.len() implies unique_keys(
            table_names(#[trigger] ws[i].tables),
        ) && unique_keys(type_names(ws[i].types)) by {
            if i < ss.len() {
                assert(ws[i] == ss[i]);
            }
        }
    }
}

proof fn lemma_replace_schema(ws: Seq<SchemaV>, i: int, s: SchemaV)
    requires
        well_keyed(ws),
        0 <= i < ws.len(),
        s.name == ws[i].name,
        unique_keys(table_names(s.tables)),
        unique_keys(type_names(s.types)),
    ensures
        well_keyed(ws.update(i, s)),
{
    let us = ws.update(i, s);
    assert(schema_names(us) =~= schema_names(ws));
    assert forall|j: int| 0 <= j < us.len() implies unique_keys(
        table_names(#[trigger] us[j].tables),
    ) && unique_keys(type_names(us[j].types)) by {
        if j != i {
            assert(us[j] == ws[j]);
        }
    }
}

proof fn lemma_statement_effect_well_keyed(ss: Seq<SchemaV>, st: StatementV)
    requires
        well_keyed(ss),
    ensures
        well_keyed(statement_effect(ss, st)),
{
    match st {
        StatementV::CreateSchema(n) => {
            lemma_with_schema(ss, n);
        },
        StatementV::CreateTable(t) => {
            let key = schema_key(t.name);
            lemma_with_schema(ss, key);
            let ws = with_schema(ss, key);
            let i = schema_slot(ss, key);
            let s = ws[i];
            lemma_put_table_unique(s.tables, t);
            lemma_put_type_unique(s.types, TypeV::Composite { name: t.name, fields: t.columns });
            lemma_replace_schema(
                ws,
                i,
                SchemaV {
                    name: s.name,
                    tables: put_table(s.tables, t),
                    types: put_type(s.types, TypeV::Composite { name: t.name, fields: t.columns }),
                },
            );
        },
        StatementV::AlterTable { name, operations } => {
            let key = schema_key(name);
            lemma_with_schema(ss, key);
            let ws = with_schema(ss, key);
            let i = schema_slot(ss, key);
            let s = ws[i];
            let ti = first_index(table_names(s.tables), name);
            lemma_first_index_bounds(table_names(s.tables), name);
            if ti >= 0 {
                let t = s.tables[ti];
                let nt = TableV {
                    name: t.name,
                    columns: t.columns,
                    constraints: t.constraints + added_constraints(operations),
                };
                assert(table_names(s.tables.update(ti, nt)) =~= table_names(s.tables));
                lemma_replace_schema(
                    ws,
                    i,
                    SchemaV { name: s.name, tables: s.tables.update(ti, nt), types: s.types },
                );
            } else {
                lemma_replace_schema(ws, i, s);
                assert(ws.update(i, s) =~= ws);
            }
        },
        StatementV::CreateCompositeType { name, attributes } => {
            let key = schema_key(name);
            lemma_with_schema(ss, key);
            let ws = with_schema(ss, key);
            let i = schema_slot(ss, key);
            let s = ws[i];
            let ty = TypeV::Composite { name, fields: attributes };
            lemma_put_type_unique(s.types, ty);
            lemma_replace_schema(
                ws,
                i,
                SchemaV { name: s.name, tables: s.tables, types: put_type(s.types, ty) },
            );
        },
        StatementV::CreateEnumType { name, labels } => {
            let key = schema_key(name);
            lemma_with_schema(ss, key);
            let ws = with_schema(ss, key);
            let i = schema_slot(ss, key);
            let s = ws[i];
            let ty = TypeV::Enum { name, variants: labels };
            lemma_put_type_unique(s.types, ty);
            lemma_replace_schema(
                ws,
                i,
                SchemaV { name: s.name, tables: s.tables, types: put_type(s.types, ty) },
            );
        },
        StatementV::Other => {},
    }
}

/// Every build that succeeds keeps schema keys unique, and table names and
/// type names unique within each schema.
pub proof fn lemma_build_well_keyed(items: Seq<Result<StatementV, Seq<char>>>)
    requires
        build_spec(items) is Ok,
    ensures
        well_keyed(build_spec(items)->Ok_0),
    decreases items.len(),
{
    if items.len() == 0 {
        assert(schema_names(seq![]) =~= seq![]);
    } else {
        lemma_build_well_keyed(items.drop_last());
        lemma_statement_effect_well_keyed(
            build_spec(items.drop_last())->Ok_0,
            items.last()->Ok_0,
        );
    }
}

proof fn lemma_build_error_persists(items: Seq<Result<StatementV, Seq<char>>>, k: int)
    requires
        0 <= k <= items.len(),
        build_spec(items.take(k)) is Err,
    ensures
        build_spec(items) == build_spec(items.take(k)),
    decreases items.len() - k,
{
    if k == items.len() {
        assert(items.take(k) =~= items);
    } else {
        let prev = items.drop_last();
        assert(prev.take(k) =~= items.take(k));
        lemma_build_error_persists(prev, k);
    }
}

/// The model of what a build returned.
pub open spec fn outcome_view(r: &Result<Vec<Schema>, StatementConversionError>) -> Result<
    Seq<SchemaV>,
    Seq<char>,
> {
    match r {
        Ok(s) => Ok(schemas_view(s@)),
        Err(e) => Err(e.message@),
    }
}

/// Folds a sequence of DDL statements into schemas, in order. An item that
/// could not be converted into a statement aborts the build with its error.
pub fn parse_sql_schema(statements: Vec<Result<Statement, StatementConversionError>>) -> (r: Result<
    Vec<Schema>,
    StatementConversionError,
>)
    requires
        reachable_resolvable(items_view(statements@)),
    ensures
        outcome_view(&r) == build_spec(items_view(statements@)),
        r is Ok ==> well_keyed(schemas_view(r->Ok_0@)),
{
    let ghost all = statements@;
    let ghost items = items_view(statements@);
    let mut schemas: Vec<Schema> = Vec::new();
    assert(items.take(0) =~= seq![]);
    assert(schemas_view(schemas@) =~= seq![]);
    for item in it: statements.into_iter()
        invariant
            it.seq() == all,
            items == items_view(all),
            reachable_resolvable(items),
            build_spec(items.take(it.index())) == Ok::<Seq<SchemaV>, Seq<char>>(
                schemas_view(schemas@),
            ),
            forall|j: int| 0 <= j < it.index() ==> items[j] is Ok,
    {
        let ghost k = it.index();
        assert(items.take(k + 1).drop_last() =~= items.take(k));
        assert(item == all[k]);
        assert(items.take(k + 1).last() == items[k]);
        match item {
            Err(e) => {
                proof {
                    lemma_build_error_persists(items, k + 1);
                }
                return Err(e);
            },
            Ok(st) => {
                assert(statement_resolvable(items[k]->Ok_0));
                apply_statement(&mut schemas, st);
            },
        }
    }
    assert(items.take(items.len() as int) =~= items);
    proof {
        lemma_build_well_keyed(items);
    }
    Ok(schemas)
}

/// Building is deterministic: two builds from inputs with the same statements
/// and the same failures give structurally identical schemas, or the same error.
pub proof fn lemma_build_deterministic(
    first_input: Seq<Result<Statement, StatementConversionError>>,
    second_input: Seq<Result<Statement, StatementConversionError>>,
    first: Result<Vec<Schema>, StatementConversionError>,
    second: Result<Vec<Schema>, StatementConversionError>,
)
    requires
        items_view(first_input) == items_view(second_input),
        outcome_view(&first) == build_spec(items_view(first_input)),
        outcome_view(&second) == build_spec(items_view(second_input)),
    ensures
        outcome_view(&first) == outcome_view(&second),
{
}

/// Whether every object name that the statement resolves to a schema has one
/// to three parts.
pub fn is_resolvable(statement: &Statement) -> (r: bool)
    ensures
        r == statement_resolvable(statement@),
{
    match statement {
        Statement::CreateSchema { .. } => true,
        Statement::CreateTable { name, .. } => 1 <= name.0.len() && name.0.len() <= 3,
        Statement::AlterTable { name, .. } => 1 <= name.0.len() && name.0.len() <= 3,
        Statement::CreateCompositeType { name, .. } => 1 <= name.0.len() && name.0.len() <= 3,
        Statement::CreateEnumType { name, .. } => 1 <= name.0.len() && name.0.len() <= 3,
        Statement::Other => true,
    }
}

} // verus!
