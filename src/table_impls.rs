//! Source text of the accessor impls of a generated record.
use crate::client_gen::AsyncClientCodeGenerator;
use crate::codegen::{struct_fields_view, TableStruct, TableStructFieldV};
use crate::sql::{
    constraints_view, fields_view, first_index, idents, lemma_first_index_absent,
    lemma_first_index_found, ConstraintKind, ConstraintKindV,
    ConstraintV, Field, FieldV, Table, TableConstraint,
};
use crate::sql_text::{
    delete_by_key_sql, delete_by_key_statement, insert_sql, insert_statement, join, joined,
    select_by_key_sql, select_by_key_statement, select_sql, select_statement, update_sql,
    update_statement,
};
use crate::text::{string_literal, string_literal_of};
use crate::traits::Client;
use vstd::prelude::*;
use vstd::string::*;

verus! {

/// An associated type of the client's capabilities.
pub open spec fn assoc_text(cp: Seq<char>, name: Seq<char>) -> Seq<char> {
    "<"@ + cp + " as rasql_traits::r#async::Client>::"@ + name
}

pub open spec fn column_names(cols: Seq<FieldV>) -> Seq<Seq<char>> {
    cols.map_values(|c: FieldV| c.name)
}

/// The field initialisers that decode a row named `row`.
pub open spec fn decode_text<C: Client, CG: AsyncClientCodeGenerator<C>>(
    fs: Seq<TableStructFieldV>,
    cols: Seq<Seq<char>>,
) -> Seq<char> {
    joined(
        Seq::new(
            fs.len(),
            |i: int|
                fs[i].name + ": "@ + CG::row_read_column_text("row"@, string_literal(cols[i]))
                    + "?"@,
        ),
        ", "@,
    )
}

/// References to every field of `self`.
pub open spec fn self_refs(fs: Seq<TableStructFieldV>) -> Seq<Seq<char>> {
    Seq::new(fs.len(), |i: int| "&self."@ + fs[i].name)
}

/// The fields that the primary key columns map to.
pub open spec fn key_fields(fs: Seq<TableStructFieldV>, pos: Seq<int>) -> Seq<TableStructFieldV> {
    Seq::new(pos.len(), |i: int| fs[pos[i]])
}

/// The schema of a table, where its name has one.
pub open spec fn schema_const_text(table: Seq<Seq<char>>) -> Seq<char> {
    if table.len() > 1 {
        "Some("@ + string_literal(table[table.len() - 2]) + ")"@
    } else {
        "None"@
    }
}

/// The lines of the impl of `Table` for a record.
pub open spec fn base_impl_lines<C: Client, CG: AsyncClientCodeGenerator<C>>(
    ts_name: Seq<char>,
    fs: Seq<TableStructFieldV>,
    cols: Seq<Seq<char>>,
    table: Seq<Seq<char>>,
) -> Seq<Seq<char>> {
    let cp = CG::client_path();
    seq![
        "impl rasql_traits::r#async::Table<"@ + cp + "> for "@ + ts_name + " {"@,
        "    const SCHEMA: Option<&str> = "@ + schema_const_text(table) + ";"@,
        "    const NAME: &str = "@ + string_literal(table.last()) + ";"@,
        "    type SelectAllStatement = "@ + assoc_text(cp, "PreparedStatement"@) + ";"@,
        "    async fn prepare_select_all(client: &"@ + cp
            + ") -> Result<Self::SelectAllStatement, "@ + assoc_text(cp, "PrepareError"@) + "> {"@,
        "        "@ + CG::prepare_statement_text("client"@, string_literal(select_sql(cols, table))),
        "    }"@,
        "    async fn select_all<Container: FromIterator<Self>>(client: &"@ + cp
            + ", select_all_statement: &Self::SelectAllStatement) -> Result<Container, "@
            + assoc_text(cp, "QueryError"@) + "> {"@,
        "        let rows = "@ + CG::query_many_text("client"@, "select_all_statement"@, seq![])
            + "?;"@,
        "        rows.iter().map(|row| Ok(Self { "@ + decode_text::<C, CG>(fs, cols)
            + " })).collect()"@,
        "    }"@,
        "    type InsertStatement = "@ + assoc_text(cp, "PreparedStatement"@) + ";"@,
        "    async fn prepare_insert(client: &"@ + cp + ") -> Result<Self::InsertStatement, "@
            + assoc_text(cp, "PrepareError"@) + "> {"@,
        "        "@ + CG::prepare_statement_text("client"@, string_literal(insert_sql(cols, table))),
        "    }"@,
        "    async fn insert(&self, client: &"@ + cp
            + ", insert_statement: &Self::InsertStatement) -> Result<"@ + assoc_text(
            cp,
            "InsertOutcome"@,
        ) + ", "@ + assoc_text(cp, "InsertError"@) + "> {"@,
        "        "@ + CG::insert_text("client"@, "insert_statement"@, self_refs(fs)),
        "    }"@,
        "}"@,
    ]
}

/// Lines joined, each ended by a newline.
pub open spec fn lines_text(lines: Seq<Seq<char>>) -> Seq<char> {
    joined(lines, "\n"@) + "\n"@
}

fn lines_of(lines: &Vec<String>) -> (r: String)
    ensures
        r@ == lines_text(idents(lines@)),
{
    let mut r = join(lines, "\n");
    r.append("\n");
    r
}

pub(crate) fn column_names_of(cols: &Vec<Field>) -> (r: Vec<String>)
    ensures
        r@.len() == cols@.len(),
        idents(r@) == column_names(fields_view(cols@)),
{
    let mut r: Vec<String> = Vec::new();
    let mut i: usize = 0;
    while i < cols.len()
        invariant
            i <= cols.len(),
            r@.len() == i,
            forall|j: int| 0 <= j < i ==> r@[j]@ == cols@[j].name@,
        decreases cols.len() - i,
    {
        r.push(cols[i].name.clone());
        i += 1;
    }
    assert(idents(r@) =~= column_names(fields_view(cols@)));
    r
}

fn assoc_of(cp: &String, name: &str) -> (r: String)
    ensures
        r@ == assoc_text(cp@, name@),
{
    let mut r = String::from_str("<");
    r.append(cp.as_str());
    r.append(" as rasql_traits::r#async::Client>::");
    r.append(name);
    r
}

fn decode_of<C: Client, CG: AsyncClientCodeGenerator<C>>(
    ts: &TableStruct,
    cols: &Vec<String>,
) -> (r: String)
    requires
        ts.fields.len() == cols.len(),
    ensures
        r@ == decode_text::<C, CG>(struct_fields_view(ts.fields@), idents(cols@)),
{
    let ghost fs = struct_fields_view(ts.fields@);
    let ghost cs = idents(cols@);
    let mut items: Vec<String> = Vec::new();
    let mut i: usize = 0;
    while i < cols.len()
        invariant
            ts.fields.len() == cols.len(),
            fs == struct_fields_view(ts.fields@),
            cs == idents(cols@),
            i <= cols.len(),
            items@.len() == i,
            forall|j: int|
                0 <= j < i ==> items@[j]@ == fs[j].name + ": "@ + CG::row_read_column_text(
                    "row"@,
                    string_literal(cs[j]),
                ) + "?"@,
        decreases cols.len() - i,
    {
        let mut item = ts.fields[i].name.clone();
        item.append(": ");
        let lit = string_literal_of(cols[i].as_str());
        item.append(CG::generate_row_read_column("row", lit.as_str()).as_str());
        item.append("?");
        items.push(item);
        i += 1;
    }
    assert(idents(items@) =~= Seq::new(
        fs.len(),
        |i: int| fs[i].name + ": "@ + CG::row_read_column_text("row"@, string_literal(cs[i])) + "?"@,
    ));
    join(&items, ", ")
}

fn self_refs_of(ts: &TableStruct) -> (r: Vec<String>)
    ensures
        idents(r@) == self_refs(struct_fields_view(ts.fields@)),
{
    let mut r: Vec<String> = Vec::new();
    let mut i: usize = 0;
    while i < ts.fields.len()
        invariant
            i <= ts.fields.len(),
            r@.len() == i,
            forall|j: int| 0 <= j < i ==> r@[j]@ == "&self."@ + ts.fields@[j].name@,
        decreases ts.fields.len() - i,
    {
        let mut item = String::from_str("&self.");
        item.append(ts.fields[i].name.as_str());
        r.push(item);
        i += 1;
    }
    assert(idents(r@) =~= self_refs(struct_fields_view(ts.fields@)));
    r
}

fn schema_const_of(table: &Vec<String>) -> (r: String)
    ensures
        r@ == schema_const_text(idents(table@)),
{
    if table.len() > 1 {
        let mut r = String::from_str("Some(");
        r.append(string_literal_of(table[table.len() - 2].as_str()).as_str());
        r.append(")");
        r
    } else {
        String::from_str("None")
    }
}

/// The impl of `Table` for a record: constants naming the table, and the
/// select-all and insert operations through the client's templates.
pub fn base_table_impl<C: Client, CG: AsyncClientCodeGenerator<C>>(
    table: &Table,
    ts: &TableStruct,
) -> (r: String)
    requires
        ts.fields.len() == table.columns.len(),
        table.name.0.len() > 0,
        table.columns.len() < usize::MAX,
    ensures
        r@ == lines_text(
            base_impl_lines::<C, CG>(
                ts@.name,
                ts@.fields,
                column_names(table@.columns),
                table@.name,
            ),
        ),
{
    let cp = CG::client_type_path();
    let cols = column_names_of(&table.columns);
    let parts = &table.name.0;
    let prepared = assoc_of(&cp, "PreparedStatement");
    let prepare_error = assoc_of(&cp, "PrepareError");
    let mut lines: Vec<String> = Vec::new();

    let mut l = String::from_str("impl rasql_traits::r#async::Table<");
    l.append(cp.as_str());
    l.append("> for ");
    l.append(ts.name.as_str());
    l.append(" {");
    lines.push(l);

    let mut l = String::from_str("    const SCHEMA: Option<&str> = ");
    l.append(schema_const_of(parts).as_str());
    l.append(";");
    lines.push(l);

    let mut l = String::from_str("    const NAME: &str = ");
    l.append(string_literal_of(parts[parts.len() - 1].as_str()).as_str());
    l.append(";");
    lines.push(l);

    let mut l = String::from_str("    type SelectAllStatement = ");
    l.append(prepared.as_str());
    l.append(";");
    lines.push(l);

    let mut l = String::from_str("    async fn prepare_select_all(client: &");
    l.append(cp.as_str());
    l.append(") -> Result<Self::SelectAllStatement, ");
    l.append(prepare_error.as_str());
    l.append("> {");
    lines.push(l);

    let select = string_literal_of(select_statement(&cols, parts).as_str());
    let mut l = String::from_str("        ");
    l.append(CG::generate_prepare_statement("client", select.as_str()).as_str());
    lines.push(l);

    lines.push(String::from_str("    }"));

    let mut l = String::from_str("    async fn select_all<Container: FromIterator<Self>>(client: &");
    l.append(cp.as_str());
    l.append(", select_all_statement: &Self::SelectAllStatement) -> Result<Container, ");
    l.append(assoc_of(&cp, "QueryError").as_str());
    l.append("> {");
    lines.push(l);

    let no_params: Vec<String> = Vec::new();
    let mut l = String::from_str("        let rows = ");
    l.append(
        CG::generate_query_many_with_statement(
            "client",
            "select_all_statement",
            &no_params,
        ).as_str(),
    );
    l.append("?;");
    lines.push(l);
    assert(idents(no_params@) =~= seq![]);

    let mut l = String::from_str("        rows.iter().map(|row| Ok(Self { ");
    l.append(decode_of::<C, CG>(ts, &cols).as_str());
    l.append(" })).collect()");
    lines.push(l);

    lines.push(String::from_str("    }"));

    let mut l = String::from_str("    type InsertStatement = ");
    l.append(prepared.as_str());
    l.append(";");
    lines.push(l);

    let mut l = String::from_str("    async fn prepare_insert(client: &");
    l.append(cp.as_str());
    l.append(") -> Result<Self::InsertStatement, ");
    l.append(prepare_error.as_str());
    l.append("> {");
    lines.push(l);

    let insert = string_literal_of(insert_statement(&cols, parts).as_str());
    let mut l = String::from_str("        ");
    l.append(CG::generate_prepare_statement("client", insert.as_str()).as_str());
    lines.push(l);

    lines.push(String::from_str("    }"));

    let mut l = String::from_str("    async fn insert(&self, client: &");
    l.append(cp.as_str());
    l.append(", insert_statement: &Self::InsertStatement) -> Result<");
    l.append(assoc_of(&cp, "InsertOutcome").as_str());
    l.append(", ");
    l.append(assoc_of(&cp, "InsertError").as_str());
    l.append("> {");
    lines.push(l);

    let refs = self_refs_of(ts);
    let mut l = String::from_str("        ");
    l.append(CG::generate_insert_with_statement("client", "insert_statement", &refs).as_str());
    lines.push(l);

    lines.push(String::from_str("    }"));
    lines.push(String::from_str("}"));

    assert(idents(lines@) =~= base_impl_lines::<C, CG>(
        ts@.name,
        ts@.fields,
        column_names(table@.columns),
        table@.name,
    ));
    lines_of(&lines)
}

/// The columns of the first primary key constraint, if there is one.
pub open spec fn primary_key_columns(cs: Seq<ConstraintV>) -> Option<Seq<Seq<char>>>
    decreases cs.len(),
{
    if cs.len() == 0 {
        None
    } else {
        match cs[0].kind {
            ConstraintKindV::PrimaryKey(cols) => Some(cols),
            _ => primary_key_columns(cs.drop_first()),
        }
    }
}

/// Every key column names a column of the table.
pub open spec fn key_complete(keys: Seq<Seq<char>>, names: Seq<Seq<char>>) -> bool {
    forall|i: int| 0 <= i < keys.len() ==> first_index(names, #[trigger] keys[i]) >= 0
}

/// Where each key column stands among the table's columns.
pub open spec fn key_positions(keys: Seq<Seq<char>>, names: Seq<Seq<char>>) -> Seq<int> {
    Seq::new(keys.len(), |i: int| first_index(names, keys[i]))
}

/// `pk.field` for each of the given key fields.
pub open spec fn key_refs(kf: Seq<TableStructFieldV>) -> Seq<Seq<char>> {
    Seq::new(kf.len(), |i: int| "pk."@ + kf[i].name)
}

/// The lines of the key type of a record and of its impl of `TableWithPK`.
pub open spec fn pk_impl_lines<C: Client, CG: AsyncClientCodeGenerator<C>>(
    ts_name: Seq<char>,
    fs: Seq<TableStructFieldV>,
    cols: Seq<Seq<char>>,
    table: Seq<Seq<char>>,
    keys: Seq<Seq<char>>,
    pos: Seq<int>,
) -> Seq<Seq<char>> {
    let cp = CG::client_path();
    let kf = key_fields(fs, pos);
    seq![
        "pub struct "@ + ts_name + "Key<'a> { "@ + joined(
            Seq::new(kf.len(), |i: int| "pub "@ + kf[i].name + ": &'a "@ + kf[i].ty),
            ", "@,
        ) + " }"@,
        "impl<'a> From<&'a "@ + ts_name + "> for "@ + ts_name + "Key<'a> {"@,
        "    fn from(row: &'a "@ + ts_name + ") -> Self {"@,
        "        Self { "@ + joined(
            Seq::new(kf.len(), |i: int| kf[i].name + ": &row."@ + kf[i].name),
            ", "@,
        ) + " }"@,
        "    }"@,
        "}"@,
        "impl rasql_traits::r#async::TableWithPK<"@ + cp + "> for "@ + ts_name + " {"@,
        "    type PrimaryKeyRef<'a> = "@ + ts_name + "Key<'a> where Self: 'a;"@,
        "    type UpdateStatement = "@ + assoc_text(cp, "PreparedStatement"@) + ";"@,
        "    async fn prepare_update(client: &"@ + cp + ") -> Result<Self::UpdateStatement, "@
            + assoc_text(cp, "PrepareError"@) + "> {"@,
        "        "@ + CG::prepare_statement_text(
            "client"@,
            string_literal(update_sql(cols, keys, table)),
        ),
        "    }"@,
        "    async fn update(&self, client: &"@ + cp
            + ", update_statement: &Self::UpdateStatement) -> Result<"@ + assoc_text(
            cp,
            "UpdateOutcome"@,
        ) + ", "@ + assoc_text(cp, "UpdateError"@) + "> {"@,
        "        "@ + CG::update_text(
            "client"@,
            "update_statement"@,
            self_refs(fs) + self_refs(kf),
        ),
        "    }"@,
        "    type SelectByPKStatement = "@ + assoc_text(cp, "PreparedStatement"@) + ";"@,
        "    async fn prepare_select_by_pk(client: &"@ + cp
            + ") -> Result<Self::SelectByPKStatement, "@ + assoc_text(cp, "PrepareError"@)
            + "> {"@,
        "        "@ + CG::prepare_statement_text(
            "client"@,
            string_literal(select_by_key_sql(cols, keys, table)),
        ),
        "    }"@,
        "    async fn select_by_pk(client: &"@ + cp
            + ", select_by_pk_statement: &Self::SelectByPKStatement, pk: Self::PrimaryKeyRef<'_>) -> Result<Option<Self>, "@
            + assoc_text(cp, "QueryError"@) + "> {"@,
        "        let row = "@ + CG::query_one_or_none_text(
            "client"@,
            "select_by_pk_statement"@,
            key_refs(kf),
        ) + "?;"@,
        "        row.map(|row| Ok(Self { "@ + decode_text::<C, CG>(fs, cols)
            + " })).transpose()"@,
        "    }"@,
        "    type DeleteByPKStatememt = "@ + assoc_text(cp, "PreparedStatement"@) + ";"@,
        "    async fn prepare_delete_by_pk(client: &"@ + cp
            + ") -> Result<Self::DeleteByPKStatememt, "@ + assoc_text(cp, "PrepareError"@)
            + "> {"@,
        "        "@ + CG::prepare_statement_text(
            "client"@,
            string_literal(delete_by_key_sql(keys, table)),
        ),
        "    }"@,
        "    async fn delete_by_pk(client: &"@ + cp
            + ", delete_by_pk_statement: &Self::DeleteByPKStatememt, pk: Self::PrimaryKeyRef<'_>) -> Result<"@
            + assoc_text(cp, "DeleteOutcome"@) + ", "@ + assoc_text(cp, "DeleteError"@) + "> {"@,
        "        "@ + CG::delete_text("client"@, "delete_by_pk_statement"@, key_refs(kf)),
        "    }"@,
        "}"@,
    ]
}

pub open spec fn positions_view(pos: Seq<usize>) -> Seq<int> {
    pos.map_values(|p: usize| p as int)
}

/// The columns of the first primary key constraint, if there is one.
pub fn primary_key_of(cs: &Vec<TableConstraint>) -> (r: Option<&Vec<String>>)
    ensures
        match r {
            Some(k) => primary_key_columns(constraints_view(cs@)) == Some(idents(k@)),
            None => primary_key_columns(constraints_view(cs@)) is None,
        },
{
    let ghost all = constraints_view(cs@);
    let mut i: usize = 0;
    assert(all.subrange(0, all.len() as int) =~= all);
    while i < cs.len()
        invariant
            i <= cs.len(),
            all == constraints_view(cs@),
            primary_key_columns(all) == primary_key_columns(all.subrange(i as int, all.len() as int)),
        decreases cs.len() - i,
    {
        let ghost rest = all.subrange(i as int, all.len() as int);
        assert(rest.drop_first() =~= all.subrange(i + 1, all.len() as int));
        assert(rest[0] == cs@[i as int]@);
        match &cs[i].kind {
            ConstraintKind::PrimaryKey { columns } => {
                return Some(columns);
            },
            _ => {},
        }
        i += 1;
    }
    assert(all.subrange(i as int, all.len() as int) =~= seq![]);
    None
}

fn position_of(names: &Vec<String>, key: &String) -> (r: Option<usize>)
    ensures
        match r {
            Some(p) => first_index(idents(names@), key@) == p,
            None => first_index(idents(names@), key@) < 0,
        },
{
    let ghost ns = idents(names@);
    let mut i: usize = 0;
    while i < names.len()
        invariant
            i <= names.len(),
            ns == idents(names@),
            forall|j: int| 0 <= j < i ==> ns[j] != key@,
        decreases names.len() - i,
    {
        if names[i] == *key {
            proof {
                lemma_first_index_found(ns, key@, i as int);
            }
            return Some(i);
        }
        i += 1;
    }
    proof {
        lemma_first_index_absent(ns, key@);
    }
    None
}

/// Index of the first key column that names no column of the table; the
/// number of key columns where each names one.
pub open spec fn first_missing(keys: Seq<Seq<char>>, names: Seq<Seq<char>>) -> int
    decreases keys.len(),
{
    if keys.len() == 0 {
        0
    } else if first_index(names, keys[0]) < 0 {
        0
    } else {
        1 + first_missing(keys.drop_first(), names)
    }
}

proof fn lemma_first_missing(keys: Seq<Seq<char>>, names: Seq<Seq<char>>, i: int)
    requires
        0 <= i < keys.len(),
        first_index(names, keys[i]) < 0,
        forall|j: int| 0 <= j < i ==> first_index(names, #[trigger] keys[j]) >= 0,
    ensures
        first_missing(keys, names) == i,
    decreases i,
{
    if i > 0 {
        let rest = keys.drop_first();
        assert(first_index(names, keys[0]) >= 0);
        assert(rest[i - 1] == keys[i]);
        assert forall|j: int| 0 <= j < i - 1 implies first_index(names, #[trigger] rest[j]) >= 0 by {
            assert(rest[j] == keys[j + 1]);
        }
        lemma_first_missing(rest, names, i - 1);
    }
}

/// Where each key column stands among the columns, or the index of the
/// first key column that is not one of them.
pub fn key_positions_of(names: &Vec<String>, keys: &Vec<String>) -> (r: Result<Vec<usize>, usize>)
    ensures
        match r {
            Ok(p) => key_complete(idents(keys@), idents(names@)) && positions_view(p@)
                == key_positions(idents(keys@), idents(names@)),
            Err(i) => !key_complete(idents(keys@), idents(names@)) && i < keys.len() && i
                == first_missing(idents(keys@), idents(names@)),
        },
{
    let ghost ns = idents(names@);
    let ghost ks = idents(keys@);
    let mut r: Vec<usize> = Vec::new();
    let mut i: usize = 0;
    while i < keys.len()
        invariant
            i <= keys.len(),
            ns == idents(names@),
            ks == idents(keys@),
            r@.len() == i,
            forall|j: int| 0 <= j < i ==> first_index(ns, ks[j]) == r@[j] as int,
            forall|j: int| 0 <= j < i ==> first_index(ns, #[trigger] ks[j]) >= 0,
        decreases keys.len() - i,
    {
        match position_of(names, &keys[i]) {
            Some(p) => r.push(p),
            None => {
                assert(first_index(ns, ks[i as int]) < 0);
                proof {
                    lemma_first_missing(ks, ns, i as int);
                }
                return Err(i);
            },
        }
        i += 1;
    }
    assert forall|j: int| 0 <= j < ks.len() implies first_index(ns, #[trigger] ks[j]) >= 0 by {
        assert(first_index(ns, ks[j]) == r@[j] as int);
    }
    assert(positions_view(r@) =~= key_positions(ks, ns));
    Ok(r)
}

fn key_struct_line(ts: &TableStruct, pos: &Vec<usize>) -> (r: String)
    requires
        forall|i: int| 0 <= i < pos.len() ==> pos@[i] < ts.fields.len(),
    ensures
        r@ == "pub struct "@ + ts@.name + "Key<'a> { "@ + joined(
            Seq::new(
                key_fields(ts@.fields, positions_view(pos@)).len(),
                |i: int|
                    "pub "@ + key_fields(ts@.fields, positions_view(pos@))[i].name + ": &'a "@
                        + key_fields(ts@.fields, positions_view(pos@))[i].ty,
            ),
            ", "@,
        ) + " }"@,
{
    let ghost kf = key_fields(ts@.fields, positions_view(pos@));
    let mut items: Vec<String> = Vec::new();
    let mut i: usize = 0;
    while i < pos.len()
        invariant
            forall|i: int| 0 <= i < pos.len() ==> pos@[i] < ts.fields.len(),
            kf == key_fields(ts@.fields, positions_view(pos@)),
            i <= pos.len(),
            items@.len() == i,
            forall|j: int| 0 <= j < i ==> items@[j]@ == "pub "@ + kf[j].name + ": &'a "@ + kf[j].ty,
        decreases pos.len() - i,
    {
        let f = &ts.fields[pos[i]];
        let mut item = String::from_str("pub ");
        item.append(f.name.as_str());
        item.append(": &'a ");
        item.append(f.ty.as_str());
        items.push(item);
        i += 1;
    }
    assert(idents(items@) =~= Seq::new(
        kf.len(),
        |i: int| "pub "@ + kf[i].name + ": &'a "@ + kf[i].ty,
    ));
    let mut r = String::from_str("pub struct ");
    r.append(ts.name.as_str());
    r.append("Key<'a> { ");
    r.append(join(&items, ", ").as_str());
    r.append(" }");
    r
}

fn key_init_line(ts: &TableStruct, pos: &Vec<usize>) -> (r: String)
    requires
        forall|i: int| 0 <= i < pos.len() ==> pos@[i] < ts.fields.len(),
    ensures
        r@ == "        Self { "@ + joined(
            Seq::new(
                key_fields(ts@.fields, positions_view(pos@)).len(),
                |i: int|
                    key_fields(ts@.fields, positions_view(pos@))[i].name + ": &row."@
                        + key_fields(ts@.fields, positions_view(pos@))[i].name,
            ),
            ", "@,
        ) + " }"@,
{
    let ghost kf = key_fields(ts@.fields, positions_view(pos@));
    let mut items: Vec<String> = Vec::new();
    let mut i: usize = 0;
    while i < pos.len()
        invariant
            forall|i: int| 0 <= i < pos.len() ==> pos@[i] < ts.fields.len(),
            kf == key_fields(ts@.fields, positions_view(pos@)),
            i <= pos.len(),
            items@.len() == i,
            forall|j: int| 0 <= j < i ==> items@[j]@ == kf[j].name + ": &row."@ + kf[j].name,
        decreases pos.len() - i,
    {
        let f = &ts.fields[pos[i]];
        let mut item = f.name.clone();
        item.append(": &row.");
        item.append(f.name.as_str());
        items.push(item);
        i += 1;
    }
    assert(idents(items@) =~= Seq::new(kf.len(), |i: int| kf[i].name + ": &row."@ + kf[i].name));
    let mut r = String::from_str("        Self { ");
    r.append(join(&items, ", ").as_str());
    r.append(" }");
    r
}

/// `prefix` followed by each key field's name.
fn key_field_refs(ts: &TableStruct, pos: &Vec<usize>, prefix: &str) -> (r: Vec<String>)
    requires
        forall|i: int| 0 <= i < pos.len() ==> pos@[i] < ts.fields.len(),
    ensures
        idents(r@) == Seq::new(
            pos@.len(),
            |i: int| prefix@ + key_fields(ts@.fields, positions_view(pos@))[i].name,
        ),
{
    let ghost kf = key_fields(ts@.fields, positions_view(pos@));
    let mut items: Vec<String> = Vec::new();
    let mut i: usize = 0;
    while i < pos.len()
        invariant
            forall|i: int| 0 <= i < pos.len() ==> pos@[i] < ts.fields.len(),
            kf == key_fields(ts@.fields, positions_view(pos@)),
            i <= pos.len(),
            items@.len() == i,
            forall|j: int| 0 <= j < i ==> items@[j]@ == prefix@ + kf[j].name,
        decreases pos.len() - i,
    {
        let mut item = String::from_str(prefix);
        item.append(ts.fields[pos[i]].name.as_str());
        items.push(item);
        i += 1;
    }
    assert(idents(items@) =~= Seq::new(pos@.len(), |i: int| prefix@ + kf[i].name));
    items
}

fn append_all(a: &mut Vec<String>, b: Vec<String>)
    ensures
        idents(final(a)@) == idents(old(a)@) + idents(b@),
{
    let ghost added = b@;
    let mut b = b;
    a.append(&mut b);
    assert(idents(a@) =~= idents(old(a)@) + idents(added));
}

/// The key type of a record and its impl of `TableWithPK`: update, select by
/// key and delete by key through the client's templates.
#[verifier::rlimit(100)]
pub fn pk_table_impl<C: Client, CG: AsyncClientCodeGenerator<C>>(
    table: &Table,
    ts: &TableStruct,
    keys: &Vec<String>,
    pos: &Vec<usize>,
) -> (r: String)
    requires
        ts.fields.len() == table.columns.len(),
        keys.len() == pos.len(),
        forall|i: int| 0 <= i < pos.len() ==> pos@[i] < ts.fields.len(),
        table.columns.len() + keys.len() < usize::MAX,
    ensures
        r@ == lines_text(
            pk_impl_lines::<C, CG>(
                ts@.name,
                ts@.fields,
                column_names(table@.columns),
                table@.name,
                idents(keys@),
                positions_view(pos@),
            ),
        ),
{
    let ghost kf = key_fields(ts@.fields, positions_view(pos@));
    let cp = CG::client_type_path();
    let cols = column_names_of(&table.columns);
    let parts = &table.name.0;
    let prepared = assoc_of(&cp, "PreparedStatement");
    let prepare_error = assoc_of(&cp, "PrepareError");
    let mut lines: Vec<String> = Vec::new();

    lines.push(key_struct_line(ts, pos));

    let mut l = String::from_str("impl<'a> From<&'a ");
    l.append(ts.name.as_str());
    l.append("> for ");
    l.append(ts.name.as_str());
    l.append("Key<'a> {");
    lines.push(l);

    let mut l = String::from_str("    fn from(row: &'a ");
    l.append(ts.name.as_str());
    l.append(") -> Self {");
    lines.push(l);

    lines.push(key_init_line(ts, pos));
    lines.push(String::from_str("    }"));
    lines.push(String::from_str("}"));

    let mut l = String::from_str("impl rasql_traits::r#async::TableWithPK<");
    l.append(cp.as_str());
    l.append("> for ");
    l.append(ts.name.as_str());
    l.append(" {");
    lines.push(l);

    let mut l = String::from_str("    type PrimaryKeyRef<'a> = ");
    l.append(ts.name.as_str());
    l.append("Key<'a> where Self: 'a;");
    lines.push(l);

    let mut l = String::from_str("    type UpdateStatement = ");
    l.append(prepared.as_str());
    l.append(";");
    lines.push(l);

    let mut l = String::from_str("    async fn prepare_update(client: &");
    l.append(cp.as_str());
    l.append(") -> Result<Self::UpdateStatement, ");
    l.append(prepare_error.as_str());
    l.append("> {");
    lines.push(l);

    let update = string_literal_of(update_statement(&cols, keys, parts).as_str());
    let mut l = String::from_str("        ");
    l.append(CG::generate_prepare_statement("client", update.as_str()).as_str());
    lines.push(l);

    lines.push(String::from_str("    }"));

    let mut l = String::from_str("    async fn update(&self, client: &");
    l.append(cp.as_str());
    l.append(", update_statement: &Self::UpdateStatement) -> Result<");
    l.append(assoc_of(&cp, "UpdateOutcome").as_str());
    l.append(", ");
    l.append(assoc_of(&cp, "UpdateError").as_str());
    l.append("> {");
    lines.push(l);

    let mut params = self_refs_of(ts);
    append_all(&mut params, key_field_refs(ts, pos, "&self."));
    assert(idents(params@) =~= self_refs(ts@.fields) + self_refs(kf));
    let mut l = String::from_str("        ");
    l.append(CG::generate_update_with_statement("client", "update_statement", &params).as_str());
    lines.push(l);

    lines.push(String::from_str("    }"));

    let mut l = String::from_str("    type SelectByPKStatement = ");
    l.append(prepared.as_str());
    l.append(";");
    lines.push(l);

    let mut l = String::from_str("    async fn prepare_select_by_pk(client: &");
    l.append(cp.as_str());
    l.append(") -> Result<Self::SelectByPKStatement, ");
    l.append(prepare_error.as_str());
    l.append("> {");
    lines.push(l);

    let select = string_literal_of(select_by_key_statement(&cols, keys, parts).as_str());
    let mut l = String::from_str("        ");
    l.append(CG::generate_prepare_statement("client", select.as_str()).as_str());
    lines.push(l);

    lines.push(String::from_str("    }"));

    let mut l = String::from_str("    async fn select_by_pk(client: &");
    l.append(cp.as_str());
    l.append(
        ", select_by_pk_statement: &Self::SelectByPKStatement, pk: Self::PrimaryKeyRef<'_>) -> Result<Option<Self>, ",
    );
    l.append(assoc_of(&cp, "QueryError").as_str());
    l.append("> {");
    lines.push(l);

    let key_args = key_field_refs(ts, pos, "pk.");
    assert(idents(key_args@) =~= key_refs(kf));
    let mut l = String::from_str("        let row = ");
    l.append(
        CG::generate_query_one_or_none_with_statement(
            "client",
            "select_by_pk_statement",
            &key_args,
        ).as_str(),
    );
    l.append("?;");
    lines.push(l);

    let mut l = String::from_str("        row.map(|row| Ok(Self { ");
    l.append(decode_of::<C, CG>(ts, &cols).as_str());
    l.append(" })).transpose()");
    lines.push(l);

    lines.push(String::from_str("    }"));

    let mut l = String::from_str("    type DeleteByPKStatememt = ");
    l.append(prepared.as_str());
    l.append(";");
    lines.push(l);

    let mut l = String::from_str("    async fn prepare_delete_by_pk(client: &");
    l.append(cp.as_str());
    l.append(") -> Result<Self::DeleteByPKStatememt, ");
    l.append(prepare_error.as_str());
    l.append("> {");
    lines.push(l);

    let delete = string_literal_of(delete_by_key_statement(keys, parts).as_str());
    let mut l = String::from_str("        ");
    l.append(CG::generate_prepare_statement("client", delete.as_str()).as_str());
    lines.push(l);

    lines.push(String::from_str("    }"));

    let mut l = String::from_str("    async fn delete_by_pk(client: &");
    l.append(cp.as_str());
    l.append(
        ", delete_by_pk_statement: &Self::DeleteByPKStatememt, pk: Self::PrimaryKeyRef<'_>) -> Result<",
    );
    l.append(assoc_of(&cp, "DeleteOutcome").as_str());
    l.append(", ");
    l.append(assoc_of(&cp, "DeleteError").as_str());
    l.append("> {");
    lines.push(l);

    let mut l = String::from_str("        ");
    l.append(
        CG::generate_delete_with_statement("client", "delete_by_pk_statement", &key_args).as_str(),
    );
    lines.push(l);

    lines.push(String::from_str("    }"));
    lines.push(String::from_str("}"));

    assert(idents(lines@) =~= pk_impl_lines::<C, CG>(
        ts@.name,
        ts@.fields,
        column_names(table@.columns),
        table@.name,
        idents(keys@),
        positions_view(pos@),
    ));
    lines_of(&lines)
}

} // verus!
