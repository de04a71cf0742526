//! Source text of a whole module: one per schema.
use crate::client_gen::AsyncClientCodeGenerator;
use crate::codegen::{
    generate_table_struct_and_impls, generation_spec, lookup, module_config_view, numberable,
    CodeGenConfig, GenerationError, GenerationErrorV, ModuleCodeGenConfig, ModuleConfigV,
};
use crate::naming::{field_name_of, sql_ident_to_module_name};
use crate::sql::{idents, tables_view, Schema, SchemaV, Table, TableV};
use crate::traits::{Client, DbTraits};
use crate::type_gen::TypeGenerator;
use vstd::prelude::*;
use vstd::string::*;

verus! {

/// Each item followed by a newline.
pub open spec fn lines_concat(items: Seq<Seq<char>>) -> Seq<char>
    decreases items.len(),
{
    if items.len() == 0 {
        seq![]
    } else {
        lines_concat(items.drop_last()) + items.last() + "\n"@
    }
}

/// The module's `use` items, verbatim.
pub open spec fn uses_text(mc: Option<ModuleConfigV>) -> Seq<char> {
    match mc {
        Some(m) => lines_concat(m.use_statements),
        None => seq![],
    }
}

/// What generation emits for one table: the record, then its impls.
pub open spec fn table_output(g: (Seq<char>, Seq<char>, Option<Seq<char>>)) -> Seq<char> {
    g.0 + g.1 + match g.2 {
        Some(p) => p,
        None => seq![],
    }
}

/// The output for one table, or its failure.
#[verifier::opaque]
pub open spec fn table_text<
    Traits: DbTraits,
    TG: TypeGenerator<Traits>,
    C: Client,
    CG: AsyncClientCodeGenerator<C>,
>(generator: TG, table: TableV, mc: Option<ModuleConfigV>) -> Result<
    Seq<char>,
    GenerationErrorV,
> {
    match generation_spec::<Traits, TG, C, CG>(generator, table, mc) {
        Ok(g) => Ok(table_output(g)),
        Err(e) => Err(e),
    }
}

/// The output for tables in order, or the first failure.
pub open spec fn tables_text<
    Traits: DbTraits,
    TG: TypeGenerator<Traits>,
    C: Client,
    CG: AsyncClientCodeGenerator<C>,
>(generator: TG, tables: Seq<TableV>, mc: Option<ModuleConfigV>) -> Result<
    Seq<char>,
    GenerationErrorV,
>
    decreases tables.len(),
{
    if tables.len() == 0 {
        Ok(seq![])
    } else {
        match tables_text::<Traits, TG, C, CG>(generator, tables.drop_last(), mc) {
            Err(e) => Err(e),
            Ok(prev) => match table_text::<Traits, TG, C, CG>(generator, tables.last(), mc) {
                Err(e) => Err(e),
                Ok(t) => Ok(prev + t),
            },
        }
    }
}

/// The module generated for a schema: named after the schema, holding the
/// `use` items its overlay lists and the output for each table in order.
pub open spec fn module_spec<
    Traits: DbTraits,
    TG: TypeGenerator<Traits>,
    C: Client,
    CG: AsyncClientCodeGenerator<C>,
>(generator: TG, schema: SchemaV, config: Seq<(Seq<char>, ModuleConfigV)>) -> Result<
    Seq<char>,
    GenerationErrorV,
> {
    let m = field_name_of(schema.name.last());
    let mc = lookup(config, m);
    if m.len() == 0 {
        Err(GenerationErrorV::EmptyName(schema.name.last()))
    } else {
        match tables_text::<Traits, TG, C, CG>(generator, schema.tables, mc) {
            Err(e) => Err(e),
            Ok(body) => Ok("pub mod "@ + m + " {\n"@ + uses_text(mc) + body + "}\n"@),
        }
    }
}

proof fn lemma_tables_error_persists<
    Traits: DbTraits,
    TG: TypeGenerator<Traits>,
    C: Client,
    CG: AsyncClientCodeGenerator<C>,
>(generator: TG, tables: Seq<TableV>, mc: Option<ModuleConfigV>, k: int)
    requires
        0 <= k <= tables.len(),
        tables_text::<Traits, TG, C, CG>(generator, tables.take(k), mc) is Err,
    ensures
        tables_text::<Traits, TG, C, CG>(generator, tables, mc) == tables_text::<
            Traits,
            TG,
            C,
            CG,
        >(generator, tables.take(k), mc),
    decreases tables.len() - k,
{
    if k == tables.len() {
        assert(tables.take(k) =~= tables);
    } else {
        let prev = tables.drop_last();
        assert(prev.take(k) =~= tables.take(k));
        lemma_tables_error_persists::<Traits, TG, C, CG>(generator, prev, mc, k);
    }
}

/// The model of a generated module, or of the failure.
pub open spec fn text_result_view(r: Result<String, GenerationError>) -> Result<
    Seq<char>,
    GenerationErrorV,
> {
    match r {
        Ok(s) => Ok(s@),
        Err(e) => Err(e@),
    }
}

fn table_output_of<
    Traits: DbTraits,
    TypeGen: TypeGenerator<Traits>,
    C: Client<Traits = Traits>,
    ClientGen: AsyncClientCodeGenerator<C>,
>(type_gen: &TypeGen, table: &Table, mc: Option<&ModuleCodeGenConfig>) -> (r: Result<
    String,
    GenerationError,
>)
    requires
        table@.name.len() > 0,
        numberable(table@),
    ensures
        text_result_view(r) == table_text::<Traits, TypeGen, C, ClientGen>(
            *type_gen,
            table@,
            module_config_view(mc),
        ),
{
    reveal(table_text);
    match generate_table_struct_and_impls::<Traits, TypeGen, C, ClientGen>(type_gen, table, mc) {
        Err(e) => Err(e),
        Ok((record, impls)) => {
            let mut out = record.0;
            out.append(impls.base_table_impl.as_str());
            match &impls.table_with_pk_impl {
                Some(p) => out.append(p.as_str()),
                None => {},
            }
            proof {
                reveal_strlit("");
            }
            Ok(out)
        },
    }
}

/// Generates the module for a schema under the overlay.
pub fn generate_schema_module<
    Traits: DbTraits,
    TypeGen: TypeGenerator<Traits>,
    C: Client<Traits = Traits>,
    ClientGen: AsyncClientCodeGenerator<C>,
>(type_gen: &TypeGen, schema: &Schema, config: &CodeGenConfig) -> (r: Result<
    String,
    GenerationError,
>)
    requires
        schema@.name.len() > 0,
        forall|i: int|
            0 <= i < schema@.tables.len() ==> (#[trigger] schema@.tables[i]).name.len() > 0
                && numberable(schema@.tables[i]),
    ensures
        text_result_view(r) == module_spec::<Traits, TypeGen, C, ClientGen>(
            *type_gen,
            schema@,
            config@,
        ),
{
    let parts = &schema.name.0;
    let last = &parts[parts.len() - 1];
    let m = match sql_ident_to_module_name(last.as_str()) {
        None => {
            return Err(GenerationError::EmptyName(last.clone()));
        },
        Some(m) => m,
    };
    let mc = config.module_config(&m);
    let ghost mcv = module_config_view(mc);
    assert(schema@.name.last() == parts@[parts.len() - 1]@);
    assert(mcv == lookup(config@, field_name_of(schema@.name.last())));
    let ghost tables = schema@.tables;
    let mut out = String::from_str("pub mod ");
    out.append(m.as_str());
    out.append(" {\n");
    let ghost header = out@;
    match mc {
        Some(c) => {
            let ghost us = idents(c.use_statements@);
            let mut i: usize = 0;
            assert(us.take(0) =~= seq![]);
            while i < c.use_statements.len()
                invariant
                    i <= c.use_statements.len(),
                    us == idents(c.use_statements@),
                    out@ == header + lines_concat(us.take(i as int)),
                decreases c.use_statements.len() - i,
            {
                assert(us.take(i + 1).drop_last() =~= us.take(i as int));
                out.append(c.use_statements[i].as_str());
                out.append("\n");
                i += 1;
            }
            assert(us.take(c.use_statements.len() as int) =~= us);
        },
        None => {},
    }
    let ghost prefix = out@;
    assert(prefix == header + uses_text(mcv));
    let ghost mut body: Seq<char> = seq![];
    let mut i: usize = 0;
    assert(tables.take(0) =~= seq![]);
    while i < schema.tables.len()
        invariant
            i <= schema.tables.len(),
            tables == schema@.tables,
            tables == tables_view(schema.tables@),
            mcv == module_config_view(mc),
            schema@.name.len() > 0,
            field_name_of(schema@.name.last()).len() > 0,
            mcv == lookup(config@, field_name_of(schema@.name.last())),
            forall|i: int|
                0 <= i < tables.len() ==> (#[trigger] tables[i]).name.len() > 0 && numberable(
                    tables[i],
                ),
            tables_text::<Traits, TypeGen, C, ClientGen>(*type_gen, tables.take(i as int), mcv)
                == Ok::<Seq<char>, GenerationErrorV>(body),
            out@ == prefix + body,
        decreases schema.tables.len() - i,
    {
        assert(tables.take(i + 1).drop_last() =~= tables.take(i as int));
        assert(tables.take(i + 1).last() == schema.tables@[i as int]@);
        let table = &schema.tables[i];
        assert(tables[i as int] == table@);
        match table_output_of::<Traits, TypeGen, C, ClientGen>(type_gen, table, mc) {
            Err(e) => {
                proof {
                    lemma_tables_error_persists::<Traits, TypeGen, C, ClientGen>(
                        *type_gen,
                        tables,
                        mcv,
                        i + 1,
                    );
                }
                assert(tables_text::<Traits, TypeGen, C, ClientGen>(*type_gen, tables, mcv) == Err::<
                    Seq<char>,
                    GenerationErrorV,
                >(e@));
                return Err(e);
            },
            Ok(text) => {
                out.append(text.as_str());
                proof {
                    body = body + text@;
                }
            },
        }
        i += 1;
    }
    assert(tables.take(schema.tables.len() as int) =~= tables);
    out.append("}\n");
    Ok(out)
}

/// Generating a schema's module twice under the same overlay yields
/// byte-identical text, or the same error.
pub proof fn lemma_module_generation_idempotent<
    Traits: DbTraits,
    TG: TypeGenerator<Traits>,
    C: Client,
    CG: AsyncClientCodeGenerator<C>,
>(
    generator: TG,
    schema: SchemaV,
    config: Seq<(Seq<char>, ModuleConfigV)>,
    first: Result<String, GenerationError>,
    second: Result<String, GenerationError>,
)
    requires
        text_result_view(first) == module_spec::<Traits, TG, C, CG>(generator, schema, config),
        text_result_view(second) == module_spec::<Traits, TG, C, CG>(generator, schema, config),
    ensures
        text_result_view(first) == text_result_view(second),
{
}

} // verus!
