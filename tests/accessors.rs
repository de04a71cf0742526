use rasql::codegen::{
    generate_table_struct_and_impls, CodeGenConfig, GeneratedTableStruct, GenerationError, ModuleCodeGenConfig,
    TableStructImpls,
};
use rasql::module_gen::generate_schema_module;
use rasql::sql::{parse_sql_schema, Schema, Statement};
use rasql::data_type::DataType;
use rasql::sql::{ConstraintKind, Field, ObjectName, Table, TableConstraint};
use rasql::sql_text::{
    decimal_of, delete_by_key_statement, insert_statement, join, select_by_key_statement,
    select_statement, sql_ident_of, update_statement,
};
use rasql::table_impls::{key_positions_of, primary_key_of};
use rasql::traits::PostgresTypesTraits;
use rasql::type_gen::{TokioPostgresGenerator, UnsupportedDataType, UseRustDecimal, UseUuid};

fn strings(v: &[&str]) -> Vec<String> {
    v.iter().map(|s| s.to_string()).collect()
}

fn orders(constraints: Vec<TableConstraint>) -> Table {
    Table {
        name: ObjectName(strings(&["app", "orders"])),
        columns: vec![
            Field { name: "id".to_string(), data_type: DataType::Int8 },
            Field { name: "total".to_string(), data_type: DataType::Float8 },
        ],
        constraints,
    }
}

fn pk(cols: &[&str]) -> TableConstraint {
    TableConstraint { name: None, kind: ConstraintKind::PrimaryKey { columns: strings(cols) } }
}

fn generate(t: &Table) -> Result<(GeneratedTableStruct, TableStructImpls), GenerationError> {
    let g = TokioPostgresGenerator { use_rust_decimal: UseRustDecimal::DontUse, use_uuid: UseUuid::DontUse };
    generate_table_struct_and_impls::<PostgresTypesTraits, TokioPostgresGenerator, tokio_postgres::Client, TokioPostgresGenerator>(&g, t, None)
}

#[test]
fn sql_pieces() {
    assert_eq!(decimal_of(0), "0");
    assert_eq!(decimal_of(7), "7");
    assert_eq!(decimal_of(1203), "1203");
    assert_eq!(sql_ident_of("we\"ird"), "\"we\"\"ird\"");
    assert_eq!(join(&strings(&["a", "b", "c"]), ", "), "a, b, c");
    assert_eq!(join(&vec![], ", "), "");
}

#[test]
fn statements() {
    let cols = strings(&["id", "total"]);
    let table = strings(&["app", "orders"]);
    let keys = strings(&["id"]);
    assert_eq!(select_statement(&cols, &table), "SELECT \"id\", \"total\" FROM \"app\".\"orders\"");
    assert_eq!(insert_statement(&cols, &table), "INSERT INTO \"app\".\"orders\" (\"id\", \"total\") VALUES ($1, $2)");
    assert_eq!(update_statement(&cols, &keys, &table), "UPDATE \"app\".\"orders\" SET \"id\" = $1, \"total\" = $2 WHERE \"id\" = $3");
    assert_eq!(select_by_key_statement(&cols, &keys, &table), "SELECT \"id\", \"total\" FROM \"app\".\"orders\" WHERE \"id\" = $1");
    assert_eq!(delete_by_key_statement(&strings(&["a", "b"]), &table), "DELETE FROM \"app\".\"orders\" WHERE \"a\" = $1 AND \"b\" = $2");
}

#[test]
fn primary_key_lookup() {
    let cs = vec![
        TableConstraint { name: None, kind: ConstraintKind::Unique { columns: strings(&["total"]) } },
        pk(&["id"]),
        pk(&["total"]),
    ];
    assert_eq!(primary_key_of(&cs), Some(&strings(&["id"])));
    assert_eq!(primary_key_of(&vec![]), None);
    let names = strings(&["id", "total"]);
    assert_eq!(key_positions_of(&names, &strings(&["total", "id"])), Ok(vec![1, 0]));
    assert_eq!(key_positions_of(&names, &strings(&["missing"])), Err(0));
    assert_eq!(key_positions_of(&names, &strings(&["id", "gone", "nope"])), Err(1));
}

#[test]
fn table_without_primary_key_has_base_bundle_only() {
    let (record, impls) = generate(&orders(vec![])).unwrap();
    assert!(record.0.contains("struct Orders {\n"));
    assert!(record.0.contains("#[postgres(name = \"app.orders\")]\n"));
    assert!(impls.table_with_pk_impl.is_none());
    let base = impls.base_table_impl;
    assert!(base.starts_with("impl rasql_traits::r#async::Table<tokio_postgres::Client> for Orders {\n"));
    assert!(base.contains("    const SCHEMA: Option<&str> = Some(\"app\");\n"));
    assert!(base.contains("    const NAME: &str = \"orders\";\n"));
    assert!(base.contains("        client.prepare(\"SELECT \\\"id\\\", \\\"total\\\" FROM \\\"app\\\".\\\"orders\\\"\").await\n"));
    assert!(base.contains("        let rows = client.query(select_all_statement, &[]).await?;\n"));
    assert!(base.contains("        rows.iter().map(|row| Ok(Self { id: row.try_get(\"id\")?, total: row.try_get(\"total\")? })).collect()\n"));
    assert!(base.contains("        client.execute(insert_statement, &[&self.id, &self.total, ]).await\n"));
    assert!(base.ends_with("    }\n}\n"));
}

#[test]
fn table_with_primary_key_has_both_bundles() {
    let (_, impls) = generate(&orders(vec![pk(&["id"])])).unwrap();
    let keyed = impls.table_with_pk_impl.unwrap();
    assert!(keyed.starts_with("pub struct OrdersKey<'a> { pub id: &'a i64 }\n"));
    assert!(keyed.contains("        Self { id: &row.id }\n"));
    assert!(keyed.contains("    type PrimaryKeyRef<'a> = OrdersKey<'a> where Self: 'a;\n"));
    assert!(keyed.contains("        client.execute(update_statement, &[&self.id, &self.total, &self.id, ]).await\n"));
    assert!(keyed.contains("        let row = client.query_opt(select_by_pk_statement, &[pk.id, ]).await?;\n"));
    assert!(keyed.contains("        client.execute(delete_by_pk_statement, &[pk.id, ]).await\n"));
    assert!(keyed.contains("DELETE FROM \\\"app\\\".\\\"orders\\\" WHERE \\\"id\\\" = $1"));
}

#[test]
fn primary_key_on_missing_column_is_an_error() {
    assert_eq!(
        generate(&orders(vec![pk(&["id", "nope"])])).unwrap_err(),
        GenerationError::UnknownKeyColumn("nope".to_string())
    );
    let single = Table {
        name: ObjectName(strings(&["t"])),
        columns: vec![Field { name: "id".to_string(), data_type: DataType::Int4 }],
        constraints: vec![pk(&["x"])],
    };
    assert_eq!(generate(&single).unwrap_err(), GenerationError::UnknownKeyColumn("x".to_string()));
}

#[test]
fn unsupported_column_fails_generation() {
    let mut t = orders(vec![]);
    t.columns.push(Field { name: "paid".to_string(), data_type: DataType::Boolean });
    assert_eq!(generate(&t).unwrap_err(), GenerationError::UnsupportedDataType(UnsupportedDataType(DataType::Boolean)));
}

#[test]
fn generation_twice_is_byte_identical() {
    let t = orders(vec![pk(&["id"])]);
    let (r1, i1) = generate(&t).unwrap();
    let (r2, i2) = generate(&t).unwrap();
    assert_eq!(r1.0, r2.0);
    assert_eq!(i1.base_table_impl, i2.base_table_impl);
    assert_eq!(i1.table_with_pk_impl, i2.table_with_pk_impl);
}

fn plain() -> TokioPostgresGenerator {
    TokioPostgresGenerator { use_rust_decimal: UseRustDecimal::DontUse, use_uuid: UseUuid::DontUse }
}

fn module_text(schema: &Schema, config: &CodeGenConfig) -> Result<String, GenerationError> {
    generate_schema_module::<PostgresTypesTraits, TokioPostgresGenerator, tokio_postgres::Client, TokioPostgresGenerator>(&plain(), schema, config)
}

fn config_with_uses(module: &str, uses: &[&str]) -> CodeGenConfig {
    CodeGenConfig {
        module_configs: vec![(
            module.to_string(),
            ModuleCodeGenConfig { use_statements: strings(uses), struct_configs: vec![] },
        )],
    }
}

#[test]
fn orders_scenario_end_to_end() {
    let stmts = vec![
        Ok(Statement::CreateSchema { schema_name: ObjectName(strings(&["app"])) }),
        Ok(Statement::CreateTable {
            name: ObjectName(strings(&["app", "orders"])),
            columns: vec![
                Field { name: "id".to_string(), data_type: DataType::Int8 },
                Field { name: "total".to_string(), data_type: DataType::Float8 },
            ],
            constraints: vec![],
        }),
    ];
    let schemas = parse_sql_schema(stmts).unwrap();
    let app = &schemas[0];
    assert_eq!(app.name.0, strings(&["app"]));
    let (record, _) = generate(&app.tables[0]).unwrap();
    assert!(record.0.contains("struct Orders {\n    id: i64,\n    total: f64,\n}\n"));
}

#[test]
fn module_holds_uses_and_tables_in_order() {
    let schema = Schema {
        name: ObjectName(strings(&["app"])),
        tables: vec![orders(vec![pk(&["id"])])],
        types: vec![],
    };
    let config = config_with_uses("app", &["use tokio_postgres::types::{FromSql, ToSql};"]);
    let text = module_text(&schema, &config).unwrap();
    assert!(text.starts_with("pub mod app {\nuse tokio_postgres::types::{FromSql, ToSql};\n#[derive(ToSql, FromSql)]\n"));
    let (record, impls) = generate(&schema.tables[0]).unwrap();
    let expected = format!(
        "pub mod app {{\nuse tokio_postgres::types::{{FromSql, ToSql}};\n{}{}{}}}\n",
        record.0,
        impls.base_table_impl,
        impls.table_with_pk_impl.unwrap()
    );
    assert_eq!(text, expected);
    assert_eq!(module_text(&schema, &config).unwrap(), text);
}

#[test]
fn module_without_overlay_and_failing_table() {
    let mut bad = orders(vec![]);
    bad.columns.push(Field { name: "at".to_string(), data_type: DataType::Timestamp });
    let schema = Schema { name: ObjectName(strings(&["Sales"])), tables: vec![orders(vec![]), bad], types: vec![] };
    let config = config_with_uses("other", &["use x;"]);
    assert_eq!(module_text(&schema, &config).unwrap_err(), GenerationError::UnsupportedDataType(UnsupportedDataType(DataType::Timestamp)));
    let unnamed = Schema { name: ObjectName(strings(&["_"])), tables: vec![], types: vec![] };
    assert_eq!(module_text(&unnamed, &config).unwrap_err(), GenerationError::EmptyName("_".to_string()));
    let empty = Schema { name: ObjectName(strings(&["Sales"])), tables: vec![], types: vec![] };
    assert_eq!(module_text(&empty, &config).unwrap(), "pub mod sales {\n}\n");
}

#[test]
fn module_config_lookup() {
    let config = config_with_uses("app", &["use a;"]);
    assert!(config.module_config(&"app".to_string()).is_some());
    assert!(config.module_config(&"web".to_string()).is_none());
}
