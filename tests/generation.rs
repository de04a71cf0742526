use rasql::client_gen::AsyncClientCodeGenerator;
use rasql::codegen::{
    build_table_struct, GenerationError, IdPromoteMode, ModuleCodeGenConfig, StructCodeGenConfig,
    StructFieldCodeGenConfig, TableStruct,
};
use rasql::data_type::DataType;
use rasql::naming::{
    alias_of, guard_leading_digit, sql_ident_to_field_name, sql_ident_to_module_name,
    sql_ident_to_type_name,
};
use rasql::sql::{Field, ObjectName, Table};
use rasql::text::string_literal_of;
use rasql::traits::PostgresTypesTraits;
use rasql::type_gen::{
    TokioPostgresGenerator, TypeGenerator, UnsupportedDataType, UseRustDecimal, UseUuid,
};

fn plain() -> TokioPostgresGenerator {
    TokioPostgresGenerator { use_rust_decimal: UseRustDecimal::DontUse, use_uuid: UseUuid::DontUse }
}

fn table(parts: &[&str], cols: Vec<(&str, DataType)>) -> Table {
    Table {
        name: ObjectName(parts.iter().map(|p| p.to_string()).collect()),
        columns: cols
            .into_iter()
            .map(|(n, t)| Field { name: n.to_string(), data_type: t })
            .collect(),
        constraints: vec![],
    }
}

fn field_config(rename: Option<&str>, override_type: Option<&str>, mode: IdPromoteMode) -> StructFieldCodeGenConfig {
    StructFieldCodeGenConfig {
        rename: rename.map(|s| s.to_string()),
        override_type: override_type.map(|s| s.to_string()),
        attrs: vec![],
        id_promote_mode: mode,
    }
}

fn module(record: &str, fields: Vec<(&str, StructFieldCodeGenConfig)>) -> ModuleCodeGenConfig {
    ModuleCodeGenConfig {
        use_statements: vec![],
        struct_configs: vec![(
            record.to_string(),
            StructCodeGenConfig {
                field_configs: fields.into_iter().map(|(k, v)| (k.to_string(), v)).collect(),
                deny_extra_fields: false,
            },
        )],
    }
}

fn build(t: &Table, m: Option<&ModuleCodeGenConfig>) -> Result<TableStruct, GenerationError> {
    build_table_struct::<PostgresTypesTraits, _>(&plain(), t, m)
}

#[test]
fn identifier_conversion() {
    assert_eq!(sql_ident_to_field_name("2fa_enabled").as_deref(), Some("_2fa_enabled"));
    assert_eq!(sql_ident_to_field_name("UserName").as_deref(), Some("user_name"));
    assert_eq!(sql_ident_to_module_name("OrderItems").as_deref(), Some("order_items"));
    assert_eq!(sql_ident_to_type_name("orders").as_deref(), Some("Orders"));
    assert_eq!(sql_ident_to_type_name("order_items").as_deref(), Some("OrderItems"));
    assert_eq!(sql_ident_to_type_name("3d_models").as_deref(), Some("_3dModels"));
}

#[test]
fn overlay_defaults() {
    let d = StructFieldCodeGenConfig::default();
    assert_eq!(d.rename, None);
    assert_eq!(d.override_type, None);
    assert!(d.attrs.is_empty());
    assert_eq!(d.id_promote_mode, IdPromoteMode::NoPromotion);
    assert_eq!(IdPromoteMode::default(), IdPromoteMode::NoPromotion);
}

#[test]
fn empty_conversions_are_refused() {
    assert_eq!(sql_ident_to_type_name(""), None);
    assert_eq!(sql_ident_to_field_name("__"), None);
    assert_eq!(sql_ident_to_module_name(""), None);
    let t = table(&["__"], vec![("id", DataType::Int4)]);
    assert_eq!(build(&t, None).unwrap_err(), GenerationError::EmptyName("__".to_string()));
    let t = table(&["users"], vec![("id", DataType::Int4), ("__", DataType::Int4)]);
    assert_eq!(build(&t, None).unwrap_err(), GenerationError::EmptyName("__".to_string()));
    // a rename gives the field its name, so the column's own conversion does not matter
    let m = module("Users", vec![("__", field_config(Some("flag"), None, IdPromoteMode::NoPromotion))]);
    assert_eq!(build(&t, Some(&m)).unwrap().fields[1].name, "flag");
}

#[test]
fn leading_digit_guard() {
    assert_eq!(guard_leading_digit("9lives".to_string()), "_9lives");
    assert_eq!(guard_leading_digit("lives9".to_string()), "lives9");
    assert_eq!(guard_leading_digit(String::new()), "");
}

#[test]
fn alias_only_when_names_differ() {
    assert_eq!(alias_of(&"id".to_string(), &"id".to_string()), None);
    assert_eq!(alias_of(&"user_id".to_string(), &"UserId".to_string()), Some("UserId".to_string()));
}

#[test]
fn unsupported_column_fails_the_record() {
    let t = table(&["users"], vec![("id", DataType::Int4), ("2fa_enabled", DataType::Boolean)]);
    assert_eq!(build(&t, None).unwrap_err(), GenerationError::UnsupportedDataType(UnsupportedDataType(DataType::Boolean)));
    let only_id = table(&["users"], vec![("id", DataType::Int4)]);
    let s = build(&only_id, None).unwrap();
    assert_eq!(s.fields[0].ty, "i32");
    assert_eq!(s.fields[0].db_alias, None);
    let m = module("Users", vec![("2fa_enabled", field_config(None, Some("bool"), IdPromoteMode::NoPromotion))]);
    let s = build(&t, Some(&m)).unwrap();
    assert_eq!(s.fields[1].name, "_2fa_enabled");
    assert_eq!(s.fields[1].db_alias.as_deref(), Some("2fa_enabled"));
    assert_eq!(s.fields[1].ty, "bool");
}

#[test]
fn qualified_table_record() {
    let t = table(&["app", "orders"], vec![("id", DataType::Int8), ("total", DataType::Float8)]);
    let s = build(&t, None).unwrap();
    assert_eq!(s.name, "Orders");
    assert_eq!(s.db_alias.as_deref(), Some("app.orders"));
    assert_eq!(s.fields.len(), 2);
    assert_eq!(s.fields[0].ty, "i64");
    assert_eq!(s.fields[1].ty, "f64");
    assert_eq!(s.fields[1].name, "total");
    assert_eq!(s.fields[1].db_alias, None);
}

#[test]
fn rename_always_aliases() {
    let t = table(&["Users"], vec![("usr_nm", DataType::Text)]);
    let m = module("Users", vec![("usr_nm", field_config(Some("username"), None, IdPromoteMode::NoPromotion))]);
    let s = build(&t, Some(&m)).unwrap();
    assert_eq!(s.fields[0].name, "username");
    assert_eq!(s.fields[0].db_alias.as_deref(), Some("usr_nm"));
    assert_eq!(s.db_alias, None);
    let same = module("Users", vec![("usr_nm", field_config(Some("usr_nm"), None, IdPromoteMode::NoPromotion))]);
    let s = build(&t, Some(&same)).unwrap();
    assert_eq!(s.fields[0].db_alias.as_deref(), Some("usr_nm"));
}

#[test]
fn overlay_for_other_record_is_ignored() {
    let t = table(&["users"], vec![("usr_nm", DataType::Text)]);
    let m = module("Accounts", vec![("usr_nm", field_config(Some("username"), None, IdPromoteMode::NoPromotion))]);
    let s = build(&t, Some(&m)).unwrap();
    assert_eq!(s.fields[0].name, "usr_nm");
    assert_eq!(s.fields[0].db_alias, None);
}

#[test]
fn identifier_promotion() {
    let t = table(&["orders"], vec![("user_id", DataType::Int8), ("id", DataType::Int8)]);
    let m = module(
        "Orders",
        vec![
            ("user_id", field_config(None, None, IdPromoteMode::Id)),
            ("id", field_config(None, None, IdPromoteMode::TrustedId)),
        ],
    );
    let s = build(&t, Some(&m)).unwrap();
    assert_eq!(s.fields[0].ty, "UserId");
    assert_eq!(s.fields[0].id_bound.as_deref(), Some("rasql_traits::Id<Underlying = i64>"));
    assert_eq!(s.fields[1].ty, "Id");
    assert_eq!(s.fields[1].id_bound.as_deref(), Some("rasql_traits::TrustedId<Underlying = i64>"));
    let decl = TypeGenerator::<PostgresTypesTraits>::generate_table_struct(&plain(), &s);
    assert!(decl.contains("struct Orders where UserId: rasql_traits::Id<Underlying = i64>, Id: rasql_traits::TrustedId<Underlying = i64>, {\n"));
}

#[test]
fn override_beats_promotion() {
    let t = table(&["orders"], vec![("user_id", DataType::Int8)]);
    let m = module("Orders", vec![("user_id", field_config(None, Some("MyId"), IdPromoteMode::Id))]);
    let s = build(&t, Some(&m)).unwrap();
    assert_eq!(s.fields[0].ty, "MyId");
    assert_eq!(s.fields[0].id_bound, None);
}

#[test]
fn record_declaration_text() {
    let t = table(&["Users"], vec![("id", DataType::Int4), ("UserName", DataType::Text)]);
    let mut fc = field_config(None, None, IdPromoteMode::NoPromotion);
    fc.attrs = vec!["#[allow(dead_code)]".to_string()];
    let m = module("Users", vec![("id", fc)]);
    let s = build(&t, Some(&m)).unwrap();
    let decl = TypeGenerator::<PostgresTypesTraits>::generate_table_struct(&plain(), &s);
    assert_eq!(
        decl,
        "#[derive(ToSql, FromSql)]\nstruct Users {\n    #[allow(dead_code)]\n    id: i32,\n    #[postgres(name = \"UserName\")]\n    user_name: String,\n}\n"
    );
}

#[test]
fn generation_is_idempotent() {
    let t = table(&["app", "orders"], vec![("id", DataType::Int8), ("total", DataType::Float8)]);
    let a = TypeGenerator::<PostgresTypesTraits>::generate_table_struct(&plain(), &build(&t, None).unwrap());
    let b = TypeGenerator::<PostgresTypesTraits>::generate_table_struct(&plain(), &build(&t, None).unwrap());
    assert_eq!(a, b);
}

#[test]
fn string_literals_are_escaped() {
    assert_eq!(string_literal_of("a\"b\\c\nd"), "\"a\\\"b\\\\c\\nd\"");
    assert_eq!(string_literal_of(""), "\"\"");
}

#[test]
fn client_templates() {
    type G = TokioPostgresGenerator;
    type C = tokio_postgres::Client;
    let params = vec!["&a".to_string(), "&b".to_string()];
    assert_eq!(<G as AsyncClientCodeGenerator<C>>::generate_prepare_statement("client", "\"SELECT 1\""), "client.prepare(\"SELECT 1\").await");
    assert_eq!(<G as AsyncClientCodeGenerator<C>>::generate_query_many_with_statement("c", "s", &params), "c.query(s, &[&a, &b, ]).await");
    assert_eq!(<G as AsyncClientCodeGenerator<C>>::generate_query_one_or_none_with_statement("c", "s", &vec![]), "c.query_opt(s, &[]).await");
    assert_eq!(<G as AsyncClientCodeGenerator<C>>::generate_row_read_column("row", "\"id\""), "row.try_get(\"id\")");
    let ins = <G as AsyncClientCodeGenerator<C>>::generate_insert_with_statement("c", "s", &params);
    assert_eq!(ins, "c.execute(s, &[&a, &b, ]).await");
    assert_eq!(<G as AsyncClientCodeGenerator<C>>::generate_update_with_statement("c", "s", &params), ins);
    assert_eq!(<G as AsyncClientCodeGenerator<C>>::generate_delete_with_statement("c", "s", &params), ins);
    assert_eq!(<G as AsyncClientCodeGenerator<C>>::client_type_path(), "tokio_postgres::Client");
}
