use rasql::data_type::DataType;
use rasql::sql::{
    is_resolvable, parse_sql_schema, AlterTableOperation, ConstraintKind, Field, ObjectName, Schema, Statement,
    StatementConversionError, TableConstraint, Type,
};

fn name(parts: &[&str]) -> ObjectName {
    ObjectName(parts.iter().map(|p| p.to_string()).collect())
}

fn col(n: &str, t: DataType) -> Field {
    Field { name: n.to_string(), data_type: t }
}

fn find<'a>(schemas: &'a [Schema], key: &[&str]) -> Option<&'a Schema> {
    schemas.iter().find(|s| s.name.0 == key.iter().map(|p| p.to_string()).collect::<Vec<_>>())
}

fn orders_statements() -> Vec<Result<Statement, StatementConversionError>> {
    vec![
        Ok(Statement::CreateSchema { schema_name: name(&["app"]) }),
        Ok(Statement::CreateTable {
            name: name(&["app", "orders"]),
            columns: vec![col("id", DataType::Int8), col("total", DataType::Float8)],
            constraints: vec![],
        }),
    ]
}

#[test]
fn schema_and_qualified_table() {
    let schemas = parse_sql_schema(orders_statements()).unwrap();
    assert_eq!(schemas.len(), 1);
    let app = find(&schemas, &["app"]).unwrap();
    assert_eq!(app.tables.len(), 1);
    let t = &app.tables[0];
    assert_eq!(t.name.0, vec!["app".to_string(), "orders".to_string()]);
    assert_eq!(t.columns.len(), 2);
    assert_eq!(t.columns[0].name, "id");
    assert_eq!(t.columns[0].data_type, DataType::Int8);
    assert_eq!(t.columns[1].name, "total");
    assert_eq!(t.columns[1].data_type, DataType::Float8);
    // the row type mirrors the table's columns
    assert_eq!(app.types.len(), 1);
    match &app.types[0] {
        Type::Composite { name, fields } => {
            assert_eq!(name.0, vec!["app".to_string(), "orders".to_string()]);
            assert_eq!(fields.len(), 2);
            assert_eq!(fields[1].name, "total");
        }
        Type::Enum { .. } => panic!("expected a composite row type"),
    }
}

#[test]
fn alter_of_unknown_table_is_skipped() {
    let stmts = vec![Ok(Statement::AlterTable {
        name: name(&["ghost"]),
        operations: vec![AlterTableOperation::AddConstraint(TableConstraint {
            name: Some("ghost_pk".to_string()),
            kind: ConstraintKind::PrimaryKey { columns: vec!["id".to_string()] },
        })],
    })];
    let schemas = parse_sql_schema(stmts).unwrap();
    assert!(schemas.iter().all(|s| s.tables.iter().all(|t| t.name.0 != vec!["ghost".to_string()])));
    let public = find(&schemas, &["public"]).unwrap();
    assert!(public.tables.is_empty());
}

#[test]
fn alter_adds_constraints_in_order() {
    let stmts = vec![
        Ok(Statement::CreateTable {
            name: name(&["users"]),
            columns: vec![col("id", DataType::Int4), col("email", DataType::Text)],
            constraints: vec![],
        }),
        Ok(Statement::AlterTable {
            name: name(&["users"]),
            operations: vec![
                AlterTableOperation::AddConstraint(TableConstraint {
                    name: Some("users_pk".to_string()),
                    kind: ConstraintKind::PrimaryKey { columns: vec!["id".to_string()] },
                }),
                AlterTableOperation::Other,
                AlterTableOperation::AddConstraint(TableConstraint {
                    name: None,
                    kind: ConstraintKind::Unique { columns: vec!["email".to_string()] },
                }),
            ],
        }),
    ];
    let schemas = parse_sql_schema(stmts).unwrap();
    let public = find(&schemas, &["public"]).unwrap();
    let cs = &public.tables[0].constraints;
    assert_eq!(cs.len(), 2);
    assert_eq!(cs[0].name.as_deref(), Some("users_pk"));
    assert!(matches!(cs[1].kind, ConstraintKind::Unique { .. }));
}

#[test]
fn three_part_names_key_by_catalog_and_schema() {
    let stmts = vec![Ok(Statement::CreateTable {
        name: name(&["db", "sales", "items"]),
        columns: vec![col("sku", DataType::Varchar)],
        constraints: vec![],
    })];
    let schemas = parse_sql_schema(stmts).unwrap();
    assert_eq!(schemas.len(), 1);
    assert_eq!(schemas[0].name.0, vec!["db".to_string(), "sales".to_string()]);
}

#[test]
fn create_table_twice_replaces_in_place() {
    let stmts = vec![
        Ok(Statement::CreateTable {
            name: name(&["t"]),
            columns: vec![col("a", DataType::Int4)],
            constraints: vec![],
        }),
        Ok(Statement::CreateTable {
            name: name(&["u"]),
            columns: vec![],
            constraints: vec![],
        }),
        Ok(Statement::CreateTable {
            name: name(&["t"]),
            columns: vec![col("b", DataType::Text), col("c", DataType::Text)],
            constraints: vec![],
        }),
    ];
    let schemas = parse_sql_schema(stmts).unwrap();
    let public = find(&schemas, &["public"]).unwrap();
    assert_eq!(public.tables.len(), 2);
    assert_eq!(public.tables[0].name.0, vec!["t".to_string()]);
    assert_eq!(public.tables[0].columns.len(), 2);
    assert_eq!(public.types.len(), 2);
}

#[test]
fn user_defined_types_are_registered() {
    let stmts = vec![
        Ok(Statement::CreateEnumType {
            name: name(&["app", "mood"]),
            labels: vec!["happy".to_string(), "sad".to_string()],
        }),
        Ok(Statement::CreateCompositeType {
            name: name(&["point"]),
            attributes: vec![col("x", DataType::Float8), col("y", DataType::Float8)],
        }),
        Ok(Statement::Other),
    ];
    let schemas = parse_sql_schema(stmts).unwrap();
    let app = find(&schemas, &["app"]).unwrap();
    match &app.types[0] {
        Type::Enum { variants, .. } => assert_eq!(variants, &vec!["happy".to_string(), "sad".to_string()]),
        Type::Composite { .. } => panic!("expected an enum"),
    }
    let public = find(&schemas, &["public"]).unwrap();
    assert!(matches!(&public.types[0], Type::Composite { fields, .. } if fields.len() == 2));
}

#[test]
fn create_schema_is_idempotent() {
    let stmts = vec![
        Ok(Statement::CreateSchema { schema_name: name(&["app"]) }),
        Ok(Statement::CreateSchema { schema_name: name(&["app"]) }),
    ];
    let schemas = parse_sql_schema(stmts).unwrap();
    assert_eq!(schemas.len(), 1);
}

#[test]
fn conversion_error_aborts_the_build() {
    let mut stmts = orders_statements();
    stmts.push(Err(StatementConversionError { message: "not a statement".to_string() }));
    stmts.push(Err(StatementConversionError { message: "later".to_string() }));
    let err = parse_sql_schema(stmts).unwrap_err();
    assert_eq!(err.message, "not a statement");
}

#[test]
fn build_is_deterministic() {
    let first = parse_sql_schema(orders_statements()).unwrap();
    let second = parse_sql_schema(orders_statements()).unwrap();
    assert_eq!(format!("{:?}", first), format!("{:?}", second));
}

#[test]
fn resolvable_names() {
    assert!(is_resolvable(&Statement::CreateTable { name: name(&["a", "b", "c"]), columns: vec![], constraints: vec![] }));
    assert!(!is_resolvable(&Statement::CreateTable { name: name(&["a", "b", "c", "d"]), columns: vec![], constraints: vec![] }));
    assert!(!is_resolvable(&Statement::AlterTable { name: name(&[]), operations: vec![] }));
    assert!(is_resolvable(&Statement::CreateSchema { schema_name: name(&[]) }));
}
