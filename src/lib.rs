//! Schema-driven generation of typed database accessors.
//!
//! DDL statements are folded into a schema graph (`sql`); SQL column types
//! (`data_type`) are mapped to Rust type expressions (`type_gen`); records
//! are derived from tables under a configuration overlay (`codegen`, with
//! identifiers from `naming`); and record declarations, client operation
//! templates (`client_gen`) and accessor impls (`table_impls`, with SQL from
//! `sql_text`) are emitted as Rust source text. `traits` names what a
//! database client offers generated code.
pub mod client_gen;
pub mod codegen;
pub mod data_type;
pub mod module_gen;
pub mod naming;
pub mod sql;
pub mod sql_text;
pub mod table_impls;
pub mod text;
pub mod traits;
pub mod type_gen;
