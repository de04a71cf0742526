//! What generated code expects of a database client.
use tokio_postgres::{Client as PgClient, Error as PgError, Row as PgRow, Statement as PgStatement};
use vstd::prelude::*;

verus! {

/// Marker for the family of value types a database understands.
pub trait DbTraits {
}

/// The capabilities of an asynchronous database client, as types only.
pub trait Client {
    type Traits: DbTraits;

    type PrepareError;

    type PreparedStatement;

    type Rows;

    type Row;

    type RowReadColumnError;

    type QueryError;

    type InsertOutcome;

    type InsertError;

    type UpdateOutcome;

    type UpdateError;

    type DeleteOutcome;

    type DeleteError;
}

/// A domain identifier that wraps a raw column value.
pub trait Id: Copy + Eq {
    type Underlying;

    fn to_underlying(self) -> Self::Underlying;

    fn from_underlying(underlying: Self::Underlying) -> Self;
}

/// The value types of PostgreSQL.
pub struct PostgresTypesTraits;

impl DbTraits for PostgresTypesTraits {
}

/// The client of `tokio_postgres`, named as a type only.
#[verifier::external_type_specification]
#[verifier::external_body]
pub struct ExPostgresClient(PgClient);

/// The error type of `tokio_postgres`, named as a type only.
#[verifier::external_type_specification]
#[verifier::external_body]
pub struct ExPostgresError(PgError);

/// The prepared statement of `tokio_postgres`, named as a type only.
#[verifier::external_type_specification]
#[verifier::external_body]
pub struct ExPostgresStatement(PgStatement);

/// The result row of `tokio_postgres`, named as a type only.
#[verifier::external_type_specification]
#[verifier::external_body]
pub struct ExPostgresRow(PgRow);

/// What `tokio_postgres::Client` offers generated code.
impl Client for PgClient {
    type Traits = PostgresTypesTraits;

    type PrepareError = PgError;

    type PreparedStatement = PgStatement;

    type Rows = Vec<PgRow>;

    type Row = PgRow;

    type RowReadColumnError = PgError;

    type QueryError = PgError;

    type InsertOutcome = u64;

    type InsertError = PgError;

    type UpdateOutcome = u64;

    type UpdateError = PgError;

    type DeleteOutcome = u64;

    type DeleteError = PgError;
}

} // verus!
