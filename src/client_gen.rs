//! Source templates for the operations of an asynchronous database client.
use crate::sql::idents;
use crate::traits::Client;
use crate::type_gen::TokioPostgresGenerator;
use tokio_postgres::Client as PgClient;
use vstd::prelude::*;
use vstd::string::*;

verus! {

/// A parameter list: a slice of references, each item followed by a comma.
pub open spec fn params_text(params: Seq<Seq<char>>) -> Seq<char> {
    "&["@ + params_items_text(params) + "]"@
}

pub open spec fn params_items_text(params: Seq<Seq<char>>) -> Seq<char>
    decreases params.len(),
{
    if params.len() == 0 {
        seq![]
    } else {
        params_items_text(params.drop_last()) + params.last() + ", "@
    }
}

/// Emits the expressions through which generated code uses a client of type
/// `C`. Each argument is an expression given as source text.
pub trait AsyncClientCodeGenerator<C: Client> {
    /// The path of the client type in generated code.
    spec fn client_path() -> Seq<char>;

    fn client_type_path() -> (r: String)
        ensures
            r@ == Self::client_path(),
    ;

    spec fn prepare_statement_text(client: Seq<char>, statement_str: Seq<char>) -> Seq<char>;

    /// Uses `client` (a `&C`) to prepare `statement_str` (a `&str`); the
    /// expression evaluates to `Result<C::PreparedStatement, C::PrepareError>`.
    fn generate_prepare_statement(client: &str, statement_str: &str) -> (r: String)
        ensures
            r@ == Self::prepare_statement_text(client@, statement_str@),
    ;

    spec fn query_many_text(
        client: Seq<char>,
        prepared_statement: Seq<char>,
        parameters: Seq<Seq<char>>,
    ) -> Seq<char>;

    /// Runs a prepared statement with parameters; evaluates to
    /// `Result<C::Rows, C::QueryError>`.
    fn generate_query_many_with_statement(
        client: &str,
        prepared_statement: &str,
        parameters: &Vec<String>,
    ) -> (r: String)
        ensures
            r@ == Self::query_many_text(client@, prepared_statement@, idents(parameters@)),
    ;

    spec fn query_one_or_none_text(
        client: Seq<char>,
        prepared_statement: Seq<char>,
        parameters: Seq<Seq<char>>,
    ) -> Seq<char>;

    /// Runs a prepared statement with parameters; evaluates to
    /// `Result<Option<C::Row>, C::QueryError>`.
    fn generate_query_one_or_none_with_statement(
        client: &str,
        prepared_statement: &str,
        parameters: &Vec<String>,
    ) -> (r: String)
        ensures
            r@ == Self::query_one_or_none_text(client@, prepared_statement@, idents(parameters@)),
    ;

    spec fn row_read_column_text(row: Seq<char>, column_name: Seq<char>) -> Seq<char>;

    /// Reads a column of `row` (a `&C::Row`) by name; evaluates to
    /// `Result<T, C::RowReadColumnError>`.
    fn generate_row_read_column(row: &str, column_name: &str) -> (r: String)
        ensures
            r@ == Self::row_read_column_text(row@, column_name@),
    ;

    spec fn insert_text(
        client: Seq<char>,
        prepared_statement: Seq<char>,
        parameters: Seq<Seq<char>>,
    ) -> Seq<char>;

    /// Evaluates to `Result<C::InsertOutcome, C::InsertError>`.
    fn generate_insert_with_statement(
        client: &str,
        prepared_statement: &str,
        parameters: &Vec<String>,
    ) -> (r: String)
        ensures
            r@ == Self::insert_text(client@, prepared_statement@, idents(parameters@)),
    ;

    spec fn update_text(
        client: Seq<char>,
        prepared_statement: Seq<char>,
        parameters: Seq<Seq<char>>,
    ) -> Seq<char>;

    /// Evaluates to `Result<C::UpdateOutcome, C::UpdateError>`.
    fn generate_update_with_statement(
        client: &str,
        prepared_statement: &str,
        parameters: &Vec<String>,
    ) -> (r: String)
        ensures
            r@ == Self::update_text(client@, prepared_statement@, idents(parameters@)),
    ;

    spec fn delete_text(
        client: Seq<char>,
        prepared_statement: Seq<char>,
        parameters: Seq<Seq<char>>,
    ) -> Seq<char>;

    /// Evaluates to `Result<C::DeleteOutcome, C::DeleteError>`.
    fn generate_delete_with_statement(
        client: &str,
        prepared_statement: &str,
        parameters: &Vec<String>,
    ) -> (r: String)
        ensures
            r@ == Self::delete_text(client@, prepared_statement@, idents(parameters@)),
    ;
}

/// `target.method(args)`, awaited.
pub open spec fn awaited_call_text(target: Seq<char>, method: Seq<char>, args: Seq<char>) -> Seq<
    char,
> {
    target + "."@ + method + "("@ + args + ").await"@
}

/// A prepared statement and its parameters as call arguments.
pub open spec fn statement_args_text(prepared_statement: Seq<char>, parameters: Seq<Seq<char>>) -> Seq<
    char,
> {
    prepared_statement + ", "@ + params_text(parameters)
}

/// The shared execution primitive of inserts, updates and deletes.
pub open spec fn execute_text(
    client: Seq<char>,
    prepared_statement: Seq<char>,
    parameters: Seq<Seq<char>>,
) -> Seq<char> {
    awaited_call_text(client, "execute"@, statement_args_text(prepared_statement, parameters))
}

fn push_params(out: &mut String, parameters: &Vec<String>)
    ensures
        final(out)@ == old(out)@ + params_text(idents(parameters@)),
{
    let ghost ps = idents(parameters@);
    let ghost start = out@;
    out.append("&[");
    let mut i: usize = 0;
    assert(ps.take(0) =~= seq![]);
    while i < parameters.len()
        invariant
            i <= parameters.len(),
            ps == idents(parameters@),
            out@ == start + "&["@ + params_items_text(ps.take(i as int)),
        decreases parameters.len() - i,
    {
        assert(ps.take(i + 1).drop_last() =~= ps.take(i as int));
        out.append(parameters[i].as_str());
        out.append(", ");
        i += 1;
    }
    assert(ps.take(parameters.len() as int) =~= ps);
    out.append("]");
    assert(out@ =~= start + params_text(ps));
}

fn statement_call(
    client: &str,
    method: &str,
    prepared_statement: &str,
    parameters: &Vec<String>,
) -> (r: String)
    ensures
        r@ == awaited_call_text(
            client@,
            method@,
            statement_args_text(prepared_statement@, idents(parameters@)),
        ),
{
    let mut r = String::from_str(client);
    r.append(".");
    r.append(method);
    r.append("(");
    r.append(prepared_statement);
    r.append(", ");
    push_params(&mut r, parameters);
    r.append(").await");
    assert(r@ =~= awaited_call_text(
        client@,
        method@,
        statement_args_text(prepared_statement@, idents(parameters@)),
    ));
    r
}

impl TokioPostgresGenerator {
    /// The execution primitive shared by inserts, updates and deletes.
    pub(crate) fn generate_execute(
        client: &str,
        prepared_statement: &str,
        parameters: &Vec<String>,
    ) -> (r: String)
        ensures
            r@ == execute_text(client@, prepared_statement@, idents(parameters@)),
    {
        statement_call(client, "execute", prepared_statement, parameters)
    }
}

impl AsyncClientCodeGenerator<PgClient> for TokioPostgresGenerator {
    open spec fn client_path() -> Seq<char> {
        "tokio_postgres::Client"@
    }

    fn client_type_path() -> (r: String) {
        String::from_str("tokio_postgres::Client")
    }

    open spec fn prepare_statement_text(client: Seq<char>, statement_str: Seq<char>) -> Seq<char> {
        awaited_call_text(client, "prepare"@, statement_str)
    }

    fn generate_prepare_statement(client: &str, statement_str: &str) -> (r: String) {
        let mut r = String::from_str(client);
        r.append(".prepare(");
        r.append(statement_str);
        r.append(").await");
        assert(r@ =~= awaited_call_text(client@, "prepare"@, statement_str@)) by {
            reveal_strlit("prepare");
            reveal_strlit(".prepare(");
            reveal_strlit(".");
            reveal_strlit("(");
        }
        r
    }

    open spec fn query_many_text(
        client: Seq<char>,
        prepared_statement: Seq<char>,
        parameters: Seq<Seq<char>>,
    ) -> Seq<char> {
        awaited_call_text(client, "query"@, statement_args_text(prepared_statement, parameters))
    }

    fn generate_query_many_with_statement(
        client: &str,
        prepared_statement: &str,
        parameters: &Vec<String>,
    ) -> (r: String) {
        statement_call(client, "query", prepared_statement, parameters)
    }

    open spec fn query_one_or_none_text(
        client: Seq<char>,
        prepared_statement: Seq<char>,
        parameters: Seq<Seq<char>>,
    ) -> Seq<char> {
        awaited_call_text(client, "query_opt"@, statement_args_text(prepared_statement, parameters))
    }

    fn generate_query_one_or_none_with_statement(
        client: &str,
        prepared_statement: &str,
        parameters: &Vec<String>,
    ) -> (r: String) {
        statement_call(client, "query_opt", prepared_statement, parameters)
    }

    open spec fn row_read_column_text(row: Seq<char>, column_name: Seq<char>) -> Seq<char> {
        row + ".try_get("@ + column_name + ")"@
    }

    fn generate_row_read_column(row: &str, column_name: &str) -> (r: String) {
        let mut r = String::from_str(row);
        r.append(".try_get(");
        r.append(column_name);
        r.append(")");
        r
    }

    open spec fn insert_text(
        client: Seq<char>,
        prepared_statement: Seq<char>,
        parameters: Seq<Seq<char>>,
    ) -> Seq<char> {
        execute_text(client, prepared_statement, parameters)
    }

    fn generate_insert_with_statement(
        client: &str,
        prepared_statement: &str,
        parameters: &Vec<String>,
    ) -> (r: String) {
        Self::generate_execute(client, prepared_statement, parameters)
    }

    open spec fn update_text(
        client: Seq<char>,
        prepared_statement: Seq<char>,
        parameters: Seq<Seq<char>>,
    ) -> Seq<char> {
        execute_text(client, prepared_statement, parameters)
    }

    fn generate_update_with_statement(
        client: &str,
        prepared_statement: &str,
        parameters: &Vec<String>,
    ) -> (r: String) {
        Self::generate_execute(client, prepared_statement, parameters)
    }

    open spec fn delete_text(
        client: Seq<char>,
        prepared_statement: Seq<char>,
        parameters: Seq<Seq<char>>,
    ) -> Seq<char> {
        execute_text(client, prepared_statement, parameters)
    }

    fn generate_delete_with_statement(
        client: &str,
        prepared_statement: &str,
        parameters: &Vec<String>,
    ) -> (r: String) {
        Self::generate_execute(client, prepared_statement, parameters)
    }
}

} // verus!
