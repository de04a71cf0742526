//! SQL statement text for the generated accessors, in PostgreSQL's dialect.
use crate::sql::idents;
use vstd::prelude::*;
use vstd::string::*;

verus! {

/// Items separated by `sep`.
pub open spec fn joined(items: Seq<Seq<char>>, sep: Seq<char>) -> Seq<char>
    decreases items.len(),
{
    if items.len() == 0 {
        seq![]
    } else if items.len() == 1 {
        items[0]
    } else {
        joined(items.drop_last(), sep) + sep + items.last()
    }
}

/// Joins strings with a separator.
pub fn join(items: &Vec<String>, sep: &str) -> (r: String)
    ensures
        r@ == joined(idents(items@), sep@),
{
    let ghost its = idents(items@);
    let mut r = String::new();
    let mut i: usize = 0;
    assert(its.take(0) =~= seq![]);
    while i < items.len()
        invariant
            i <= items.len(),
            its == idents(items@),
            r@ == joined(its.take(i as int), sep@),
        decreases items.len() - i,
    {
        assert(its.take(i + 1).drop_last() =~= its.take(i as int));
        if i > 0 {
            r.append(sep);
        }
        r.append(items[i].as_str());
        assert(r@ =~= joined(its.take(i + 1), sep@));
        i += 1;
    }
    assert(its.take(items.len() as int) =~= its);
    r
}

pub open spec fn digit_char(d: nat) -> char {
    "0123456789"@[d as int]
}

/// The decimal digits of `n`.
pub open spec fn decimal(n: nat) -> Seq<char>
    decreases n,
{
    if n < 10 {
        seq![digit_char(n)]
    } else {
        decimal(n / 10) + seq![digit_char(n % 10)]
    }
}

/// The decimal digits of `n`.
pub fn decimal_of(n: usize) -> (r: String)
    ensures
        r@ == decimal(n as nat),
    decreases n,
{
    let digits = "0123456789";
    proof {
        reveal_strlit("0123456789");
    }
    if n < 10 {
        let mut r = String::new();
        r.push(digits.get_char(n));
        assert(r@ =~= decimal(n as nat));
        r
    } else {
        let mut r = decimal_of(n / 10);
        r.push(digits.get_char(n % 10));
        assert(r@ =~= decimal(n as nat));
        r
    }
}

/// An identifier inside SQL double quotes, with quotes doubled.
pub open spec fn sql_escaped(s: Seq<char>) -> Seq<char>
    decreases s.len(),
{
    if s.len() == 0 {
        seq![]
    } else {
        sql_escaped(s.drop_last()) + if s.last() == '"' {
            seq!['"', '"']
        } else {
            seq![s.last()]
        }
    }
}

pub open spec fn sql_ident(s: Seq<char>) -> Seq<char> {
    seq!['"'] + sql_escaped(s) + seq!['"']
}

/// A quoted SQL identifier.
pub fn sql_ident_of(s: &str) -> (r: String)
    ensures
        r@ == sql_ident(s@),
{
    let ghost chars = s@;
    let mut r = String::new();
    r.push('"');
    let n = s.unicode_len();
    let mut i: usize = 0;
    assert(chars.take(0) =~= seq![]);
    while i < n
        invariant
            n == chars.len(),
            chars == s@,
            i <= n,
            r@ == seq!['"'] + sql_escaped(chars.take(i as int)),
        decreases n - i,
    {
        let c = s.get_char(i);
        assert(chars.take(i + 1).drop_last() =~= chars.take(i as int));
        r.push(c);
        if c == '"' {
            r.push('"');
        }
        assert(r@ =~= seq!['"'] + sql_escaped(chars.take(i + 1)));
        i += 1;
    }
    assert(chars.take(n as int) =~= chars);
    r.push('"');
    assert(r@ =~= sql_ident(s@));
    r
}

pub open spec fn quoted_all(names: Seq<Seq<char>>) -> Seq<Seq<char>> {
    names.map_values(|c: Seq<char>| sql_ident(c))
}

fn quote_all(names: &Vec<String>) -> (r: Vec<String>)
    ensures
        idents(r@) == quoted_all(idents(names@)),
{
    let mut r: Vec<String> = Vec::new();
    let mut i: usize = 0;
    while i < names.len()
        invariant
            i <= names.len(),
            r@.len() == i,
            forall|j: int| 0 <= j < i ==> r@[j]@ == sql_ident(names@[j]@),
        decreases names.len() - i,
    {
        r.push(sql_ident_of(names[i].as_str()));
        i += 1;
    }
    assert(idents(r@) =~= quoted_all(idents(names@)));
    r
}

/// A qualified table name, each part quoted.
pub open spec fn sql_table(parts: Seq<Seq<char>>) -> Seq<char> {
    joined(quoted_all(parts), "."@)
}

/// A comma-separated list of quoted column names.
pub open spec fn ident_list(cols: Seq<Seq<char>>) -> Seq<char> {
    joined(quoted_all(cols), ", "@)
}

pub open spec fn placeholder(n: nat) -> Seq<char> {
    "$"@ + decimal(n)
}

/// `$start, $start+1, ...`, `count` of them.
pub open spec fn placeholder_list(start: nat, count: nat) -> Seq<char> {
    joined(Seq::new(count, |i: int| placeholder((start + i) as nat)), ", "@)
}

/// `"col" = $n` for each column, numbered from `start`, separated by `sep`.
pub open spec fn bound_list(cols: Seq<Seq<char>>, start: nat, sep: Seq<char>) -> Seq<char> {
    joined(
        Seq::new(cols.len(), |i: int| sql_ident(cols[i]) + " = "@ + placeholder((start + i) as nat)),
        sep,
    )
}

fn placeholder_of(n: usize) -> (r: String)
    ensures
        r@ == placeholder(n as nat),
{
    let mut r = String::from_str("$");
    let d = decimal_of(n);
    r.append(d.as_str());
    r
}

fn placeholders(start: usize, count: usize) -> (r: String)
    requires
        start + count <= usize::MAX,
    ensures
        r@ == placeholder_list(start as nat, count as nat),
{
    let mut items: Vec<String> = Vec::new();
    let mut i: usize = 0;
    while i < count
        invariant
            start + count <= usize::MAX,
            i <= count,
            items@.len() == i,
            forall|j: int| 0 <= j < i ==> items@[j]@ == placeholder((start + j) as nat),
        decreases count - i,
    {
        items.push(placeholder_of(start + i));
        i += 1;
    }
    assert(idents(items@) =~= Seq::new(count as nat, |i: int| placeholder((start + i) as nat)));
    join(&items, ", ")
}

fn bindings(cols: &Vec<String>, start: usize, sep: &str) -> (r: String)
    requires
        start + cols.len() <= usize::MAX,
    ensures
        r@ == bound_list(idents(cols@), start as nat, sep@),
{
    let ghost cs = idents(cols@);
    let mut items: Vec<String> = Vec::new();
    let mut i: usize = 0;
    while i < cols.len()
        invariant
            start + cols.len() <= usize::MAX,
            cs == idents(cols@),
            i <= cols.len(),
            items@.len() == i,
            forall|j: int|
                0 <= j < i ==> items@[j]@ == sql_ident(cs[j]) + " = "@ + placeholder(
                    (start + j) as nat,
                ),
        decreases cols.len() - i,
    {
        let mut item = sql_ident_of(cols[i].as_str());
        item.append(" = ");
        let p = placeholder_of(start + i);
        item.append(p.as_str());
        items.push(item);
        i += 1;
    }
    assert(idents(items@) =~= Seq::new(
        cs.len(),
        |i: int| sql_ident(cs[i]) + " = "@ + placeholder((start + i) as nat),
    ));
    join(&items, sep)
}

fn table_text(parts: &Vec<String>) -> (r: String)
    ensures
        r@ == sql_table(idents(parts@)),
{
    join(&quote_all(parts), ".")
}

fn column_list(cols: &Vec<String>) -> (r: String)
    ensures
        r@ == ident_list(idents(cols@)),
{
    join(&quote_all(cols), ", ")
}

pub open spec fn select_sql(cols: Seq<Seq<char>>, table: Seq<Seq<char>>) -> Seq<char> {
    "SELECT "@ + ident_list(cols) + " FROM "@ + sql_table(table)
}

pub open spec fn insert_sql(cols: Seq<Seq<char>>, table: Seq<Seq<char>>) -> Seq<char> {
    "INSERT INTO "@ + sql_table(table) + " ("@ + ident_list(cols) + ") VALUES ("@
        + placeholder_list(1, cols.len()) + ")"@
}

pub open spec fn update_sql(
    cols: Seq<Seq<char>>,
    keys: Seq<Seq<char>>,
    table: Seq<Seq<char>>,
) -> Seq<char> {
    "UPDATE "@ + sql_table(table) + " SET "@ + bound_list(cols, 1, ", "@) + " WHERE "@
        + bound_list(keys, (cols.len() + 1) as nat, " AND "@)
}

pub open spec fn select_by_key_sql(
    cols: Seq<Seq<char>>,
    keys: Seq<Seq<char>>,
    table: Seq<Seq<char>>,
) -> Seq<char> {
    select_sql(cols, table) + " WHERE "@ + bound_list(keys, 1, " AND "@)
}

pub open spec fn delete_by_key_sql(keys: Seq<Seq<char>>, table: Seq<Seq<char>>) -> Seq<char> {
    "DELETE FROM "@ + sql_table(table) + " WHERE "@ + bound_list(keys, 1, " AND "@)
}

/// `SELECT` of every column.
pub fn select_statement(cols: &Vec<String>, table: &Vec<String>) -> (r: String)
    ensures
        r@ == select_sql(idents(cols@), idents(table@)),
{
    let mut r = String::from_str("SELECT ");
    r.append(column_list(cols).as_str());
    r.append(" FROM ");
    r.append(table_text(table).as_str());
    r
}

/// `INSERT` of every column, one placeholder each.
pub fn insert_statement(cols: &Vec<String>, table: &Vec<String>) -> (r: String)
    requires
        cols.len() < usize::MAX,
    ensures
        r@ == insert_sql(idents(cols@), idents(table@)),
{
    let mut r = String::from_str("INSERT INTO ");
    r.append(table_text(table).as_str());
    r.append(" (");
    r.append(column_list(cols).as_str());
    r.append(") VALUES (");
    r.append(placeholders(1, cols.len()).as_str());
    r.append(")");
    r
}

/// `UPDATE` of every column of the row that the key columns select.
pub fn update_statement(cols: &Vec<String>, keys: &Vec<String>, table: &Vec<String>) -> (r: String)
    requires
        cols.len() + keys.len() < usize::MAX,
    ensures
        r@ == update_sql(idents(cols@), idents(keys@), idents(table@)),
{
    let mut r = String::from_str("UPDATE ");
    r.append(table_text(table).as_str());
    r.append(" SET ");
    r.append(bindings(cols, 1, ", ").as_str());
    r.append(" WHERE ");
    r.append(bindings(keys, cols.len() + 1, " AND ").as_str());
    r
}

/// `SELECT` of the row that the key columns select.
pub fn select_by_key_statement(cols: &Vec<String>, keys: &Vec<String>, table: &Vec<String>) -> (r:
    String)
    requires
        keys.len() < usize::MAX,
    ensures
        r@ == select_by_key_sql(idents(cols@), idents(keys@), idents(table@)),
{
    let mut r = select_statement(cols, table);
    r.append(" WHERE ");
    r.append(bindings(keys, 1, " AND ").as_str());
    r
}

/// `DELETE` of the row that the key columns select.
pub fn delete_by_key_statement(keys: &Vec<String>, table: &Vec<String>) -> (r: String)
    requires
        keys.len() < usize::MAX,
    ensures
        r@ == delete_by_key_sql(idents(keys@), idents(table@)),
{
    let mut r = String::from_str("DELETE FROM ");
    r.append(table_text(table).as_str());
    r.append(" WHERE ");
    r.append(bindings(keys, 1, " AND ").as_str());
    r
}

} // verus!
