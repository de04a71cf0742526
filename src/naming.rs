//! Rust identifiers derived from SQL identifiers.
use convert_case::{Boundary, Case, Casing};
use vstd::prelude::*;
use vstd::string::*;

verus! {

/// What `convert_case` makes of an identifier in snake case, with digits kept
/// inside the words they touch.
pub uninterp spec fn snake_case_of(s: Seq<char>) -> Seq<char>;

/// What `convert_case` makes of an identifier in Pascal case, with digits kept
/// inside the words they touch.
pub uninterp spec fn pascal_case_of(s: Seq<char>) -> Seq<char>;

/// Relies on `convert_case`'s `to_case(Case::Snake)`, with the digit
/// boundaries removed, being a function of the input text.
#[verifier::external_body]
fn snake_case(s: &str) -> (r: String)
    ensures
        r@ == snake_case_of(s@),
{
    s.without_boundaries(&Boundary::digits()).to_case(Case::Snake)
}

/// Relies on `convert_case`'s `to_case(Case::Pascal)`, with the digit
/// boundaries removed, being a function of the input text.
#[verifier::external_body]
fn pascal_case(s: &str) -> (r: String)
    ensures
        r@ == pascal_case_of(s@),
{
    s.without_boundaries(&Boundary::digits()).to_case(Case::Pascal)
}

pub open spec fn is_ascii_digit(c: char) -> bool {
    '0' <= c && c <= '9'
}

/// A name that starts with a digit gets a leading underscore, so that it
/// stays a valid identifier.
pub open spec fn digit_guarded(s: Seq<char>) -> Seq<char> {
    if s.len() > 0 && is_ascii_digit(s[0]) {
        seq!['_'] + s
    } else {
        s
    }
}

/// The field name derived from a column identifier.
pub open spec fn field_name_of(ident: Seq<char>) -> Seq<char> {
    digit_guarded(snake_case_of(ident))
}

/// The type name derived from a table identifier.
pub open spec fn type_name_of(ident: Seq<char>) -> Seq<char> {
    digit_guarded(pascal_case_of(ident))
}

/// The alias a generated item carries: its SQL name, where the name it
/// was given differs from it.
pub open spec fn alias_for(resolved: Seq<char>, source: Seq<char>) -> Option<Seq<char>> {
    if resolved == source {
        None
    } else {
        Some(source)
    }
}

/// Prefixes an underscore to a name that starts with an ASCII digit.
pub fn guard_leading_digit(name: String) -> (r: String)
    ensures
        r@ == digit_guarded(name@),
{
    if name.as_str().unicode_len() > 0 {
        let c = name.as_str().get_char(0);
        if '0' <= c && c <= '9' {
            proof {
                reveal_strlit("_");
            }
            let mut r = String::from_str("_");
            r.append(name.as_str());
            assert(r@ =~= digit_guarded(name@));
            return r;
        }
    }
    name
}

/// The Rust type name for a SQL identifier, or `None` where its case
/// conversion leaves no characters, which no identifier can be.
pub fn sql_ident_to_type_name(ident: &str) -> (r: Option<String>)
    ensures
        match r {
            Some(n) => n@ == type_name_of(ident@) && n@.len() > 0,
            None => type_name_of(ident@).len() == 0,
        },
{
    non_empty(guard_leading_digit(pascal_case(ident)))
}

/// The Rust field name for a SQL identifier, or `None` where its case
/// conversion leaves no characters.
pub fn sql_ident_to_field_name(ident: &str) -> (r: Option<String>)
    ensures
        match r {
            Some(n) => n@ == field_name_of(ident@) && n@.len() > 0,
            None => field_name_of(ident@).len() == 0,
        },
{
    non_empty(guard_leading_digit(snake_case(ident)))
}

/// The Rust module name for a SQL identifier: the same as a field's.
pub fn sql_ident_to_module_name(ident: &str) -> (r: Option<String>)
    ensures
        match r {
            Some(n) => n@ == field_name_of(ident@) && n@.len() > 0,
            None => field_name_of(ident@).len() == 0,
        },
{
    sql_ident_to_field_name(ident)
}

fn non_empty(name: String) -> (r: Option<String>)
    ensures
        match r {
            Some(n) => n@ == name@ && n@.len() > 0,
            None => name@.len() == 0,
        },
{
    if name.as_str().unicode_len() == 0 {
        None
    } else {
        Some(name)
    }
}

/// The SQL name, where it differs from the name it was given.
pub fn alias_of(resolved: &String, source: &String) -> (r: Option<String>)
    ensures
        match r {
            Some(a) => alias_for(resolved@, source@) == Some(a@),
            None => alias_for(resolved@, source@) is None,
        },
{
    if *resolved == *source {
        None
    } else {
        Some(source.clone())
    }
}

} // verus!
