//! Rust source text pieces: string literals.
use vstd::prelude::*;
use vstd::string::*;

verus! {

/// Relies on `String::push` appending one character.
pub assume_specification[ std::string::String::push ](s: &mut std::string::String, ch: char)
    ensures
        final(s)@ == old(s)@.push(ch),
;

/// How one character is written inside a Rust string literal.
pub open spec fn escape_char(c: char) -> Seq<char> {
    if c == '"' {
        seq!['\\', '"']
    } else if c == '\\' {
        seq!['\\', '\\']
    } else if c == '\n' {
        seq!['\\', 'n']
    } else if c == '\r' {
        seq!['\\', 'r']
    } else if c == '\t' {
        seq!['\\', 't']
    } else {
        seq![c]
    }
}

/// The body of a Rust string literal whose value is `s`.
pub open spec fn escaped(s: Seq<char>) -> Seq<char>
    decreases s.len(),
{
    if s.len() == 0 {
        seq![]
    } else {
        escaped(s.drop_last()) + escape_char(s.last())
    }
}

/// A Rust string literal, quotes included, whose value is `s`.
pub open spec fn string_literal(s: Seq<char>) -> Seq<char> {
    seq!['"'] + escaped(s) + seq!['"']
}

/// Appends the escaped form of `s` to `out`.
pub fn push_escaped(out: &mut String, s: &str)
    ensures
        final(out)@ == old(out)@ + escaped(s@),
{
    let ghost chars = s@;
    let ghost start = out@;
    let n = s.unicode_len();
    let mut i: usize = 0;
    assert(chars.take(0) =~= seq![]);
    while i < n
        invariant
            n == chars.len(),
            chars == s@,
            i <= n,
            out@ == start + escaped(chars.take(i as int)),
        decreases n - i,
    {
        let c = s.get_char(i);
        assert(chars.take(i + 1).drop_last() =~= chars.take(i as int));
        let ghost before = out@;
        if c == '"' {
            out.push('\\');
            out.push('"');
        } else if c == '\\' {
            out.push('\\');
            out.push('\\');
        } else if c == '\n' {
            out.push('\\');
            out.push('n');
        } else if c == '\r' {
            out.push('\\');
            out.push('r');
        } else if c == '\t' {
            out.push('\\');
            out.push('t');
        } else {
            out.push(c);
        }
        assert(out@ =~= before + escape_char(c));
        assert(out@ =~= start + escaped(chars.take(i + 1)));
        i += 1;
    }
    assert(chars.take(n as int) =~= chars);
}

/// The Rust string literal whose value is `s`.
pub fn string_literal_of(s: &str) -> (r: String)
    ensures
        r@ == string_literal(s@),
{
    let mut r = String::new();
    r.push('"');
    push_escaped(&mut r, s);
    r.push('"');
    assert(r@ =~= string_literal(s@));
    r
}

} // verus!
