//! Rendering catalog text as JSON string literals.
//!
//! JSON strings quote their contents and escape the quote, the backslash
//! and every control character. The spec functions here say exactly which
//! characters come out for each character that goes in; the exec functions
//! build the escaped text and are proved to match.

use vstd::prelude::*;

verus! {

/// The lower hexadecimal digit for a value below sixteen.
pub open spec fn spec_hex_digit(n: u32) -> char {
    if n == 0 {
        '0'
    } else if n == 1 {
        '1'
    } else if n == 2 {
        '2'
    } else if n == 3 {
        '3'
    } else if n == 4 {
        '4'
    } else if n == 5 {
        '5'
    } else if n == 6 {
        '6'
    } else if n == 7 {
        '7'
    } else if n == 8 {
        '8'
    } else if n == 9 {
        '9'
    } else if n == 10 {
        'a'
    } else if n == 11 {
        'b'
    } else if n == 12 {
        'c'
    } else if n == 13 {
        'd'
    } else if n == 14 {
        'e'
    } else {
        'f'
    }
}

fn hex_digit(n: u32) -> (c: char)
    requires
        n < 16,
    ensures
        c == spec_hex_digit(n),
{
    if n == 0 {
        '0'
    } else if n == 1 {
        '1'
    } else if n == 2 {
        '2'
    } else if n == 3 {
        '3'
    } else if n == 4 {
        '4'
    } else if n == 5 {
        '5'
    } else if n == 6 {
        '6'
    } else if n == 7 {
        '7'
    } else if n == 8 {
        '8'
    } else if n == 9 {
        '9'
    } else if n == 10 {
        'a'
    } else if n == 11 {
        'b'
    } else if n == 12 {
        'c'
    } else if n == 13 {
        'd'
    } else if n == 14 {
        'e'
    } else {
        'f'
    }
}

/// What one character of a JSON string becomes in its serialized form.
pub open spec fn spec_escape_char(c: char) -> Seq<char> {
    if c == '"' {
        seq!['\\', '"']
    } else if c == '\\' {
        seq!['\\', '\\']
    } else if c == '\u{8}' {
        seq!['\\', 'b']
    } else if c == '\u{c}' {
        seq!['\\', 'f']
    } else if c == '\n' {
        seq!['\\', 'n']
    } else if c == '\r' {
        seq!['\\', 'r']
    } else if c == '\t' {
        seq!['\\', 't']
    } else if (c as u32) < 32 {
        seq!['\\', 'u', '0', '0', spec_hex_digit((c as u32) / 16), spec_hex_digit((c as u32) % 16)]
    } else {
        seq![c]
    }
}

/// The serialized form of a whole string's contents, without the
/// surrounding quotes.
pub open spec fn spec_escape(s: Seq<char>) -> Seq<char>
    decreases s.len(),
{
    if s.len() == 0 {
        Seq::empty()
    } else {
        spec_escape(s.drop_last()) + spec_escape_char(s.last())
    }
}

/// A string's contents as a JSON string literal: quoted and escaped.
pub open spec fn spec_quoted(s: Seq<char>) -> Seq<char> {
    seq!['"'] + spec_escape(s) + seq!['"']
}

/// Relies on String::push: appends exactly the one given character.
#[verifier::external_body]
pub(crate) fn push_char(out: &mut String, c: char)
    ensures
        final(out)@ == old(out)@.push(c),
{
    out.push(c);
}

fn push_escaped_char(out: &mut String, c: char)
    ensures
        final(out)@ == old(out)@ + spec_escape_char(c),
{
    if c == '"' {
        proof {
            reveal_strlit("\\\"");
        }
        out.append("\\\"");
        assert(out@ =~= old(out)@ + spec_escape_char(c));
    } else if c == '\\' {
        proof {
            reveal_strlit("\\\\");
        }
        out.append("\\\\");
        assert(out@ =~= old(out)@ + spec_escape_char(c));
    } else if c == '\u{8}' {
        proof {
            reveal_strlit("\\b");
        }
        out.append("\\b");
        assert(out@ =~= old(out)@ + spec_escape_char(c));
    } else if c == '\u{c}' {
        proof {
            reveal_strlit("\\f");
        }
        out.append("\\f");
        assert(out@ =~= old(out)@ + spec_escape_char(c));
    } else if c == '\n' {
        proof {
            reveal_strlit("\\n");
        }
        out.append("\\n");
        assert(out@ =~= old(out)@ + spec_escape_char(c));
    } else if c == '\r' {
        proof {
            reveal_strlit("\\r");
        }
        out.append("\\r");
        assert(out@ =~= old(out)@ + spec_escape_char(c));
    } else if c == '\t' {
        proof {
            reveal_strlit("\\t");
        }
        out.append("\\t");
        assert(out@ =~= old(out)@ + spec_escape_char(c));
    } else if (c as u32) < 32 {
        proof {
            reveal_strlit("\\u00");
        }
        out.append("\\u00");
        let code: u32 = c as u32;
        push_char(out, hex_digit(code / 16));
        push_char(out, hex_digit(code % 16));
        assert(out@ =~= old(out)@ + spec_escape_char(c));
    } else {
        push_char(out, c);
        assert(out@ =~= old(out)@ + spec_escape_char(c));
    }
}

/// Appends the JSON string literal for `s` to `out`.
pub(crate) fn append_quoted(out: &mut String, s: &str)
    ensures
        final(out)@ == old(out)@ + spec_quoted(s@),
{
    proof {
        reveal_strlit("\"");
    }
    out.append("\"");
    let ghost opened: Seq<char> = out@;
    let n = s.unicode_len();
    let mut i: usize = 0;
    while i < n
        invariant
            i <= n,
            n == s@.len(),
            out@ == opened + spec_escape(s@.subrange(0, i as int)),
        decreases n - i,
    {
        let c = s.get_char(i);
        push_escaped_char(out, c);
        proof {
            let pre = s@.subrange(0, i as int);
            let post = s@.subrange(0, i + 1 as int);
            assert(post.drop_last() =~= pre);
            assert(post.last() == c);
        }
        i = i + 1;
    }
    out.append("\"");
    proof {
        assert(s@.subrange(0, n as int) =~= s@);
        assert(out@ =~= old(out)@ + spec_quoted(s@));
    }
}

} // verus!
