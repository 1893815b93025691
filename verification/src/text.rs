//! JSON text production: the exact escaping rules for JSON strings and small
//! helpers that append quoted strings, arrays and literal fragments to a
//! growing output buffer.

use vstd::prelude::*;
use vstd::string::StringExecFns;

verus! {

/// The lowercase hexadecimal digit for a value below 16.
pub open spec fn hex_char(n: int) -> char {
    if n == 0 {
        '0'
    } else if n == 1 {
        '1'
    } else if n == 2 {
        '2'
    } else if n == 3 {
        '3'
    } else if n == 4 {
        '4'
    } else if n == 5 {
        '5'
    } else if n == 6 {
        '6'
    } else if n == 7 {
        '7'
    } else if n == 8 {
        '8'
    } else if n == 9 {
        '9'
    } else if n == 10 {
        'a'
    } else if n == 11 {
        'b'
    } else if n == 12 {
        'c'
    } else if n == 13 {
        'd'
    } else if n == 14 {
        'e'
    } else {
        'f'
    }
}

/// How one character appears inside a JSON string literal: quotes and
/// backslashes get a two-character escape, the named control characters get
/// their short escapes, every other control character below 0x20 becomes a
/// six-character `\u00..` escape, and all remaining characters stand as
/// themselves.
pub open spec fn esc_char(c: char) -> Seq<char> {
    if c == '"' {
        seq!['\\', '"']
    } else if c == '\\' {
        seq!['\\', '\\']
    } else if c == '\u{08}' {
        seq!['\\', 'b']
    } else if c == '\u{09}' {
        seq!['\\', 't']
    } else if c == '\u{0a}' {
        seq!['\\', 'n']
    } else if c == '\u{0c}' {
        seq!['\\', 'f']
    } else if c == '\u{0d}' {
        seq!['\\', 'r']
    } else if (c as u32) < 0x20 {
        seq!['\\', 'u', '0', '0', hex_char((c as u32) as int / 16), hex_char((c as u32) as int % 16)]
    } else {
        seq![c]
    }
}

/// The body of a JSON string literal holding the characters of `s`.
pub open spec fn escaped(s: Seq<char>) -> Seq<char>
    decreases s.len(),
{
    if s.len() == 0 {
        Seq::empty()
    } else {
        escaped(s.drop_last()) + esc_char(s.last())
    }
}

/// A complete JSON string literal for `s`: a double quote, the escaped body,
/// a double quote.
pub open spec fn quoted(s: Seq<char>) -> Seq<char> {
    seq!['"'] + escaped(s) + seq!['"']
}

/// An optional JSON string: the quoted string when present, `null` otherwise.
pub open spec fn opt_quoted(o: Option<Seq<char>>) -> Seq<char> {
    match o {
        Some(s) => quoted(s),
        None => "null"@,
    }
}

/// A JSON array of string literals, without the surrounding brackets.
pub open spec fn joined_quoted(v: Seq<Seq<char>>) -> Seq<char>
    decreases v.len(),
{
    if v.len() == 0 {
        Seq::empty()
    } else if v.len() == 1 {
        quoted(v[0])
    } else {
        joined_quoted(v.drop_last()) + seq![','] + quoted(v.last())
    }
}

/// A complete JSON array of string literals.
pub open spec fn quoted_array(v: Seq<Seq<char>>) -> Seq<char> {
    seq!['['] + joined_quoted(v) + seq![']']
}

/// The JSON spelling of a boolean.
pub open spec fn bool_text(b: bool) -> Seq<char> {
    if b {
        "true"@
    } else {
        "false"@
    }
}

/// The decimal digits of a number, most significant first.
pub open spec fn dec_text(n: nat) -> Seq<char>
    decreases n,
{
    if n < 10 {
        seq![hex_char(n as int)]
    } else {
        dec_text(n / 10) + seq![hex_char((n % 10) as int)]
    }
}

/// An optional number: its decimal digits when present, `null` otherwise.
pub open spec fn opt_dec_text(o: Option<u32>) -> Seq<char> {
    match o {
        Some(n) => dec_text(n as nat),
        None => "null"@,
    }
}

/// An opaque JSON fragment: emitted verbatim when present, `null` otherwise.
pub open spec fn opt_raw(o: Option<Seq<char>>) -> Seq<char> {
    match o {
        Some(s) => s,
        None => "null"@,
    }
}

/// Relies on `String::push`: appends exactly one character at the end.
#[verifier::external_body]
pub(crate) fn push_char(out: &mut String, c: char)
    ensures
        final(out)@ == old(out)@ + seq![c],
{
    out.push(c);
}

/// Appends the lowercase hexadecimal digit of a value below 16.
fn push_hex(out: &mut String, d: u32)
    requires
        d < 16,
    ensures
        final(out)@ == old(out)@ + seq![hex_char(d as int)],
{
    let c: char = if d == 0 {
        '0'
    } else if d == 1 {
        '1'
    } else if d == 2 {
        '2'
    } else if d == 3 {
        '3'
    } else if d == 4 {
        '4'
    } else if d == 5 {
        '5'
    } else if d == 6 {
        '6'
    } else if d == 7 {
        '7'
    } else if d == 8 {
        '8'
    } else if d == 9 {
        '9'
    } else if d == 10 {
        'a'
    } else if d == 11 {
        'b'
    } else if d == 12 {
        'c'
    } else if d == 13 {
        'd'
    } else if d == 14 {
        'e'
    } else {
        'f'
    };
    push_char(out, c);
}

/// Appends the decimal digits of a number.
pub fn push_dec(out: &mut String, n: u32)
    ensures
        final(out)@ == old(out)@ + dec_text(n as nat),
    decreases n,
{
    if n < 10 {
        push_hex(out, n);
    } else {
        push_dec(out, n / 10);
        push_hex(out, n % 10);
    }
}

/// Appends an optional number's decimal digits, or `null`.
pub fn push_opt_dec(out: &mut String, o: &Option<u32>)
    ensures
        final(out)@ == old(out)@ + opt_dec_text(*o),
{
    match o {
        Some(n) => {
            push_dec(out, *n);
        },
        None => {
            out.append("null");
        },
    }
}

/// Appends an opaque JSON fragment verbatim, or `null`.
pub fn push_opt_raw(out: &mut String, o: &Option<String>)
    ensures
        final(out)@ == old(out)@ + opt_raw(o.deep_view()),
{
    match o {
        Some(s) => {
            out.append(s.as_str());
        },
        None => {
            out.append("null");
        },
    }
}

/// Appends the escape of one character, as `esc_char` describes it.
fn push_escaped_char(out: &mut String, c: char)
    ensures
        final(out)@ == old(out)@ + esc_char(c),
{
    let u = c as u32;
    if c == '"' {
        out.append("\\\"");
        proof {
            reveal_strlit("\\\"");
            assert(final(out)@ =~= old(out)@ + esc_char(c));
        }
    } else if c == '\\' {
        out.append("\\\\");
        proof {
            reveal_strlit("\\\\");
            assert(final(out)@ =~= old(out)@ + esc_char(c));
        }
    } else if u == 0x08 {
        out.append("\\b");
        proof {
            reveal_strlit("\\b");
            assert(final(out)@ =~= old(out)@ + esc_char(c));
        }
    } else if u == 0x09 {
        out.append("\\t");
        proof {
            reveal_strlit("\\t");
            assert(final(out)@ =~= old(out)@ + esc_char(c));
        }
    } else if u == 0x0a {
        out.append("\\n");
        proof {
            reveal_strlit("\\n");
            assert(final(out)@ =~= old(out)@ + esc_char(c));
        }
    } else if u == 0x0c {
        out.append("\\f");
        proof {
            reveal_strlit("\\f");
            assert(final(out)@ =~= old(out)@ + esc_char(c));
        }
    } else if u == 0x0d {
        out.append("\\r");
        proof {
            reveal_strlit("\\r");
            assert(final(out)@ =~= old(out)@ + esc_char(c));
        }
    } else if u < 0x20 {
        out.append("\\u00");
        push_hex(out, u / 16);
        push_hex(out, u % 16);
        proof {
            reveal_strlit("\\u00");
            assert(final(out)@ =~= old(out)@ + esc_char(c));
        }
    } else {
        push_char(out, c);
        proof {
            assert(final(out)@ =~= old(out)@ + esc_char(c));
        }
    }
}

/// Appends the escaped body of a JSON string literal for `s`.
pub fn push_escaped(out: &mut String, s: &str)
    ensures
        final(out)@ == old(out)@ + escaped(s@),
{
    proof {
        assert(s@.take(0) =~= Seq::<char>::empty());
        assert(old(out)@ + escaped(s@.take(0)) =~= old(out)@);
    }
    for c in it: s.chars()
        invariant
            it.seq() == s@,
            out@ == old(out)@ + escaped(s@.take(it.index() as int)),
    {
        proof {
            let i = it.index() as int;
            assert(s@.take(i + 1).drop_last() =~= s@.take(i));
            assert(s@.take(i + 1).last() == s@[i]);
        }
        push_escaped_char(out, c);
    }
    proof {
        assert(s@.take(s@.len() as int) =~= s@);
    }
}

/// Appends the complete JSON string literal for `s`.
pub fn push_quoted(out: &mut String, s: &str)
    ensures
        final(out)@ == old(out)@ + quoted(s@),
{
    push_char(out, '"');
    push_escaped(out, s);
    push_char(out, '"');
    proof {
        assert(final(out)@ =~= old(out)@ + quoted(s@));
    }
}

/// Appends the quoted string when one is present, `null` otherwise.
pub fn push_opt_quoted(out: &mut String, s: &Option<String>)
    ensures
        final(out)@ == old(out)@ + opt_quoted(s.deep_view()),
{
    match s {
        Some(t) => {
            push_quoted(out, t.as_str());
        },
        None => {
            out.append("null");
        },
    }
}

/// Appends a complete JSON array holding the strings of `items`, in order.
pub fn push_quoted_array(out: &mut String, items: &Vec<String>)
    ensures
        final(out)@ == old(out)@ + quoted_array(items.deep_view()),
{
    push_char(out, '[');
    let ghost views: Seq<Seq<char>> = items.deep_view();
    for i in it: 0..items.len()
        invariant
            views == items.deep_view(),
            out@ == old(out)@ + seq!['['] + joined_quoted(views.take(i as int)),
    {
        if i > 0 {
            push_char(out, ',');
        }
        push_quoted(out, items[i].as_str());
        proof {
            assert(views.take(i + 1).drop_last() =~= views.take(i as int));
            assert(views.take(i + 1).last() == views[i as int]);
            assert(views[i as int] == items[i as int]@);
            if i == 0 {
                assert(out@ =~= old(out)@ + seq!['['] + joined_quoted(views.take(1)));
            } else {
                assert(out@ =~= old(out)@ + seq!['['] + joined_quoted(views.take(i + 1)));
            }
        }
    }
    push_char(out, ']');
    proof {
        assert(views.take(views.len() as int) =~= views);
        assert(final(out)@ =~= old(out)@ + quoted_array(items.deep_view()));
    }
}

/// Appends the JSON spelling of a boolean.
pub fn push_bool(out: &mut String, b: bool)
    ensures
        final(out)@ == old(out)@ + bool_text(b),
{
    if b {
        out.append("true");
    } else {
        out.append("false");
    }
}

} // verus!
