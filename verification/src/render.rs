//! Verified rendering of `JsonValue` trees into JSON text: a compact
//! form for the response envelope on the wire, and a two-space
//! indented form for tool results embedded in content blocks.

use vstd::prelude::*;
use vstd::string::StrSliceExecFns;
use crate::json::{Jv, JsonValue, jv_of, jv_of_fields, jv_of_seq, lemma_jv_of_fields_index,
    lemma_jv_of_fields_len, lemma_jv_of_seq_index, lemma_jv_of_seq_len,
    lemma_node_count_fields_bound, lemma_node_count_seq_bound, node_count};
use crate::numfmt::{dec_int, digit_char, push_dec_i64};
use crate::strutil::chars_to_string;

verus! {

broadcast use vstd::std_specs::vec::group_vec_axioms, vstd::seq::group_seq_axioms,
    crate::json::lemma_jv_of_seq_len, crate::json::lemma_jv_of_seq_index,
    crate::json::lemma_jv_of_fields_len, crate::json::lemma_jv_of_fields_index;

/// The hexadecimal digit character for a value below sixteen.
pub open spec fn hex_char(d: int) -> char {
    if d < 10 {
        digit_char(d)
    } else if d == 10 {
        'a'
    } else if d == 11 {
        'b'
    } else if d == 12 {
        'c'
    } else if d == 13 {
        'd'
    } else if d == 14 {
        'e'
    } else {
        'f'
    }
}

/// How one character appears inside a JSON string literal.
pub open spec fn esc_char(c: char) -> Seq<char> {
    if c == '"' {
        seq!['\\', '"']
    } else if c == '\\' {
        seq!['\\', '\\']
    } else if c == '\n' {
        seq!['\\', 'n']
    } else if c == '\r' {
        seq!['\\', 'r']
    } else if c == '\t' {
        seq!['\\', 't']
    } else if c == '\u{8}' {
        seq!['\\', 'b']
    } else if c == '\u{c}' {
        seq!['\\', 'f']
    } else if (c as u32) < 32 {
        seq!['\\', 'u', '0', '0', hex_char((c as int) / 16), hex_char((c as int) % 16)]
    } else {
        seq![c]
    }
}

/// A string's characters, each escaped.
pub open spec fn esc_seq(s: Seq<char>) -> Seq<char>
    decreases s.len(),
{
    if s.len() == 0 {
        Seq::empty()
    } else {
        esc_seq(s.drop_last()) + esc_char(s.last())
    }
}

/// A JSON string literal: the escaped characters between quotes.
pub open spec fn quoted(s: Seq<char>) -> Seq<char> {
    seq!['"'] + esc_seq(s) + seq!['"']
}

/// Compact rendering of a value, matching the usual machine form: no
/// whitespace, object fields in held order, `Raw` tokens verbatim.
pub open spec fn render_jv(v: Jv) -> Seq<char>
    decreases v,
{
    match v {
        Jv::Null => seq!['n', 'u', 'l', 'l'],
        Jv::Bool(b) => if b {
            seq!['t', 'r', 'u', 'e']
        } else {
            seq!['f', 'a', 'l', 's', 'e']
        },
        Jv::Int(i) => dec_int(i),
        Jv::Text(s) => quoted(s),
        Jv::Raw(s) => s,
        Jv::Arr(items) => seq!['['] + joined_items(items) + seq![']'],
        Jv::Obj(fields) => seq!['{'] + joined_fields(fields) + seq!['}'],
    }
}

/// Comma-joined compact renderings of an array's items.
pub open spec fn joined_items(items: Seq<Jv>) -> Seq<char>
    decreases items,
{
    if items.len() == 0 {
        Seq::empty()
    } else if items.len() == 1 {
        render_jv(items[0])
    } else {
        joined_items(items.drop_last()) + seq![','] + render_jv(items.last())
    }
}

/// Comma-joined compact renderings of an object's fields.
pub open spec fn joined_fields(fields: Seq<(Seq<char>, Jv)>) -> Seq<char>
    decreases fields,
{
    if fields.len() == 0 {
        Seq::empty()
    } else if fields.len() == 1 {
        quoted(fields[0].0) + seq![':'] + render_jv(fields[0].1)
    } else {
        joined_fields(fields.drop_last()) + seq![','] + quoted(fields.last().0) + seq![':']
            + render_jv(fields.last().1)
    }
}

/// Two-space indented rendering, with `pad` the current line indent.
/// Empty containers collapse; a container's items each begin on their
/// own deeper-indented line and its closing bracket on a line of its
/// own at the container's indent.
pub open spec fn pretty_jv(v: Jv, pad: Seq<char>) -> Seq<char>
    decreases v,
{
    match v {
        Jv::Arr(items) => if items.len() == 0 {
            seq!['[', ']']
        } else {
            seq!['['] + pretty_items(items, pad) + seq!['\n'] + pad + seq![']']
        },
        Jv::Obj(fields) => if fields.len() == 0 {
            seq!['{', '}']
        } else {
            seq!['{'] + pretty_fields(fields, pad) + seq!['\n'] + pad + seq!['}']
        },
        _ => render_jv(v),
    }
}

/// The lines of a nonempty array's items under the indented form.
pub open spec fn pretty_items(items: Seq<Jv>, pad: Seq<char>) -> Seq<char>
    decreases items,
{
    if items.len() == 0 {
        Seq::empty()
    } else if items.len() == 1 {
        seq!['\n'] + pad + seq![' ', ' '] + pretty_jv(items[0], pad + seq![' ', ' '])
    } else {
        pretty_items(items.drop_last(), pad) + seq![','] + seq!['\n'] + pad + seq![' ', ' ']
            + pretty_jv(items.last(), pad + seq![' ', ' '])
    }
}

/// The lines of a nonempty object's fields under the indented form.
pub open spec fn pretty_fields(fields: Seq<(Seq<char>, Jv)>, pad: Seq<char>) -> Seq<char>
    decreases fields,
{
    if fields.len() == 0 {
        Seq::empty()
    } else if fields.len() == 1 {
        seq!['\n'] + pad + seq![' ', ' '] + quoted(fields[0].0) + seq![':', ' '] + pretty_jv(
            fields[0].1,
            pad + seq![' ', ' '],
        )
    } else {
        pretty_fields(fields.drop_last(), pad) + seq![','] + seq!['\n'] + pad + seq![' ', ' ']
            + quoted(fields.last().0) + seq![':', ' '] + pretty_jv(
            fields.last().1,
            pad + seq![' ', ' '],
        )
    }
}

fn hex_of(d: u32) -> (c: char)
    requires
        d < 16,
    ensures
        c == hex_char(d as int),
{
    match d {
        0 => '0',
        1 => '1',
        2 => '2',
        3 => '3',
        4 => '4',
        5 => '5',
        6 => '6',
        7 => '7',
        8 => '8',
        9 => '9',
        10 => 'a',
        11 => 'b',
        12 => 'c',
        13 => 'd',
        14 => 'e',
        _ => 'f',
    }
}

fn push_escaped_char(out: &mut Vec<char>, c: char)
    ensures
        final(out)@ == old(out)@ + esc_char(c),
{
    if c == '"' {
        out.push('\\');
        out.push('"');
    } else if c == '\\' {
        out.push('\\');
        out.push('\\');
    } else if c == '\n' {
        out.push('\\');
        out.push('n');
    } else if c == '\r' {
        out.push('\\');
        out.push('r');
    } else if c == '\t' {
        out.push('\\');
        out.push('t');
    } else if c == '\u{8}' {
        out.push('\\');
        out.push('b');
    } else if c == '\u{c}' {
        out.push('\\');
        out.push('f');
    } else if (c as u32) < 32 {
        let code = c as u32;
        out.push('\\');
        out.push('u');
        out.push('0');
        out.push('0');
        out.push(hex_of(code / 16));
        out.push(hex_of(code % 16));
    } else {
        out.push(c);
    }
    proof {
        assert(final(out)@ =~= old(out)@ + esc_char(c));
    }
}

fn push_quoted(out: &mut Vec<char>, s: &str)
    ensures
        final(out)@ == old(out)@ + quoted(s@),
{
    let len = s.unicode_len();
    out.push('"');
    let mut i: usize = 0;
    while i < len
        invariant
            len == s@.len(),
            i <= len,
            out@ == old(out)@ + seq!['"'] + esc_seq(s@.take(i as int)),
        decreases len - i,
    {
        push_escaped_char(out, s.get_char(i));
        proof {
            assert(s@.take(i + 1).drop_last() =~= s@.take(i as int));
            assert(s@.take(i + 1).last() == s@[i as int]);
            assert(out@ =~= old(out)@ + seq!['"'] + esc_seq(s@.take(i + 1)));
        }
        i += 1;
    }
    out.push('"');
    proof {
        assert(s@.take(len as int) =~= s@);
        assert(final(out)@ =~= old(out)@ + quoted(s@));
    }
}

fn push_str_chars(out: &mut Vec<char>, s: &str)
    ensures
        final(out)@ == old(out)@ + s@,
{
    let len = s.unicode_len();
    let mut i: usize = 0;
    while i < len
        invariant
            len == s@.len(),
            i <= len,
            out@ == old(out)@ + s@.take(i as int),
        decreases len - i,
    {
        out.push(s.get_char(i));
        proof {
            assert(out@ =~= old(out)@ + s@.take(i + 1));
        }
        i += 1;
    }
    proof {
        assert(s@.take(len as int) =~= s@);
    }
}

#[verifier::rlimit(60)]
fn render_value(v: &JsonValue, out: &mut Vec<char>)
    ensures
        final(out)@ == old(out)@ + render_jv(jv_of(*v)),
    decreases node_count(*v),
{
    match v {
        JsonValue::Null => {
            out.push('n');
            out.push('u');
            out.push('l');
            out.push('l');
            proof {
                assert(final(out)@ =~= old(out)@ + render_jv(jv_of(*v)));
            }
        },
        JsonValue::Bool(b) => {
            if *b {
                out.push('t');
                out.push('r');
                out.push('u');
                out.push('e');
            } else {
                out.push('f');
                out.push('a');
                out.push('l');
                out.push('s');
                out.push('e');
            }
            proof {
                assert(final(out)@ =~= old(out)@ + render_jv(jv_of(*v)));
            }
        },
        JsonValue::Int(i) => {
            push_dec_i64(out, *i);
        },
        JsonValue::Text(s) => {
            push_quoted(out, s.as_str());
        },
        JsonValue::Raw(s) => {
            push_str_chars(out, s.as_str());
        },
        JsonValue::Arr(items) => {
            let ghost gitems = jv_of_seq(items@);
            out.push('[');
            let n = items.len();
            let mut i: usize = 0;
            while i < n
                invariant
                    *v == JsonValue::Arr(*items),
                    n == items@.len(),
                    gitems == jv_of_seq(items@),
                    gitems.len() == n,
                    i <= n,
                    out@ == old(out)@ + seq!['['] + joined_items(gitems.take(i as int)),
                decreases n - i,
            {
                if i > 0 {
                    out.push(',');
                }
                proof {
                    lemma_node_count_seq_bound(items@, i as int);
                }
                render_value(&items[i], out);
                proof {
                    assert(gitems.take(i + 1).drop_last() =~= gitems.take(i as int));
                    assert(gitems.take(i + 1).last() == gitems[i as int]);
                    assert(gitems[i as int] == jv_of(items@[i as int]));
                    assert(out@ =~= old(out)@ + seq!['['] + joined_items(gitems.take(i + 1)));
                }
                i += 1;
            }
            out.push(']');
            proof {
                assert(gitems.take(n as int) =~= gitems);
                assert(final(out)@ =~= old(out)@ + render_jv(jv_of(*v)));
            }
        },
        JsonValue::Obj(fields) => {
            let ghost gfields = jv_of_fields(fields@);
            out.push('{');
            let n = fields.len();
            let mut i: usize = 0;
            while i < n
                invariant
                    *v == JsonValue::Obj(*fields),
                    n == fields@.len(),
                    gfields == jv_of_fields(fields@),
                    gfields.len() == n,
                    i <= n,
                    out@ == old(out)@ + seq!['{'] + joined_fields(gfields.take(i as int)),
                decreases n - i,
            {
                if i > 0 {
                    out.push(',');
                }
                push_quoted(out, fields[i].0.as_str());
                out.push(':');
                proof {
                    lemma_node_count_fields_bound(fields@, i as int);
                }
                render_value(&fields[i].1, out);
                proof {
                    assert(gfields.take(i + 1).drop_last() =~= gfields.take(i as int));
                    assert(gfields.take(i + 1).last() == gfields[i as int]);
                    assert(gfields[i as int] == (fields@[i as int].0@, jv_of(fields@[i as int].1)));
                    assert(out@ =~= old(out)@ + seq!['{'] + joined_fields(gfields.take(i + 1)));
                }
                i += 1;
            }
            out.push('}');
            proof {
                assert(gfields.take(n as int) =~= gfields);
                assert(final(out)@ =~= old(out)@ + render_jv(jv_of(*v)));
            }
        },
    }
}

#[verifier::rlimit(60)]
fn pretty_value(v: &JsonValue, pad: &mut Vec<char>, out: &mut Vec<char>)
    ensures
        final(pad)@ == old(pad)@,
        final(out)@ == old(out)@ + pretty_jv(jv_of(*v), old(pad)@),
    decreases node_count(*v),
{
    match v {
        JsonValue::Arr(items) => {
            let ghost gitems = jv_of_seq(items@);
            let n = items.len();
            if n == 0 {
                out.push('[');
                out.push(']');
                proof {
                    assert(final(out)@ =~= old(out)@ + pretty_jv(jv_of(*v), old(pad)@));
                }
            } else {
                out.push('[');
                pad.push(' ');
                pad.push(' ');
                let mut i: usize = 0;
                while i < n
                    invariant
                        *v == JsonValue::Arr(*items),
                        n == items@.len(),
                        n > 0,
                        gitems == jv_of_seq(items@),
                        gitems.len() == n,
                        i <= n,
                        pad@ == old(pad)@ + seq![' ', ' '],
                        out@ == old(out)@ + seq!['['] + pretty_items(
                            gitems.take(i as int),
                            old(pad)@,
                        ),
                    decreases n - i,
                {
                    if i > 0 {
                        out.push(',');
                    }
                    out.push('\n');
                    push_pad(out, pad);
                    proof {
                        lemma_node_count_seq_bound(items@, i as int);
                    }
                    pretty_value(&items[i], pad, out);
                    proof {
                        assert(gitems.take(i + 1).drop_last() =~= gitems.take(i as int));
                        assert(gitems.take(i + 1).last() == gitems[i as int]);
                        assert(gitems[i as int] == jv_of(items@[i as int]));
                        assert(out@ =~= old(out)@ + seq!['['] + pretty_items(
                            gitems.take(i + 1),
                            old(pad)@,
                        ));
                    }
                    i += 1;
                }
                pad.pop();
                pad.pop();
                out.push('\n');
                push_pad(out, pad);
                out.push(']');
                proof {
                    assert(pad@ =~= old(pad)@);
                    assert(gitems.take(n as int) =~= gitems);
                    assert(final(out)@ =~= old(out)@ + pretty_jv(jv_of(*v), old(pad)@));
                }
            }
        },
        JsonValue::Obj(fields) => {
            let ghost gfields = jv_of_fields(fields@);
            let n = fields.len();
            if n == 0 {
                out.push('{');
                out.push('}');
                proof {
                    assert(final(out)@ =~= old(out)@ + pretty_jv(jv_of(*v), old(pad)@));
                }
            } else {
                out.push('{');
                pad.push(' ');
                pad.push(' ');
                let mut i: usize = 0;
                while i < n
                    invariant
                        *v == JsonValue::Obj(*fields),
                        n == fields@.len(),
                        n > 0,
                        gfields == jv_of_fields(fields@),
                        gfields.len() == n,
                        i <= n,
                        pad@ == old(pad)@ + seq![' ', ' '],
                        out@ == old(out)@ + seq!['{'] + pretty_fields(
                            gfields.take(i as int),
                            old(pad)@,
                        ),
                    decreases n - i,
                {
                    if i > 0 {
                        out.push(',');
                    }
                    out.push('\n');
                    push_pad(out, pad);
                    push_quoted(out, fields[i].0.as_str());
                    out.push(':');
                    out.push(' ');
                    proof {
                        lemma_node_count_fields_bound(fields@, i as int);
                    }
                    pretty_value(&fields[i].1, pad, out);
                    proof {
                        assert(gfields.take(i + 1).drop_last() =~= gfields.take(i as int));
                        assert(gfields.take(i + 1).last() == gfields[i as int]);
                        assert(gfields[i as int] == (fields@[i as int].0@, jv_of(
                            fields@[i as int].1,
                        )));
                        assert(out@ =~= old(out)@ + seq!['{'] + pretty_fields(
                            gfields.take(i + 1),
                            old(pad)@,
                        ));
                    }
                    i += 1;
                }
                pad.pop();
                pad.pop();
                out.push('\n');
                push_pad(out, pad);
                out.push('}');
                proof {
                    assert(pad@ =~= old(pad)@);
                    assert(gfields.take(n as int) =~= gfields);
                    assert(final(out)@ =~= old(out)@ + pretty_jv(jv_of(*v), old(pad)@));
                }
            }
        },
        _ => {
            render_value(v, out);
            proof {
                assert(final(out)@ =~= old(out)@ + pretty_jv(jv_of(*v), old(pad)@));
            }
        },
    }
}

fn push_pad(out: &mut Vec<char>, pad: &Vec<char>)
    ensures
        final(out)@ == old(out)@ + pad@,
{
    let n = pad.len();
    let mut i: usize = 0;
    while i < n
        invariant
            n == pad@.len(),
            i <= n,
            out@ == old(out)@ + pad@.take(i as int),
        decreases n - i,
    {
        out.push(pad[i]);
        proof {
            assert(out@ =~= old(out)@ + pad@.take(i + 1));
        }
        i += 1;
    }
    proof {
        assert(pad@.take(n as int) =~= pad@);
    }
}

/// Compact JSON text of a value: what goes on the wire.
pub fn render_compact(v: &JsonValue) -> (r: String)
    ensures
        r@ == render_jv(jv_of(*v)),
{
    let mut out: Vec<char> = Vec::new();
    render_value(v, &mut out);
    chars_to_string(&out)
}

/// Two-space indented JSON text of a value: what a content block holds.
pub fn render_pretty(v: &JsonValue) -> (r: String)
    ensures
        r@ == pretty_jv(jv_of(*v), Seq::empty()),
{
    let mut pad: Vec<char> = Vec::new();
    let mut out: Vec<char> = Vec::new();
    pretty_value(v, &mut pad, &mut out);
    chars_to_string(&out)
}

} // verus!
