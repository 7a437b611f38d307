//! Formatting: `sprintf`-style directives, templates and a plain JSON
//! encoding.

use vstd::prelude::*;
use vstd::slice::slice_subrange;
use crate::error::{HostError, HostErrorKind};
use crate::host::{display, host_notation};
use crate::text::{
    bool_text, chars_of, decimal_int, matches_at, push_all, push_decimal_int, push_str,
    string_from_chars,
};
use crate::value::{
    arg, arg_at, arg_map, arg_str, dict_arg, entry_views, lemma_entry_views, lemma_views_of,
    outcome, text_arg, views_of, HostOutcome, Value, ValueView,
};

verus! {

/// The notation of a value that is a function, binary data or an error
/// value, as the scripting host writes it.
pub open spec fn notation(v: ValueView) -> Seq<char> {
    match v {
        ValueView::Function(Some(name)) => "<function "@ + name + ">"@,
        ValueView::Function(None) => "<function>"@,
        _ => host_notation(v),
    }
}

/// The plain text of a value: texts as they are, numbers in decimal, the
/// items of a list between brackets and the entries of a dictionary
/// between braces, both separated by a comma and a space.
pub open spec fn plain_text(v: ValueView) -> Seq<char>
    decreases v,
{
    match v {
        ValueView::Null => "null"@,
        ValueView::Bool(b) => bool_text(b),
        ValueView::Int(i) => decimal_int(i as int),
        ValueView::Float(_, text) => text,
        ValueView::Text(s) => s,
        ValueView::List(l) => seq!['['] + joined_texts(l, l.len() as int) + seq![']'],
        ValueView::Dict(m) => seq!['{'] + joined_entries(m, m.len() as int) + seq!['}'],
        _ => notation(v),
    }
}

/// The plain texts of the first `n` items of `l`, separated by ", ".
pub open spec fn joined_texts(l: Seq<ValueView>, n: int) -> Seq<char>
    decreases l, n,
{
    if n <= 0 || n > l.len() {
        Seq::empty()
    } else if n == 1 {
        plain_text(l[0])
    } else {
        joined_texts(l, n - 1) + ", "@ + plain_text(l[n - 1])
    }
}

/// The first `n` entries of `m`, each as `key: value`, separated by ", ".
pub open spec fn joined_entries(m: Seq<(Seq<char>, ValueView)>, n: int) -> Seq<char>
    decreases m, n,
{
    if n <= 0 || n > m.len() {
        Seq::empty()
    } else if n == 1 {
        m[0].0 + ": "@ + plain_text(m[0].1)
    } else {
        joined_entries(m, n - 1) + ", "@ + (m[n - 1].0 + ": "@ + plain_text(m[n - 1].1))
    }
}

/// Appends the plain text of `v` to `out`.
pub fn write_plain(out: &mut Vec<char>, v: &Value)
    ensures
        final(out)@ == old(out)@ + plain_text(v@),
    decreases v,
{
    match v {
        Value::Null => {
            push_str(out, "null");
        },
        Value::Bool(b) => {
            if *b {
                push_str(out, "true");
            } else {
                push_str(out, "false");
            }
        },
        Value::Int(i) => {
            push_decimal_int(out, *i);
        },
        Value::Float(f) => {
            push_str(out, f.text.as_str());
        },
        Value::String(s) => {
            push_str(out, s.as_str());
        },
        Value::List(l) => {
            out.push('[');
            let ghost items = views_of(l@);
            proof {
                lemma_views_of(l@);
            }
            let mut i: usize = 0;
            while i < l.len()
                invariant
                    i <= l.len(),
                    *v == Value::List(*l),
                    items == views_of(l@),
                    items.len() == l@.len(),
                    forall|k: int| 0 <= k < l@.len() ==> (#[trigger] items[k]) == l@[k]@,
                    out@ == old(out)@ + seq!['['] + joined_texts(items, i as int),
                decreases l.len() - i,
            {
                let ghost before = out@;
                if i > 0 {
                    push_str(out, ", ");
                }
                proof {
                    assert(decreases_to!(*l => l[i as int]));
                    assert(decreases_to!(*v => v->List_0));
                }
                write_plain(out, &l[i]);
                proof {
                    reveal_with_fuel(joined_texts, 2);
                    if i == 0 {
                        assert(joined_texts(items, 0) =~= Seq::<char>::empty());
                        assert(out@ =~= old(out)@ + seq!['['] + joined_texts(items, 1));
                    } else {
                        assert(out@ =~= old(out)@ + seq!['['] + joined_texts(items, i + 1));
                    }
                }
                i += 1;
            }
            out.push(']');
            assert(out@ =~= old(out)@ + plain_text(v@));
        },
        Value::Dict(m) => {
            out.push('{');
            let ghost entries = entry_views(m@);
            proof {
                lemma_entry_views(m@);
            }
            let mut i: usize = 0;
            while i < m.len()
                invariant
                    i <= m.len(),
                    *v == Value::Dict(*m),
                    entries == entry_views(m@),
                    entries.len() == m@.len(),
                    forall|k: int|
                        0 <= k < m@.len() ==> (#[trigger] entries[k]) == (m@[k].0@, m@[k].1@),
                    out@ == old(out)@ + seq!['{'] + joined_entries(entries, i as int),
                decreases m.len() - i,
            {
                if i > 0 {
                    push_str(out, ", ");
                }
                push_str(out, m[i].0.as_str());
                push_str(out, ": ");
                proof {
                    assert(decreases_to!(*m => m[i as int]));
                    assert(decreases_to!(m[i as int] => m[i as int].1));
                    assert(decreases_to!(*v => v->Dict_0));
                }
                write_plain(out, &m[i].1);
                proof {
                    reveal_with_fuel(joined_entries, 2);
                    if i == 0 {
                        assert(joined_entries(entries, 0) =~= Seq::<char>::empty());
                        assert(out@ =~= old(out)@ + seq!['{'] + joined_entries(entries, 1));
                    } else {
                        assert(out@ =~= old(out)@ + seq!['{'] + joined_entries(entries, i + 1));
                    }
                }
                i += 1;
            }
            out.push('}');
            assert(out@ =~= old(out)@ + plain_text(v@));
        },
        Value::Function(name) => {
            match name {
                Some(n) => {
                    push_str(out, "<function ");
                    push_str(out, n.as_str());
                    push_str(out, ">");
                },
                None => {
                    push_str(out, "<function>");
                },
            }
        },
        Value::Bytes(_) => {
            let text = display(v);
            push_str(out, text.as_str());
        },
        Value::Error(_) => {
            let text = display(v);
            push_str(out, text.as_str());
        },
    }
}

/// The plain text of `v`.
pub fn value_to_string(v: &Value) -> (r: String)
    ensures
        r@ == plain_text(v@),
{
    let mut out: Vec<char> = Vec::new();
    write_plain(&mut out, v);
    assert(out@ =~= plain_text(v@));
    string_from_chars(&out)
}

/// A character within a JSON string: a backslash and a double quote get a
/// backslash before them.
pub open spec fn escaped_char(c: char) -> Seq<char> {
    if c == '\\' {
        seq!['\\', '\\']
    } else if c == '"' {
        seq!['\\', '"']
    } else {
        seq![c]
    }
}

/// The first `n` characters of `s`, escaped for a JSON string.
pub open spec fn escaped(s: Seq<char>, n: int) -> Seq<char>
    decreases n,
{
    if n <= 0 || n > s.len() {
        Seq::empty()
    } else {
        escaped(s, n - 1) + escaped_char(s[n - 1])
    }
}

/// The plain JSON encoding of a value. Functions, binary data and error
/// values are encoded as `null`; keys are written as they are.
pub open spec fn simple_json(v: ValueView) -> Seq<char>
    decreases v,
{
    match v {
        ValueView::Null => "null"@,
        ValueView::Bool(b) => bool_text(b),
        ValueView::Int(i) => decimal_int(i as int),
        ValueView::Float(_, text) => text,
        ValueView::Text(s) => seq!['"'] + escaped(s, s.len() as int) + seq!['"'],
        ValueView::List(l) => seq!['['] + joined_json(l, l.len() as int) + seq![']'],
        ValueView::Dict(m) => seq!['{'] + joined_members(m, m.len() as int) + seq!['}'],
        _ => "null"@,
    }
}

/// The JSON encodings of the first `n` items of `l`, separated by commas.
pub open spec fn joined_json(l: Seq<ValueView>, n: int) -> Seq<char>
    decreases l, n,
{
    if n <= 0 || n > l.len() {
        Seq::empty()
    } else if n == 1 {
        simple_json(l[0])
    } else {
        joined_json(l, n - 1) + seq![','] + simple_json(l[n - 1])
    }
}

/// One member of a JSON object: the key between quotes, a colon, the value.
pub open spec fn member(entry: (Seq<char>, ValueView)) -> Seq<char>
    decreases entry,
{
    seq!['"'] + entry.0 + seq!['"', ':'] + simple_json(entry.1)
}

/// The first `n` entries of `m` as members of a JSON object, separated by
/// commas.
pub open spec fn joined_members(m: Seq<(Seq<char>, ValueView)>, n: int) -> Seq<char>
    decreases m, n,
{
    if n <= 0 || n > m.len() {
        Seq::empty()
    } else if n == 1 {
        member(m[0])
    } else {
        joined_members(m, n - 1) + seq![','] + member(m[n - 1])
    }
}

fn write_escaped(out: &mut Vec<char>, s: &str)
    ensures
        final(out)@ == old(out)@ + escaped(s@, s@.len() as int),
{
    let chars = chars_of(s);
    let mut i: usize = 0;
    assert(escaped(s@, 0) =~= Seq::<char>::empty());
    while i < chars.len()
        invariant
            chars@ == s@,
            i <= chars.len(),
            out@ == old(out)@ + escaped(s@, i as int),
        decreases chars.len() - i,
    {
        let c = chars[i];
        if c == '\\' {
            out.push('\\');
            out.push('\\');
        } else if c == '"' {
            out.push('\\');
            out.push('"');
        } else {
            out.push(c);
        }
        assert(out@ =~= old(out)@ + escaped(s@, i + 1));
        i += 1;
    }
}

/// Appends the plain JSON encoding of `v` to `out`.
pub fn write_json(out: &mut Vec<char>, v: &Value)
    ensures
        final(out)@ == old(out)@ + simple_json(v@),
    decreases v,
{
    match v {
        Value::Null => {
            push_str(out, "null");
        },
        Value::Bool(b) => {
            if *b {
                push_str(out, "true");
            } else {
                push_str(out, "false");
            }
        },
        Value::Int(i) => {
            push_decimal_int(out, *i);
        },
        Value::Float(f) => {
            push_str(out, f.text.as_str());
        },
        Value::String(s) => {
            out.push('"');
            write_escaped(out, s.as_str());
            out.push('"');
            assert(out@ =~= old(out)@ + simple_json(v@));
        },
        Value::List(l) => {
            out.push('[');
            let ghost items = views_of(l@);
            proof {
                lemma_views_of(l@);
            }
            let mut i: usize = 0;
            while i < l.len()
                invariant
                    i <= l.len(),
                    *v == Value::List(*l),
                    items == views_of(l@),
                    items.len() == l@.len(),
                    forall|k: int| 0 <= k < l@.len() ==> (#[trigger] items[k]) == l@[k]@,
                    out@ == old(out)@ + seq!['['] + joined_json(items, i as int),
                decreases l.len() - i,
            {
                if i > 0 {
                    out.push(',');
                }
                proof {
                    assert(decreases_to!(*l => l[i as int]));
                    assert(decreases_to!(*v => v->List_0));
                }
                write_json(out, &l[i]);
                proof {
                    reveal_with_fuel(joined_json, 2);
                    if i == 0 {
                        assert(joined_json(items, 0) =~= Seq::<char>::empty());
                        assert(out@ =~= old(out)@ + seq!['['] + joined_json(items, 1));
                    } else {
                        assert(out@ =~= old(out)@ + seq!['['] + joined_json(items, i + 1));
                    }
                }
                i += 1;
            }
            out.push(']');
            assert(out@ =~= old(out)@ + simple_json(v@));
        },
        Value::Dict(m) => {
            out.push('{');
            let ghost entries = entry_views(m@);
            proof {
                lemma_entry_views(m@);
            }
            let mut i: usize = 0;
            while i < m.len()
                invariant
                    i <= m.len(),
                    *v == Value::Dict(*m),
                    entries == entry_views(m@),
                    entries.len() == m@.len(),
                    forall|k: int|
                        0 <= k < m@.len() ==> (#[trigger] entries[k]) == (m@[k].0@, m@[k].1@),
                    out@ == old(out)@ + seq!['{'] + joined_members(entries, i as int),
                decreases m.len() - i,
            {
                if i > 0 {
                    out.push(',');
                }
                out.push('"');
                push_str(out, m[i].0.as_str());
                out.push('"');
                out.push(':');
                proof {
                    assert(decreases_to!(*m => m[i as int]));
                    assert(decreases_to!(m[i as int] => m[i as int].1));
                    assert(decreases_to!(*v => v->Dict_0));
                }
                write_json(out, &m[i].1);
                proof {
                    reveal_with_fuel(joined_members, 2);
                    if i == 0 {
                        assert(joined_members(entries, 0) =~= Seq::<char>::empty());
                        assert(out@ =~= old(out)@ + seq!['{'] + joined_members(entries, 1));
                    } else {
                        assert(out@ =~= old(out)@ + seq!['{'] + joined_members(entries, i + 1));
                    }
                }
                i += 1;
            }
            out.push('}');
            assert(out@ =~= old(out)@ + simple_json(v@));
        },
        _ => {
            push_str(out, "null");
        },
    }
}

/// The plain JSON encoding of `v`.
pub fn value_to_json_simple(v: &Value) -> (r: String)
    ensures
        r@ == simple_json(v@),
{
    let mut out: Vec<char> = Vec::new();
    write_json(&mut out, v);
    assert(out@ =~= simple_json(v@));
    string_from_chars(&out)
}

/// What a directive writes for an argument: `s` the plain text; `d` and `i`
/// the decimal form of an integer and the plain text of anything else; `f`
/// the rendering of a floating-point number, of an integer the rendering of
/// the nearest floating-point number, and the plain text of anything else.
pub open spec fn directive_text(directive: char, v: ValueView) -> Seq<char> {
    if directive == 'f' {
        match v.as_float() {
            Some((_, text)) => text,
            None => plain_text(v),
        }
    } else if directive == 'd' || directive == 'i' {
        match v {
            ValueView::Int(i) => decimal_int(i as int),
            _ => plain_text(v),
        }
    } else {
        plain_text(v)
    }
}

/// Whether `c` after a percent sign takes an argument.
pub open spec fn takes_argument(c: char) -> bool {
    c == 's' || c == 'd' || c == 'i' || c == 'f'
}

/// `head` before a formatted text, where there is one.
pub open spec fn before(head: Seq<char>, tail: Option<Seq<char>>) -> Option<Seq<char>> {
    match tail {
        Some(t) => Some(head + t),
        None => None,
    }
}

/// The text that the format `fmt` gives from position `pos` on, with the
/// arguments from `next` on; `None` where a directive has no argument
/// left. `%%` writes a percent sign, `%s`, `%d`, `%i` and `%f` write the
/// next argument, and a percent sign before anything else is written as it
/// is.
pub open spec fn formatted(fmt: Seq<char>, pos: int, args: Seq<ValueView>, next: int) -> Option<
    Seq<char>,
>
    decreases fmt.len() - pos,
{
    if pos < 0 || pos >= fmt.len() {
        Some(Seq::empty())
    } else if fmt[pos] != '%' || pos + 1 >= fmt.len() {
        before(seq![fmt[pos]], formatted(fmt, pos + 1, args, next))
    } else if fmt[pos + 1] == '%' {
        before(seq!['%'], formatted(fmt, pos + 2, args, next))
    } else if takes_argument(fmt[pos + 1]) {
        if 0 <= next < args.len() {
            before(
                directive_text(fmt[pos + 1], args[next]),
                formatted(fmt, pos + 2, args, next + 1),
            )
        } else {
            None
        }
    } else {
        before(seq!['%'], formatted(fmt, pos + 1, args, next))
    }
}

/// The message of the error for a directive without an argument.
pub open spec fn not_enough_arguments() -> Seq<char> {
    "format.sprintf: not enough arguments"@
}

fn write_directive(out: &mut Vec<char>, directive: char, v: &Value)
    requires
        takes_argument(directive),
    ensures
        final(out)@ == old(out)@ + directive_text(directive, v@),
{
    if directive == 'f' {
        match v.as_float() {
            Some(number) => {
                push_str(out, number.text.as_str());
            },
            None => {
                write_plain(out, v);
            },
        }
    } else if directive == 'd' || directive == 'i' {
        match v {
            Value::Int(i) => {
                push_decimal_int(out, *i);
            },
            _ => {
                write_plain(out, v);
            },
        }
    } else {
        write_plain(out, v);
    }
}

/// Formats `args` by the directives of `format_str`.
pub fn format_string(format_str: &str, args: &[Value]) -> (r: Result<String, HostError>)
    ensures
        match formatted(format_str@, 0, views_of(args@), 0) {
            Some(text) => r matches Ok(s) && s@ == text,
            None => r matches Err(e) && e@ == (
                HostErrorKind::HostFunction,
                not_enough_arguments(),
            ),
        },
{
    let fmt = chars_of(format_str);
    let n = fmt.len();
    let mut out: Vec<char> = Vec::new();
    let mut pos: usize = 0;
    let mut next: usize = 0;
    let ghost items = views_of(args@);
    proof {
        lemma_views_of(args@);
    }
    while pos < n
        invariant
            fmt@ == format_str@,
            n == fmt.len(),
            pos <= n,
            next <= args@.len(),
            items == views_of(args@),
            items.len() == args@.len(),
            forall|k: int| 0 <= k < args@.len() ==> (#[trigger] items[k]) == args@[k]@,
            formatted(format_str@, 0, items, 0) == before(
                out@,
                formatted(format_str@, pos as int, items, next as int),
            ),
        decreases n - pos,
    {
        let c = fmt[pos];
        let ghost prior = out@;
        if c != '%' || pos + 1 >= n {
            out.push(c);
            proof {
                let rest = formatted(format_str@, pos + 1, items, next as int);
                if rest is Some {
                    assert(prior + (seq![c] + rest->0) =~= prior.push(c) + rest->0);
                }
            }
            pos += 1;
        } else {
            let d = fmt[pos + 1];
            if d == '%' {
                out.push('%');
                proof {
                    let rest = formatted(format_str@, pos + 2, items, next as int);
                    if rest is Some {
                        assert(prior + (seq!['%'] + rest->0) =~= prior.push('%') + rest->0);
                    }
                }
                pos += 2;
            } else if d == 's' || d == 'd' || d == 'i' || d == 'f' {
                if next >= args.len() {
                    return Err(HostError::host_function("format.sprintf: not enough arguments"));
                }
                write_directive(&mut out, d, &args[next]);
                proof {
                    let rest = formatted(format_str@, pos + 2, items, next + 1);
                    let piece = directive_text(d, items[next as int]);
                    if rest is Some {
                        assert(prior + (piece + rest->0) =~= (prior + piece) + rest->0);
                    }
                }
                next += 1;
                pos += 2;
            } else {
                out.push(c);
                proof {
                    let rest = formatted(format_str@, pos + 1, items, next as int);
                    if rest is Some {
                        assert(prior + (seq!['%'] + rest->0) =~= prior.push('%') + rest->0);
                    }
                }
                pos += 1;
            }
        }
    }
    assert(out@ + Seq::<char>::empty() =~= out@);
    Ok(string_from_chars(&out))
}

/// The text that `format.sprintf` gives for `args`: the first argument is
/// the format, the others are what it formats.
pub open spec fn sprintf_result(args: Seq<ValueView>) -> HostOutcome {
    match text_arg(args, 0) {
        None => Err((HostErrorKind::HostFunction, "format.sprintf: missing format string"@)),
        Some(fmt) => match formatted(fmt, 0, args.subrange(1, args.len() as int), 0) {
            Some(text) => Ok(ValueView::Text(text)),
            None => Err((HostErrorKind::HostFunction, not_enough_arguments())),
        },
    }
}

/// `format.sprintf`: formats the arguments after the first by the
/// directives of the first.
pub fn sprintf(args: &[Value]) -> (r: Result<Value, HostError>)
    ensures
        outcome(r) == sprintf_result(views_of(args@)),
{
    let format_str = match arg_str(args, 0) {
        Some(s) => s,
        None => {
            return Err(HostError::host_function("format.sprintf: missing format string"));
        },
    };
    proof {
        lemma_views_of(args@);
    }
    let rest = slice_subrange(args, 1, args.len());
    proof {
        lemma_views_of(rest@);
        assert(views_of(rest@) =~= views_of(args@).subrange(1, args@.len() as int));
    }
    match format_string(format_str, rest) {
        Ok(text) => Ok(Value::String(text)),
        Err(e) => Err(e),
    }
}

/// The text `s` from position `pos` on with every occurrence of the
/// non-empty `from` replaced by `to`; occurrences are found from left to
/// right and do not overlap.
pub open spec fn replaced(s: Seq<char>, from: Seq<char>, to: Seq<char>, pos: int) -> Seq<char>
    decreases s.len() - pos,
{
    if pos < 0 || pos >= s.len() || from.len() == 0 {
        Seq::empty()
    } else if from.is_prefix_of(s.skip(pos)) {
        to + replaced(s, from, to, pos + from.len())
    } else {
        seq![s[pos]] + replaced(s, from, to, pos + 1)
    }
}

/// The first `n` characters of `s`, each with `to` behind it.
pub open spec fn followed(s: Seq<char>, to: Seq<char>, n: int) -> Seq<char>
    decreases n,
{
    if n <= 0 || n > s.len() {
        Seq::empty()
    } else {
        followed(s, to, n - 1).push(s[n - 1]) + to
    }
}

/// The text `s` with every occurrence of `from` replaced by `to`. The empty
/// text occurs before every character and at the end.
pub open spec fn replaced_all(s: Seq<char>, from: Seq<char>, to: Seq<char>) -> Seq<char> {
    if from.len() == 0 {
        to + followed(s, to, s.len() as int)
    } else {
        replaced(s, from, to, 0)
    }
}

/// Replaces every occurrence of `from` in `s` by `to`.
pub fn replace_all(s: &Vec<char>, from: &Vec<char>, to: &Vec<char>) -> (r: Vec<char>)
    ensures
        r@ == replaced_all(s@, from@, to@),
{
    let mut out: Vec<char> = Vec::new();
    if from.len() == 0 {
        push_all(&mut out, to);
        let mut i: usize = 0;
        assert(followed(s@, to@, 0) =~= Seq::<char>::empty());
        while i < s.len()
            invariant
                i <= s.len(),
                out@ == to@ + followed(s@, to@, i as int),
            decreases s.len() - i,
        {
            let ghost prior = out@;
            out.push(s[i]);
            push_all(&mut out, to);
            assert(out@ =~= to@ + followed(s@, to@, i + 1));
            i += 1;
        }
        return out;
    }
    let mut pos: usize = 0;
    while pos < s.len()
        invariant
            from.len() > 0,
            pos <= s.len(),
            replaced(s@, from@, to@, 0) == out@ + replaced(s@, from@, to@, pos as int),
        decreases s.len() - pos,
    {
        let ghost prior = out@;
        if matches_at(s, pos, from) {
            push_all(&mut out, to);
            proof {
                assert(from@.len() <= s@.skip(pos as int).len());
                let rest = replaced(s@, from@, to@, pos + from@.len());
                assert(prior + (to@ + rest) =~= (prior + to@) + rest);
            }
            pos += from.len();
        } else {
            out.push(s[pos]);
            proof {
                let rest = replaced(s@, from@, to@, pos + 1);
                assert(prior + (seq![s@[pos as int]] + rest) =~= prior.push(s@[pos as int]) + rest);
            }
            pos += 1;
        }
    }
    assert(out@ + Seq::<char>::empty() =~= out@);
    out
}

/// The placeholder of a key: the key between double braces.
pub open spec fn placeholder(key: Seq<char>) -> Seq<char> {
    seq!['{', '{'] + key + seq!['}', '}']
}

/// The template `text` after the first `n` entries of `entries` were
/// substituted, one after the other: each replaces every placeholder of its
/// key by the plain text of its value.
pub open spec fn substituted(text: Seq<char>, entries: Seq<(Seq<char>, ValueView)>, n: int) -> Seq<
    char,
>
    decreases n,
{
    if n <= 0 || n > entries.len() {
        text
    } else {
        replaced_all(
            substituted(text, entries, n - 1),
            placeholder(entries[n - 1].0),
            plain_text(entries[n - 1].1),
        )
    }
}

/// What `format.template` gives for `args`: the first argument is the
/// template, the second the dictionary of the values.
pub open spec fn template_result(args: Seq<ValueView>) -> HostOutcome {
    match text_arg(args, 0) {
        None => Err((HostErrorKind::HostFunction, "format.template: missing template string"@)),
        Some(text) => match dict_arg(args, 1) {
            None => Err((HostErrorKind::HostFunction, "format.template: missing values map"@)),
            Some(entries) => Ok(
                ValueView::Text(substituted(text, entries, entries.len() as int)),
            ),
        },
    }
}

/// `format.template`: substitutes the placeholders `{{key}}` of a template
/// by the values of a dictionary, entry by entry.
pub fn template(args: &[Value]) -> (r: Result<Value, HostError>)
    ensures
        outcome(r) == template_result(views_of(args@)),
{
    let template_str = match arg_str(args, 0) {
        Some(s) => s,
        None => {
            return Err(HostError::host_function("format.template: missing template string"));
        },
    };
    let values = match arg_map(args, 1) {
        Some(m) => m,
        None => {
            return Err(HostError::host_function("format.template: missing values map"));
        },
    };
    let mut result = chars_of(template_str);
    let ghost entries = entry_views(values@);
    proof {
        lemma_entry_views(values@);
    }
    let mut i: usize = 0;
    while i < values.len()
        invariant
            i <= values.len(),
            entries == entry_views(values@),
            entries.len() == values@.len(),
            forall|k: int|
                0 <= k < values@.len() ==> (#[trigger] entries[k]) == (
                    values@[k].0@,
                    values@[k].1@,
                ),
            result@ == substituted(template_str@, entries, i as int),
        decreases values.len() - i,
    {
        let mut from: Vec<char> = Vec::new();
        from.push('{');
        from.push('{');
        push_str(&mut from, values[i].0.as_str());
        from.push('}');
        from.push('}');
        assert(from@ =~= placeholder(entries[i as int].0));
        let mut to: Vec<char> = Vec::new();
        write_plain(&mut to, &values[i].1);
        assert(to@ =~= plain_text(entries[i as int].1));
        result = replace_all(&result, &from, &to);
        i += 1;
    }
    Ok(Value::String(string_from_chars(&result)))
}

/// What `format.json_encode` gives for `args`.
pub open spec fn json_encode_result(args: Seq<ValueView>) -> HostOutcome {
    match arg_at(args, 0) {
        None => Err((HostErrorKind::HostFunction, "format.json_encode: missing value"@)),
        Some(v) => Ok(ValueView::Text(simple_json(v))),
    }
}

/// `format.json_encode`: the plain JSON encoding of the first argument.
pub fn json_encode(args: &[Value]) -> (r: Result<Value, HostError>)
    ensures
        outcome(r) == json_encode_result(views_of(args@)),
{
    match arg(args, 0) {
        Some(v) => Ok(Value::String(value_to_json_simple(v))),
        None => Err(HostError::host_function("format.json_encode: missing value")),
    }
}

/// What `format.json_decode` gives for `args`: decoding is not part of the
/// plain encoding, so a JSON text is refused with a message that says so.
pub open spec fn json_decode_result(args: Seq<ValueView>) -> HostOutcome {
    match text_arg(args, 0) {
        None => Err((HostErrorKind::HostFunction, "format.json_decode: missing JSON string"@)),
        Some(_) => Err(
            (HostErrorKind::HostFunction, "json_decode requires serde-support feature"@),
        ),
    }
}

/// `format.json_decode`.
pub fn json_decode(args: &[Value]) -> (r: Result<Value, HostError>)
    ensures
        outcome(r) == json_decode_result(views_of(args@)),
{
    match arg_str(args, 0) {
        Some(_) => Err(HostError::host_function("json_decode requires serde-support feature")),
        None => Err(HostError::host_function("format.json_decode: missing JSON string")),
    }
}

} // verus!
