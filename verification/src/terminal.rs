//! Terminal module: colours and the operations that need a terminal.
//!
//! Reading keys, the clipboard, clearing the screen and moving the cursor
//! are not provided: each of them answers with an error that says so.

use vstd::prelude::*;
use crate::error::{HostError, HostErrorKind};
use crate::text::{chars_of, concat3, lowercase, push_str, str_eq, string_from_chars, to_lowercase};
use crate::value::{
    arg_int, arg_str, int_arg, outcome, push_item, text_arg, views_of, HostOutcome, Value,
    ValueView,
};

verus! {

/// The error for an operation that is not provided.
pub open spec fn not_provided(message: Seq<char>) -> HostOutcome {
    Err((HostErrorKind::HostFunction, message))
}

/// `terminal.read_key`: not provided.
pub fn read_key(_args: &[Value]) -> (r: Result<Value, HostError>)
    ensures
        outcome(r) == not_provided("terminal.read_key: not yet implemented"@),
{
    Err(HostError::host_function("terminal.read_key: not yet implemented"))
}

/// `terminal.size`: the size of the terminal as the list of its columns
/// and rows, which is always 80 by 24.
pub fn size(_args: &[Value]) -> (r: Result<Value, HostError>)
    ensures
        outcome(r) == Ok::<ValueView, (HostErrorKind, Seq<char>)>(
            ValueView::List(seq![ValueView::Int(80), ValueView::Int(24)]),
        ),
{
    let mut items: Vec<Value> = Vec::new();
    assert(views_of(items@) =~= Seq::<ValueView>::empty());
    push_item(&mut items, Value::Int(80));
    push_item(&mut items, Value::Int(24));
    assert(views_of(items@) =~= seq![ValueView::Int(80), ValueView::Int(24)]);
    Ok(Value::List(items))
}

/// `terminal.clipboard_read`: not provided.
pub fn clipboard_read(_args: &[Value]) -> (r: Result<Value, HostError>)
    ensures
        outcome(r) == not_provided("terminal.clipboard_read: not yet implemented"@),
{
    Err(HostError::host_function("terminal.clipboard_read: not yet implemented"))
}

/// What `terminal.clipboard_write` gives for `args`.
pub open spec fn clipboard_write_result(args: Seq<ValueView>) -> HostOutcome {
    match text_arg(args, 0) {
        None => not_provided("terminal.clipboard_write: missing text argument"@),
        Some(_) => not_provided("terminal.clipboard_write: not yet implemented"@),
    }
}

/// `terminal.clipboard_write`: not provided; a call without a text is
/// refused for that first.
pub fn clipboard_write(args: &[Value]) -> (r: Result<Value, HostError>)
    ensures
        outcome(r) == clipboard_write_result(views_of(args@)),
{
    match arg_str(args, 0) {
        Some(_) => Err(HostError::host_function("terminal.clipboard_write: not yet implemented")),
        None => Err(HostError::host_function("terminal.clipboard_write: missing text argument")),
    }
}

/// The code of a colour by its name in lower case.
pub open spec fn color_code(name: Seq<char>) -> Option<Seq<char>> {
    if name == "red"@ {
        Some("31"@)
    } else if name == "green"@ {
        Some("32"@)
    } else if name == "yellow"@ {
        Some("33"@)
    } else if name == "blue"@ {
        Some("34"@)
    } else if name == "magenta"@ {
        Some("35"@)
    } else if name == "cyan"@ {
        Some("36"@)
    } else if name == "white"@ {
        Some("37"@)
    } else {
        None
    }
}

/// What `terminal.colorize` gives for `args`: the text between the escape
/// sequence of the colour and the sequence that resets it.
pub open spec fn colorize_result(args: Seq<ValueView>) -> HostOutcome {
    match text_arg(args, 0) {
        None => not_provided("terminal.colorize: missing text argument"@),
        Some(text) => match text_arg(args, 1) {
            None => not_provided("terminal.colorize: missing color argument"@),
            Some(color) => match color_code(lowercase(color)) {
                None => not_provided("terminal.colorize: unknown color '"@ + color + "'"@),
                Some(code) => Ok(
                    ValueView::Text("\x1b["@ + code + "m"@ + text + "\x1b[0m"@),
                ),
            },
        },
    }
}

fn code_of(name: &str) -> (r: Option<&'static str>)
    ensures
        r is Some <==> color_code(name@) is Some,
        r matches Some(code) ==> color_code(name@) == Some(code@),
{
    if str_eq(name, "red") {
        Some("31")
    } else if str_eq(name, "green") {
        Some("32")
    } else if str_eq(name, "yellow") {
        Some("33")
    } else if str_eq(name, "blue") {
        Some("34")
    } else if str_eq(name, "magenta") {
        Some("35")
    } else if str_eq(name, "cyan") {
        Some("36")
    } else if str_eq(name, "white") {
        Some("37")
    } else {
        None
    }
}

/// `terminal.colorize`: the text in the first argument in the colour
/// named by the second; the name is taken in lower case.
pub fn colorize(args: &[Value]) -> (r: Result<Value, HostError>)
    ensures
        outcome(r) == colorize_result(views_of(args@)),
{
    let text = match arg_str(args, 0) {
        Some(t) => t,
        None => {
            return Err(HostError::host_function("terminal.colorize: missing text argument"));
        },
    };
    let color = match arg_str(args, 1) {
        Some(c) => c,
        None => {
            return Err(HostError::host_function("terminal.colorize: missing color argument"));
        },
    };
    let lowered = to_lowercase(color);
    let code = match code_of(lowered.as_str()) {
        Some(c) => c,
        None => {
            let message = concat3("terminal.colorize: unknown color '", color, "'");
            return Err(HostError::host_function(message.as_str()));
        },
    };
    let mut out = chars_of("\x1b[");
    push_str(&mut out, code);
    push_str(&mut out, "m");
    push_str(&mut out, text);
    push_str(&mut out, "\x1b[0m");
    Ok(Value::String(string_from_chars(&out)))
}

/// `terminal.clear`: not provided.
pub fn clear(_args: &[Value]) -> (r: Result<Value, HostError>)
    ensures
        outcome(r) == not_provided("terminal.clear: not yet implemented"@),
{
    Err(HostError::host_function("terminal.clear: not yet implemented"))
}

/// What `terminal.set_cursor` gives for `args`.
pub open spec fn set_cursor_result(args: Seq<ValueView>) -> HostOutcome {
    match int_arg(args, 0) {
        None => not_provided("terminal.set_cursor: missing x argument"@),
        Some(_) => match int_arg(args, 1) {
            None => not_provided("terminal.set_cursor: missing y argument"@),
            Some(_) => not_provided("terminal.set_cursor: not yet implemented"@),
        },
    }
}

/// `terminal.set_cursor`: not provided; a call without the column or the
/// row is refused for that first.
pub fn set_cursor(args: &[Value]) -> (r: Result<Value, HostError>)
    ensures
        outcome(r) == set_cursor_result(views_of(args@)),
{
    match arg_int(args, 0) {
        Some(_) => {},
        None => {
            return Err(HostError::host_function("terminal.set_cursor: missing x argument"));
        },
    }
    match arg_int(args, 1) {
        Some(_) => {},
        None => {
            return Err(HostError::host_function("terminal.set_cursor: missing y argument"));
        },
    }
    Err(HostError::host_function("terminal.set_cursor: not yet implemented"))
}

} // verus!
