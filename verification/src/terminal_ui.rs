//! Terminal user interface: how values are shown, and which keys quit.
//!
//! The widgets are built by the embedding program; this module says what
//! they show.

use vstd::prelude::*;
use crate::text::{
    chars_of, decimal, decimal_int, push_decimal, push_decimal_int, push_str, string_from_chars,
};
use crate::value::{lemma_entry_views, lemma_views_of, Value, ValueView};

verus! {

/// The colours in which values are shown.
#[derive(Debug, Clone, Copy, PartialEq, Eq, Structural)]
pub enum Color {
    DarkGray,
    Yellow,
    Cyan,
    Green,
    Magenta,
    Blue,
    Red,
}

/// A text with its colour.
#[derive(Debug)]
pub struct StyledText {
    /// The text.
    pub content: String,
    /// The colour of the text.
    pub color: Color,
}

/// The text that shows a value: numbers as they are, a text between
/// quotes, a list, a dictionary and binary data by their sizes.
pub open spec fn shown_text(v: ValueView) -> Seq<char> {
    match v {
        ValueView::Null => "null"@,
        ValueView::Bool(b) => if b {
            "true"@
        } else {
            "false"@
        },
        ValueView::Int(n) => decimal_int(n as int),
        ValueView::Float(_, text) => text,
        ValueView::Text(s) => "\""@ + s + "\""@,
        ValueView::List(items) => "["@ + decimal(items.len()) + " items]"@,
        ValueView::Dict(entries) => "{"@ + decimal(entries.len()) + " entries}"@,
        ValueView::Bytes(b) => "<"@ + decimal(b.len()) + " bytes>"@,
        ValueView::Function(_) => "<function>"@,
        ValueView::Error(e) => "error: "@ + e,
    }
}

/// The colour that shows a value.
pub open spec fn shown_color(v: ValueView) -> Color {
    match v {
        ValueView::Null => Color::DarkGray,
        ValueView::Bool(_) => Color::Yellow,
        ValueView::Int(_) => Color::Cyan,
        ValueView::Float(_, _) => Color::Cyan,
        ValueView::Text(_) => Color::Green,
        ValueView::List(_) => Color::Magenta,
        ValueView::Dict(_) => Color::Blue,
        ValueView::Bytes(_) => Color::Red,
        ValueView::Function(_) => Color::Yellow,
        ValueView::Error(_) => Color::Red,
    }
}

fn sized(before: &str, size: usize, after: &str) -> (r: String)
    ensures
        r@ == before@ + decimal(size as nat) + after@,
{
    let mut out = chars_of(before);
    push_decimal(&mut out, size as u64);
    push_str(&mut out, after);
    string_from_chars(&out)
}

/// The text and the colour that show `value`.
pub fn value_to_span(value: &Value) -> (r: StyledText)
    ensures
        r.content@ == shown_text(value@),
        r.color == shown_color(value@),
{
    match value {
        Value::Null => StyledText { content: "null".to_owned(), color: Color::DarkGray },
        Value::Bool(b) => StyledText {
            content: if *b {
                "true".to_owned()
            } else {
                "false".to_owned()
            },
            color: Color::Yellow,
        },
        Value::Int(n) => {
            let mut out: Vec<char> = Vec::new();
            push_decimal_int(&mut out, *n);
            assert(out@ =~= decimal_int(*n as int));
            StyledText { content: string_from_chars(&out), color: Color::Cyan }
        },
        Value::Float(f) => StyledText { content: f.text.clone(), color: Color::Cyan },
        Value::String(s) => StyledText {
            content: crate::text::concat3("\"", s.as_str(), "\""),
            color: Color::Green,
        },
        Value::List(items) => {
            proof {
                lemma_views_of(items@);
            }
            StyledText { content: sized("[", items.len(), " items]"), color: Color::Magenta }
        },
        Value::Dict(map) => {
            proof {
                lemma_entry_views(map@);
            }
            StyledText { content: sized("{", map.len(), " entries}"), color: Color::Blue }
        },
        Value::Bytes(b) => StyledText {
            content: sized("<", b.len(), " bytes>"),
            color: Color::Red,
        },
        Value::Function(_) => StyledText { content: "<function>".to_owned(), color: Color::Yellow },
        Value::Error(e) => StyledText {
            content: crate::text::concat("error: ", e.as_str()),
            color: Color::Red,
        },
    }
}

/// The texts and colours that show `values`, one for each.
pub fn value_list(values: &[Value]) -> (r: Vec<StyledText>)
    ensures
        r@.len() == values@.len(),
        forall|i: int|
            0 <= i < values@.len() ==> (#[trigger] r@[i]).content@ == shown_text(values@[i]@)
                && r@[i].color == shown_color(values@[i]@),
{
    let mut out: Vec<StyledText> = Vec::new();
    let mut i: usize = 0;
    while i < values.len()
        invariant
            i <= values.len(),
            out@.len() == i,
            forall|k: int|
                0 <= k < i ==> (#[trigger] out@[k]).content@ == shown_text(values@[k]@)
                    && out@[k].color == shown_color(values@[k]@),
        decreases values.len() - i,
    {
        out.push(value_to_span(&values[i]));
        i += 1;
    }
    out
}

/// The code of a key.
#[derive(Debug, Clone, Copy, PartialEq, Eq, Structural)]
pub enum KeyCode {
    /// The key of a character.
    Char(char),
    /// Any other key.
    Other,
}

/// The bit of the control key among the modifiers of a key event.
pub const CONTROL: u8 = 0b0000_0010;

/// A key event: the code of the key and the modifiers held with it, one
/// bit for each modifier.
#[derive(Debug, Clone, Copy, PartialEq, Eq, Structural)]
pub struct KeyEvent {
    /// The code of the key.
    pub code: KeyCode,
    /// The modifiers held with the key.
    pub modifiers: u8,
}

/// Whether the key event asks to quit: `q` with any modifiers, or `c` with
/// the control key and no other modifier.
pub fn is_quit_key(event: &KeyEvent) -> (r: bool)
    ensures
        r == (event.code == KeyCode::Char('q') || (event.code == KeyCode::Char('c')
            && event.modifiers == CONTROL)),
{
    match event.code {
        KeyCode::Char(c) => c == 'q' || (c == 'c' && event.modifiers == CONTROL),
        KeyCode::Other => false,
    }
}

} // verus!
