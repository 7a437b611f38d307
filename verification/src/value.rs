//! The values that pass between a script and the host functions.
//!
//! `Value` is the executable form; `ValueView` is its mathematical model, in
//! which texts are sequences of characters and lists are sequences. A
//! dictionary keeps its entries in the order in which they were given; of
//! two entries with one key, a lookup finds the earlier.

use vstd::prelude::*;
use crate::error::{HostError, HostErrorKind};
use crate::host::{float_of_int, int_as_float};
use crate::text::{copy_str, str_eq};

verus! {

/// A floating-point number: its IEEE 754 bit pattern and its decimal
/// rendering, both as the embedding program supplied them.
#[derive(Debug, Clone, PartialEq)]
pub struct Float {
    /// The 64 bits of the number.
    pub bits: u64,
    /// The number in decimal notation.
    pub text: String,
}

/// A value of the scripting language.
#[derive(Debug, PartialEq)]
pub enum Value {
    /// The null value.
    Null,
    /// A boolean.
    Bool(bool),
    /// A signed integer of 64 bits.
    Int(i64),
    /// A floating-point number.
    Float(Float),
    /// A text.
    String(String),
    /// A list of values.
    List(Vec<Value>),
    /// A dictionary: entries of a key and a value.
    Dict(Vec<(String, Value)>),
    /// A reference to a function of the script, with its name if known.
    Function(Option<String>),
    /// Binary data.
    Bytes(Vec<u8>),
    /// An error value with its message.
    Error(String),
}

/// The mathematical model of a `Value`.
pub enum ValueView {
    Null,
    Bool(bool),
    Int(i64),
    Float(u64, Seq<char>),
    Text(Seq<char>),
    List(Seq<ValueView>),
    Dict(Seq<(Seq<char>, ValueView)>),
    Function(Option<Seq<char>>),
    Bytes(Seq<u8>),
    Error(Seq<char>),
}

/// The models of the first `n` values of `l`.
pub open spec fn views_upto(l: Seq<Value>, n: int) -> Seq<ValueView>
    decreases l, n,
{
    if n <= 0 || n > l.len() {
        Seq::empty()
    } else {
        views_upto(l, n - 1).push(l[n - 1].view())
    }
}

/// The models of the first `n` entries of `m`.
pub open spec fn entries_upto(m: Seq<(String, Value)>, n: int) -> Seq<(Seq<char>, ValueView)>
    decreases m, n,
{
    if n <= 0 || n > m.len() {
        Seq::empty()
    } else {
        entries_upto(m, n - 1).push((m[n - 1].0@, m[n - 1].1.view()))
    }
}

/// The models of the values of `l`.
pub open spec fn views_of(l: Seq<Value>) -> Seq<ValueView> {
    views_upto(l, l.len() as int)
}

/// The models of the entries of `m`.
pub open spec fn entry_views(m: Seq<(String, Value)>) -> Seq<(Seq<char>, ValueView)> {
    entries_upto(m, m.len() as int)
}

impl View for Value {
    type V = ValueView;

    open spec fn view(&self) -> ValueView
        decreases self,
    {
        match self {
            Value::Null => ValueView::Null,
            Value::Bool(b) => ValueView::Bool(*b),
            Value::Int(i) => ValueView::Int(*i),
            Value::Float(f) => ValueView::Float(f.bits, f.text@),
            Value::String(s) => ValueView::Text(s@),
            Value::List(l) => ValueView::List(views_upto(l@, l@.len() as int)),
            Value::Dict(m) => ValueView::Dict(entries_upto(m@, m@.len() as int)),
            Value::Function(name) => ValueView::Function(
                match name {
                    Some(n) => Some(n@),
                    None => None,
                },
            ),
            Value::Bytes(b) => ValueView::Bytes(b@),
            Value::Error(e) => ValueView::Error(e@),
        }
    }
}

/// `views_upto` holds the models of the first `n` values, one for one.
pub proof fn lemma_views_upto(l: Seq<Value>, n: int)
    requires
        0 <= n <= l.len(),
    ensures
        views_upto(l, n).len() == n,
        forall|i: int| 0 <= i < n ==> (#[trigger] views_upto(l, n)[i]) == l[i]@,
    decreases n,
{
    reveal_with_fuel(views_upto, 2);
    if n > 0 {
        lemma_views_upto(l, n - 1);
        assert(views_upto(l, n) == views_upto(l, n - 1).push(l[n - 1]@));
    } else {
        assert(views_upto(l, n) =~= Seq::<ValueView>::empty());
    }
}

/// `entries_upto` holds the models of the first `n` entries, one for one.
pub proof fn lemma_entries_upto(m: Seq<(String, Value)>, n: int)
    requires
        0 <= n <= m.len(),
    ensures
        entries_upto(m, n).len() == n,
        forall|i: int|
            0 <= i < n ==> (#[trigger] entries_upto(m, n)[i]) == (m[i].0@, m[i].1@),
    decreases n,
{
    reveal_with_fuel(entries_upto, 2);
    if n > 0 {
        lemma_entries_upto(m, n - 1);
        assert(entries_upto(m, n) == entries_upto(m, n - 1).push((m[n - 1].0@, m[n - 1].1@)));
    } else {
        assert(entries_upto(m, n) =~= Seq::<(Seq<char>, ValueView)>::empty());
    }
}

/// The models of a list are the models of its values, one for one.
pub proof fn lemma_views_of(l: Seq<Value>)
    ensures
        views_of(l).len() == l.len(),
        forall|i: int| 0 <= i < l.len() ==> (#[trigger] views_of(l)[i]) == l[i]@,
{
    lemma_views_upto(l, l.len() as int);
}

/// The models of a dictionary's entries are those of its entries, one for
/// one.
pub proof fn lemma_entry_views(m: Seq<(String, Value)>)
    ensures
        entry_views(m).len() == m.len(),
        forall|i: int| 0 <= i < m.len() ==> (#[trigger] entry_views(m)[i]) == (m[i].0@, m[i].1@),
{
    lemma_entries_upto(m, m.len() as int);
}

/// Pushing a value onto a list pushes its model.
pub proof fn lemma_views_push(l: Seq<Value>, v: Value)
    ensures
        views_of(l.push(v)) == views_of(l).push(v@),
{
    lemma_views_of(l);
    lemma_views_of(l.push(v));
    assert(views_of(l.push(v)) =~= views_of(l).push(v@));
}

/// Pushing an entry onto a dictionary pushes its model.
pub proof fn lemma_entries_push(m: Seq<(String, Value)>, key: String, v: Value)
    ensures
        entry_views(m.push((key, v))) == entry_views(m).push((key@, v@)),
{
    lemma_entry_views(m);
    lemma_entry_views(m.push((key, v)));
    assert(entry_views(m.push((key, v))) =~= entry_views(m).push((key@, v@)));
}

/// The value of the first entry of `entries` whose key is `key`.
pub open spec fn lookup(entries: Seq<(Seq<char>, ValueView)>, key: Seq<char>) -> Option<ValueView>
    decreases entries.len(),
{
    if entries.len() == 0 {
        None
    } else if entries[0].0 == key {
        Some(entries[0].1)
    } else {
        lookup(entries.drop_first(), key)
    }
}

/// The keys of a dictionary's entries are pairwise different.
pub open spec fn distinct_keys(entries: Seq<(Seq<char>, ValueView)>) -> bool {
    forall|i: int, j: int| 0 <= i < j < entries.len() ==> entries[i].0 != entries[j].0
}

/// In a dictionary with pairwise different keys, a lookup finds the value
/// of any entry by its key.
pub proof fn lemma_lookup_finds(entries: Seq<(Seq<char>, ValueView)>, i: int)
    requires
        distinct_keys(entries),
        0 <= i < entries.len(),
    ensures
        lookup(entries, entries[i].0) == Some(entries[i].1),
    decreases entries.len(),
{
    if i > 0 {
        let rest = entries.drop_first();
        assert(entries[0].0 != entries[i].0);
        assert forall|a: int, b: int| 0 <= a < b < rest.len() implies rest[a].0 != rest[b].0 by {
            assert(rest[a] == entries[a + 1]);
            assert(rest[b] == entries[b + 1]);
        }
        assert(rest[i - 1] == entries[i]);
        lemma_lookup_finds(rest, i - 1);
    }
}

/// A lookup finds nothing exactly when no entry has the key.
pub proof fn lemma_lookup_none(entries: Seq<(Seq<char>, ValueView)>, key: Seq<char>)
    ensures
        lookup(entries, key) is None <==> (forall|i: int|
            0 <= i < entries.len() ==> (#[trigger] entries[i]).0 != key),
    decreases entries.len(),
{
    if entries.len() > 0 {
        let rest = entries.drop_first();
        lemma_lookup_none(rest, key);
        if entries[0].0 != key {
            if lookup(rest, key) is None {
                assert forall|i: int| 0 <= i < entries.len() implies (#[trigger] entries[i]).0
                    != key by {
                    if i > 0 {
                        assert(rest[i - 1] == entries[i]);
                    }
                }
            } else {
                let i = choose|i: int| 0 <= i < rest.len() && (#[trigger] rest[i]).0 == key;
                assert(entries[i + 1] == rest[i]);
            }
        }
    }
}

impl ValueView {
    /// The text of a text value.
    pub open spec fn as_text(self) -> Option<Seq<char>> {
        match self {
            ValueView::Text(s) => Some(s),
            _ => None,
        }
    }

    /// The number of an integer value.
    pub open spec fn as_int(self) -> Option<i64> {
        match self {
            ValueView::Int(i) => Some(i),
            _ => None,
        }
    }

    /// The truth value of a boolean value.
    pub open spec fn as_bool(self) -> Option<bool> {
        match self {
            ValueView::Bool(b) => Some(b),
            _ => None,
        }
    }

    /// The number as a floating-point number, by its bits and its decimal
    /// rendering: that of a floating-point value, and for an integer the
    /// nearest floating-point number.
    pub open spec fn as_float(self) -> Option<(u64, Seq<char>)> {
        match self {
            ValueView::Float(bits, text) => Some((bits, text)),
            ValueView::Int(i) => Some(float_of_int(i)),
            _ => None,
        }
    }

    /// The items of a list value.
    pub open spec fn as_list(self) -> Option<Seq<ValueView>> {
        match self {
            ValueView::List(l) => Some(l),
            _ => None,
        }
    }

    /// The entries of a dictionary value.
    pub open spec fn as_dict(self) -> Option<Seq<(Seq<char>, ValueView)>> {
        match self {
            ValueView::Dict(m) => Some(m),
            _ => None,
        }
    }
}

/// What a host function gives, as a mathematical value: the model of its
/// value, or the kind and the message of its failure.
pub type HostOutcome = Result<ValueView, (HostErrorKind, Seq<char>)>;

/// The outcome that the result of a host function stands for.
pub open spec fn outcome(r: Result<Value, HostError>) -> HostOutcome {
    match r {
        Ok(v) => Ok(v@),
        Err(e) => Err(e@),
    }
}

/// The model of the argument at position `i`, if there is one.
pub open spec fn arg_at(args: Seq<ValueView>, i: int) -> Option<ValueView> {
    if 0 <= i < args.len() {
        Some(args[i])
    } else {
        None
    }
}

/// The text of the argument at position `i`, if it is a text.
pub open spec fn text_arg(args: Seq<ValueView>, i: int) -> Option<Seq<char>> {
    match arg_at(args, i) {
        Some(v) => v.as_text(),
        None => None,
    }
}

/// The number of the argument at position `i`, if it is an integer.
pub open spec fn int_arg(args: Seq<ValueView>, i: int) -> Option<i64> {
    match arg_at(args, i) {
        Some(v) => v.as_int(),
        None => None,
    }
}

/// The entries of the argument at position `i`, if it is a dictionary.
pub open spec fn dict_arg(args: Seq<ValueView>, i: int) -> Option<Seq<(Seq<char>, ValueView)>> {
    match arg_at(args, i) {
        Some(v) => v.as_dict(),
        None => None,
    }
}

impl Value {
    /// A text value.
    pub fn string(s: &str) -> (r: Value)
        ensures
            r@ == ValueView::Text(s@),
    {
        Value::String(copy_str(s))
    }

    /// The null value.
    pub fn null() -> (r: Value)
        ensures
            r@ == ValueView::Null,
    {
        Value::Null
    }

    /// An error value.
    pub fn error(msg: &str) -> (r: Value)
        ensures
            r@ == ValueView::Error(msg@),
    {
        Value::Error(copy_str(msg))
    }

    /// Whether the value is null.
    pub fn is_null(&self) -> (r: bool)
        ensures
            r == (self@ == ValueView::Null),
    {
        match self {
            Value::Null => true,
            _ => false,
        }
    }

    /// Whether the value is an error value.
    pub fn is_error(&self) -> (r: bool)
        ensures
            r == (self@ is Error),
    {
        match self {
            Value::Error(_) => true,
            _ => false,
        }
    }

    /// The truth value, if the value is a boolean.
    pub fn as_bool(&self) -> (r: Option<bool>)
        ensures
            r == self@.as_bool(),
    {
        match self {
            Value::Bool(b) => Some(*b),
            _ => None,
        }
    }

    /// The number, if the value is an integer.
    pub fn as_int(&self) -> (r: Option<i64>)
        ensures
            r == self@.as_int(),
    {
        match self {
            Value::Int(i) => Some(*i),
            _ => None,
        }
    }

    /// The number as a floating-point number, if the value is a
    /// floating-point number or an integer.
    pub fn as_float(&self) -> (r: Option<Float>)
        ensures
            r is Some <==> self@.as_float() is Some,
            r matches Some(f) ==> self@.as_float() == Some((f.bits, f.text@)),
    {
        match self {
            Value::Float(f) => Some(copy_float(f)),
            Value::Int(i) => Some(int_as_float(*i)),
            _ => None,
        }
    }

    /// The text, if the value is a text.
    pub fn as_str(&self) -> (r: Option<&str>)
        ensures
            r is Some <==> self@.as_text() is Some,
            r matches Some(s) ==> self@.as_text() == Some(s@),
    {
        match self {
            Value::String(s) => Some(s.as_str()),
            _ => None,
        }
    }

    /// The items, if the value is a list.
    pub fn as_list(&self) -> (r: Option<&Vec<Value>>)
        ensures
            r is Some <==> self@.as_list() is Some,
            r matches Some(l) ==> self@.as_list() == Some(views_of(l@)) && *self == Value::List(*l),
    {
        match self {
            Value::List(l) => Some(l),
            _ => None,
        }
    }

    /// The entries, if the value is a dictionary.
    pub fn as_map(&self) -> (r: Option<&Vec<(String, Value)>>)
        ensures
            r is Some <==> self@.as_dict() is Some,
            r matches Some(m) ==> self@.as_dict() == Some(entry_views(m@)) && *self == Value::Dict(
                *m,
            ),
    {
        match self {
            Value::Dict(m) => Some(m),
            _ => None,
        }
    }

    /// The bytes, if the value is binary data.
    pub fn as_bytes(&self) -> (r: Option<&Vec<u8>>)
        ensures
            r is Some <==> self@ is Bytes,
            r matches Some(b) ==> self@ == ValueView::Bytes(b@),
    {
        match self {
            Value::Bytes(b) => Some(b),
            _ => None,
        }
    }

    /// The message, if the value is an error value.
    pub fn as_error(&self) -> (r: Option<&str>)
        ensures
            r is Some <==> self@ is Error,
            r matches Some(e) ==> self@ == ValueView::Error(e@),
    {
        match self {
            Value::Error(e) => Some(e.as_str()),
            _ => None,
        }
    }
}

/// A copy of a floating-point number.
pub fn copy_float(f: &Float) -> (r: Float)
    ensures
        r.bits == f.bits,
        r.text@ == f.text@,
{
    Float { bits: f.bits, text: f.text.clone() }
}

/// A copy of a value.
pub fn copy_value(value: &Value) -> (r: Value)
    ensures
        r@ == value@,
    decreases value,
{
    match value {
        Value::Null => Value::Null,
        Value::Bool(b) => Value::Bool(*b),
        Value::Int(i) => Value::Int(*i),
        Value::Float(f) => Value::Float(copy_float(f)),
        Value::String(s) => Value::String(s.clone()),
        Value::List(items) => {
            let mut out: Vec<Value> = Vec::new();
            let mut i: usize = 0;
            proof {
                lemma_views_of(items@);
            }
            assert(views_of(out@) =~= views_of(items@).take(0)) by {
                lemma_views_of(out@);
            }
            while i < items.len()
                invariant
                    i <= items.len(),
                    *value == Value::List(*items),
                    views_of(items@).len() == items@.len(),
                    views_of(out@) == views_of(items@).take(i as int),
                decreases items.len() - i,
            {
                proof {
                    assert(decreases_to!(*items => items[i as int]));
                    assert(decreases_to!(*value => value->List_0));
                }
                let item = copy_value(&items[i]);
                proof {
                    lemma_views_push(out@, item);
                    lemma_views_of(items@);
                    assert(views_of(items@).take(i + 1) =~= views_of(items@).take(i as int).push(
                        items@[i as int]@,
                    ));
                }
                out.push(item);
                i += 1;
            }
            assert(views_of(items@).take(items@.len() as int) =~= views_of(items@));
            Value::List(out)
        },
        Value::Dict(map) => {
            let mut out: Vec<(String, Value)> = Vec::new();
            let mut i: usize = 0;
            proof {
                lemma_entry_views(map@);
            }
            assert(entry_views(out@) =~= entry_views(map@).take(0)) by {
                lemma_entry_views(out@);
            }
            while i < map.len()
                invariant
                    i <= map.len(),
                    *value == Value::Dict(*map),
                    entry_views(map@).len() == map@.len(),
                    entry_views(out@) == entry_views(map@).take(i as int),
                decreases map.len() - i,
            {
                proof {
                    assert(decreases_to!(*map => map[i as int]));
                    assert(decreases_to!(map[i as int] => map[i as int].1));
                    assert(decreases_to!(*value => value->Dict_0));
                }
                let key = map[i].0.clone();
                let item = copy_value(&map[i].1);
                proof {
                    lemma_entries_push(out@, key, item);
                    lemma_entry_views(map@);
                    assert(entry_views(map@).take(i + 1) =~= entry_views(map@).take(
                        i as int,
                    ).push((map@[i as int].0@, map@[i as int].1@)));
                }
                out.push((key, item));
                i += 1;
            }
            assert(entry_views(map@).take(map@.len() as int) =~= entry_views(map@));
            Value::Dict(out)
        },
        Value::Function(name) => Value::Function(
            match name {
                Some(n) => Some(n.clone()),
                None => None,
            },
        ),
        Value::Bytes(b) => Value::Bytes(b.clone()),
        Value::Error(e) => Value::Error(e.clone()),
    }
}

impl Clone for Value {
    fn clone(&self) -> (r: Self)
        ensures
            r@ == self@,
    {
        copy_value(self)
    }
}

/// The value of the first entry of `entries` whose key is `key`.
pub fn dict_get<'a>(entries: &'a Vec<(String, Value)>, key: &str) -> (r: Option<&'a Value>)
    ensures
        r is Some <==> lookup(entry_views(entries@), key@) is Some,
        r matches Some(v) ==> lookup(entry_views(entries@), key@) == Some(v@),
{
    let mut i: usize = 0;
    proof {
        lemma_entry_views(entries@);
        assert(entry_views(entries@).skip(0) =~= entry_views(entries@));
    }
    while i < entries.len()
        invariant
            i <= entries.len(),
            entry_views(entries@).len() == entries@.len(),
            forall|k: int|
                0 <= k < entries@.len() ==> (#[trigger] entry_views(entries@)[k]) == (
                    entries@[k].0@,
                    entries@[k].1@,
                ),
            lookup(entry_views(entries@), key@) == lookup(
                entry_views(entries@).skip(i as int),
                key@,
            ),
        decreases entries.len() - i,
    {
        let ghost rest = entry_views(entries@).skip(i as int);
        assert(rest[0] == entry_views(entries@)[i as int]);
        if str_eq(entries[i].0.as_str(), key) {
            return Some(&entries[i].1);
        }
        assert(rest.drop_first() =~= entry_views(entries@).skip(i + 1));
        i += 1;
    }
    None
}

/// The argument at position `i`, if there is one.
pub fn arg<'a>(args: &'a [Value], i: usize) -> (r: Option<&'a Value>)
    ensures
        r is Some <==> i < args@.len(),
        r matches Some(v) ==> *v == args@[i as int] && arg_at(views_of(args@), i as int) == Some(
            v@,
        ),
        r is None ==> arg_at(views_of(args@), i as int) is None,
{
    proof {
        lemma_views_of(args@);
    }
    if i < args.len() {
        Some(&args[i])
    } else {
        None
    }
}

/// The text of the argument at position `i`, if it is a text.
pub fn arg_str<'a>(args: &'a [Value], i: usize) -> (r: Option<&'a str>)
    ensures
        r is Some <==> text_arg(views_of(args@), i as int) is Some,
        r matches Some(s) ==> text_arg(views_of(args@), i as int) == Some(s@),
{
    match arg(args, i) {
        Some(v) => v.as_str(),
        None => None,
    }
}

/// The number of the argument at position `i`, if it is an integer.
pub fn arg_int(args: &[Value], i: usize) -> (r: Option<i64>)
    ensures
        r == int_arg(views_of(args@), i as int),
{
    match arg(args, i) {
        Some(v) => v.as_int(),
        None => None,
    }
}

/// The entries of the argument at position `i`, if it is a dictionary.
pub fn arg_map<'a>(args: &'a [Value], i: usize) -> (r: Option<&'a Vec<(String, Value)>>)
    ensures
        r is Some <==> dict_arg(views_of(args@), i as int) is Some,
        r matches Some(m) ==> dict_arg(views_of(args@), i as int) == Some(entry_views(m@)),
{
    match arg(args, i) {
        Some(v) => v.as_map(),
        None => None,
    }
}

/// Appends the entry of `key` and `value` to the entries of a dictionary.
pub fn push_entry(entries: &mut Vec<(String, Value)>, key: &str, value: Value)
    ensures
        entry_views(final(entries)@) == entry_views(old(entries)@).push((key@, value@)),
{
    let k = copy_str(key);
    proof {
        lemma_entries_push(entries@, k, value);
    }
    entries.push((k, value));
}

/// The entries with `value` under `key`: in place of the first entry with
/// that key, or as a new last entry.
pub open spec fn with_entry(
    entries: Seq<(Seq<char>, ValueView)>,
    key: Seq<char>,
    value: ValueView,
) -> Seq<(Seq<char>, ValueView)>
    decreases entries.len(),
{
    if entries.len() == 0 {
        seq![(key, value)]
    } else if entries[0].0 == key {
        seq![(key, value)] + entries.drop_first()
    } else {
        seq![entries[0]] + with_entry(entries.drop_first(), key, value)
    }
}

/// What `with_entry` does: it replaces the first entry with the key, or
/// appends an entry where no entry has it.
pub proof fn lemma_with_entry(
    entries: Seq<(Seq<char>, ValueView)>,
    key: Seq<char>,
    value: ValueView,
    at: int,
)
    requires
        0 <= at <= entries.len(),
        forall|k: int| 0 <= k < at ==> (#[trigger] entries[k]).0 != key,
        at < entries.len() ==> entries[at].0 == key,
    ensures
        with_entry(entries, key, value) == if at < entries.len() {
            entries.update(at, (key, value))
        } else {
            entries.push((key, value))
        },
    decreases entries.len(),
{
    if entries.len() == 0 {
        assert(with_entry(entries, key, value) =~= entries.push((key, value)));
    } else if at == 0 {
        assert(with_entry(entries, key, value) =~= entries.update(0, (key, value)));
    } else {
        let rest = entries.drop_first();
        assert(entries[0].0 != key);
        assert forall|k: int| 0 <= k < at - 1 implies (#[trigger] rest[k]).0 != key by {
            assert(rest[k] == entries[k + 1]);
        }
        if at < entries.len() {
            assert(rest[at - 1] == entries[at]);
        }
        lemma_with_entry(rest, key, value, at - 1);
        if at < entries.len() {
            assert(seq![entries[0]] + rest.update(at - 1, (key, value)) =~= entries.update(
                at,
                (key, value),
            ));
        } else {
            assert(seq![entries[0]] + rest.push((key, value)) =~= entries.push((key, value)));
        }
    }
}

/// Stores `value` under `key` in the entries of a dictionary, replacing
/// the value of the first entry with that key if there is one.
pub fn set_entry(entries: &mut Vec<(String, Value)>, key: &str, value: Value)
    ensures
        entry_views(final(entries)@) == with_entry(entry_views(old(entries)@), key@, value@),
{
    let ghost models = entry_views(entries@);
    proof {
        lemma_entry_views(entries@);
    }
    let mut at: usize = 0;
    let mut found = false;
    while at < entries.len() && !found
        invariant
            entries@ == old(entries)@,
            at <= entries.len(),
            models == entry_views(entries@),
            models.len() == entries@.len(),
            forall|k: int|
                0 <= k < entries@.len() ==> (#[trigger] models[k]) == (
                    entries@[k].0@,
                    entries@[k].1@,
                ),
            forall|k: int| 0 <= k < at ==> (#[trigger] models[k]).0 != key@,
            found ==> at < entries.len() && models[at as int].0 == key@,
        decreases entries.len() - at + if found { 0int } else { 1int },
    {
        if str_eq(entries[at].0.as_str(), key) {
            found = true;
        } else {
            at += 1;
        }
    }
    proof {
        lemma_with_entry(models, key@, value@, at as int);
    }
    let k = copy_str(key);
    if at < entries.len() {
        entries.set(at, (k, value));
        proof {
            lemma_entry_views(entries@);
            assert(entry_views(entries@) =~= models.update(at as int, (key@, value@)));
        }
    } else {
        proof {
            lemma_entries_push(entries@, k, value);
        }
        entries.push((k, value));
    }
}

/// Appends `value` to the items of a list.
pub fn push_item(items: &mut Vec<Value>, value: Value)
    ensures
        views_of(final(items)@) == views_of(old(items)@).push(value@),
{
    proof {
        lemma_views_push(items@, value);
    }
    items.push(value);
}

} // verus!
