//! JSON values, and the conversion between them and the values of the
//! scripting language.

use vstd::prelude::*;
use crate::text::{copy_str, string_from_chars};
use crate::value::{
    copy_float, entry_views, lemma_entries_push, lemma_entry_views, lemma_views_of,
    lemma_views_push, views_of, Float, Value, ValueView,
};

verus! {

/// A JSON value. The members of an object keep the order in which they
/// were given.
#[derive(Debug, PartialEq)]
pub enum Json {
    /// `null`.
    Null,
    /// `true` or `false`.
    Bool(bool),
    /// A number that is a signed integer of 64 bits.
    Int(i64),
    /// Any other number.
    Float(Float),
    /// A string.
    String(String),
    /// An array.
    Array(Vec<Json>),
    /// An object.
    Object(Vec<(String, Json)>),
}

/// The mathematical model of a `Json`.
pub enum JsonView {
    Null,
    Bool(bool),
    Int(i64),
    Float(u64, Seq<char>),
    Text(Seq<char>),
    Array(Seq<JsonView>),
    Object(Seq<(Seq<char>, JsonView)>),
}

/// The models of the first `n` values of `l`.
pub open spec fn json_views_upto(l: Seq<Json>, n: int) -> Seq<JsonView>
    decreases l, n,
{
    if n <= 0 || n > l.len() {
        Seq::empty()
    } else {
        json_views_upto(l, n - 1).push(l[n - 1].view())
    }
}

/// The models of the first `n` members of `m`.
pub open spec fn member_views_upto(m: Seq<(String, Json)>, n: int) -> Seq<(Seq<char>, JsonView)>
    decreases m, n,
{
    if n <= 0 || n > m.len() {
        Seq::empty()
    } else {
        member_views_upto(m, n - 1).push((m[n - 1].0@, m[n - 1].1.view()))
    }
}

/// The models of the values of `l`.
pub open spec fn json_views(l: Seq<Json>) -> Seq<JsonView> {
    json_views_upto(l, l.len() as int)
}

/// The models of the members of `m`.
pub open spec fn member_views(m: Seq<(String, Json)>) -> Seq<(Seq<char>, JsonView)> {
    member_views_upto(m, m.len() as int)
}

impl View for Json {
    type V = JsonView;

    open spec fn view(&self) -> JsonView
        decreases self,
    {
        match self {
            Json::Null => JsonView::Null,
            Json::Bool(b) => JsonView::Bool(*b),
            Json::Int(i) => JsonView::Int(*i),
            Json::Float(f) => JsonView::Float(f.bits, f.text@),
            Json::String(s) => JsonView::Text(s@),
            Json::Array(l) => JsonView::Array(json_views_upto(l@, l@.len() as int)),
            Json::Object(m) => JsonView::Object(member_views_upto(m@, m@.len() as int)),
        }
    }
}

proof fn lemma_json_views_upto(l: Seq<Json>, n: int)
    requires
        0 <= n <= l.len(),
    ensures
        json_views_upto(l, n).len() == n,
        forall|i: int| 0 <= i < n ==> (#[trigger] json_views_upto(l, n)[i]) == l[i]@,
    decreases n,
{
    reveal_with_fuel(json_views_upto, 2);
    if n > 0 {
        lemma_json_views_upto(l, n - 1);
        assert(json_views_upto(l, n) == json_views_upto(l, n - 1).push(l[n - 1]@));
    } else {
        assert(json_views_upto(l, n) =~= Seq::<JsonView>::empty());
    }
}

proof fn lemma_member_views_upto(m: Seq<(String, Json)>, n: int)
    requires
        0 <= n <= m.len(),
    ensures
        member_views_upto(m, n).len() == n,
        forall|i: int|
            0 <= i < n ==> (#[trigger] member_views_upto(m, n)[i]) == (m[i].0@, m[i].1@),
    decreases n,
{
    reveal_with_fuel(member_views_upto, 2);
    if n > 0 {
        lemma_member_views_upto(m, n - 1);
        assert(member_views_upto(m, n) == member_views_upto(m, n - 1).push(
            (m[n - 1].0@, m[n - 1].1@),
        ));
    } else {
        assert(member_views_upto(m, n) =~= Seq::<(Seq<char>, JsonView)>::empty());
    }
}

/// The models of an array are the models of its values, one for one.
pub proof fn lemma_json_views(l: Seq<Json>)
    ensures
        json_views(l).len() == l.len(),
        forall|i: int| 0 <= i < l.len() ==> (#[trigger] json_views(l)[i]) == l[i]@,
{
    lemma_json_views_upto(l, l.len() as int);
}

/// The models of an object's members are those of its members, one for
/// one.
pub proof fn lemma_member_views(m: Seq<(String, Json)>)
    ensures
        member_views(m).len() == m.len(),
        forall|i: int| 0 <= i < m.len() ==> (#[trigger] member_views(m)[i]) == (m[i].0@, m[i].1@),
{
    lemma_member_views_upto(m, m.len() as int);
}

/// Whether the 64 bits are those of a finite floating-point number: the
/// eleven bits of the exponent are not all set.
pub open spec fn finite(bits: u64) -> bool {
    (bits >> 52) & 0x7ff != 0x7ff
}

/// The hexadecimal digit of a value below sixteen, in lower case.
pub open spec fn hex_digit(d: int) -> char {
    if d == 0 {
        '0'
    } else if d == 1 {
        '1'
    } else if d == 2 {
        '2'
    } else if d == 3 {
        '3'
    } else if d == 4 {
        '4'
    } else if d == 5 {
        '5'
    } else if d == 6 {
        '6'
    } else if d == 7 {
        '7'
    } else if d == 8 {
        '8'
    } else if d == 9 {
        '9'
    } else if d == 10 {
        'a'
    } else if d == 11 {
        'b'
    } else if d == 12 {
        'c'
    } else if d == 13 {
        'd'
    } else if d == 14 {
        'e'
    } else {
        'f'
    }
}

/// The first `n` bytes of `bytes` in hexadecimal, two digits each.
pub open spec fn hex(bytes: Seq<u8>, n: int) -> Seq<char>
    decreases n,
{
    if n <= 0 || n > bytes.len() {
        Seq::empty()
    } else {
        hex(bytes, n - 1).push(hex_digit(bytes[n - 1] as int / 16)).push(
            hex_digit(bytes[n - 1] as int % 16),
        )
    }
}

/// The hexadecimal digit of `d`, in lower case.
pub fn hex_char(d: u8) -> (c: char)
    requires
        d < 16,
    ensures
        c == hex_digit(d as int),
{
    if d == 0 {
        '0'
    } else if d == 1 {
        '1'
    } else if d == 2 {
        '2'
    } else if d == 3 {
        '3'
    } else if d == 4 {
        '4'
    } else if d == 5 {
        '5'
    } else if d == 6 {
        '6'
    } else if d == 7 {
        '7'
    } else if d == 8 {
        '8'
    } else if d == 9 {
        '9'
    } else if d == 10 {
        'a'
    } else if d == 11 {
        'b'
    } else if d == 12 {
        'c'
    } else if d == 13 {
        'd'
    } else if d == 14 {
        'e'
    } else {
        'f'
    }
}

/// The bytes in hexadecimal, two digits each.
pub fn hex_string(bytes: &Vec<u8>) -> (r: String)
    ensures
        r@ == hex(bytes@, bytes@.len() as int),
{
    let mut out: Vec<char> = Vec::new();
    let mut i: usize = 0;
    while i < bytes.len()
        invariant
            i <= bytes.len(),
            out@ == hex(bytes@, i as int),
        decreases bytes.len() - i,
    {
        let b = bytes[i];
        out.push(hex_char(b / 16));
        out.push(hex_char(b % 16));
        i += 1;
    }
    string_from_chars(&out)
}

/// The JSON value of a value of the scripting language. A number that is
/// not finite becomes `null`, binary data its hexadecimal text, a function
/// the text `<function>`, and an error value an object with the member
/// `error`.
pub open spec fn to_json(v: ValueView) -> JsonView
    decreases v,
{
    match v {
        ValueView::Null => JsonView::Null,
        ValueView::Bool(b) => JsonView::Bool(b),
        ValueView::Int(i) => JsonView::Int(i),
        ValueView::Float(bits, text) => if finite(bits) {
            JsonView::Float(bits, text)
        } else {
            JsonView::Null
        },
        ValueView::Text(s) => JsonView::Text(s),
        ValueView::List(l) => JsonView::Array(to_json_items(l, l.len() as int)),
        ValueView::Dict(m) => JsonView::Object(to_json_members(m, m.len() as int)),
        ValueView::Bytes(b) => JsonView::Text(hex(b, b.len() as int)),
        ValueView::Function(_) => JsonView::Text("<function>"@),
        ValueView::Error(e) => JsonView::Object(seq![("error"@, JsonView::Text(e))]),
    }
}

/// The JSON values of the first `n` items of `l`.
pub open spec fn to_json_items(l: Seq<ValueView>, n: int) -> Seq<JsonView>
    decreases l, n,
{
    if n <= 0 || n > l.len() {
        Seq::empty()
    } else {
        to_json_items(l, n - 1).push(to_json(l[n - 1]))
    }
}

/// The JSON members of the first `n` entries of `m`.
pub open spec fn to_json_members(m: Seq<(Seq<char>, ValueView)>, n: int) -> Seq<
    (Seq<char>, JsonView),
>
    decreases m, n,
{
    if n <= 0 || n > m.len() {
        Seq::empty()
    } else {
        to_json_members(m, n - 1).push((m[n - 1].0, to_json(m[n - 1].1)))
    }
}

/// The value of the scripting language for a JSON value.
pub open spec fn from_json(j: JsonView) -> ValueView
    decreases j,
{
    match j {
        JsonView::Null => ValueView::Null,
        JsonView::Bool(b) => ValueView::Bool(b),
        JsonView::Int(i) => ValueView::Int(i),
        JsonView::Float(bits, text) => ValueView::Float(bits, text),
        JsonView::Text(s) => ValueView::Text(s),
        JsonView::Array(l) => ValueView::List(from_json_items(l, l.len() as int)),
        JsonView::Object(m) => ValueView::Dict(from_json_members(m, m.len() as int)),
    }
}

/// The values for the first `n` items of `l`.
pub open spec fn from_json_items(l: Seq<JsonView>, n: int) -> Seq<ValueView>
    decreases l, n,
{
    if n <= 0 || n > l.len() {
        Seq::empty()
    } else {
        from_json_items(l, n - 1).push(from_json(l[n - 1]))
    }
}

/// The entries for the first `n` members of `m`.
pub open spec fn from_json_members(m: Seq<(Seq<char>, JsonView)>, n: int) -> Seq<
    (Seq<char>, ValueView),
>
    decreases m, n,
{
    if n <= 0 || n > m.len() {
        Seq::empty()
    } else {
        from_json_members(m, n - 1).push((m[n - 1].0, from_json(m[n - 1].1)))
    }
}

fn is_finite(bits: u64) -> (r: bool)
    ensures
        r == finite(bits),
{
    (bits >> 52) & 0x7ff != 0x7ff
}

/// Converts a value of the scripting language to JSON.
pub fn fusabi_to_json(value: &Value) -> (r: Json)
    ensures
        r@ == to_json(value@),
    decreases value,
{
    match value {
        Value::Null => Json::Null,
        Value::Bool(b) => Json::Bool(*b),
        Value::Int(n) => Json::Int(*n),
        Value::Float(f) => {
            if is_finite(f.bits) {
                Json::Float(copy_float(f))
            } else {
                Json::Null
            }
        },
        Value::String(s) => Json::String(s.clone()),
        Value::List(items) => {
            let ghost models = views_of(items@);
            proof {
                lemma_views_of(items@);
            }
            let mut out: Vec<Json> = Vec::new();
            let mut i: usize = 0;
            assert(json_views(out@) =~= to_json_items(models, 0)) by {
                lemma_json_views(out@);
            }
            while i < items.len()
                invariant
                    i <= items.len(),
                    *value == Value::List(*items),
                    models == views_of(items@),
                    models.len() == items@.len(),
                    forall|k: int| 0 <= k < items@.len() ==> (#[trigger] models[k]) == items@[k]@,
                    json_views(out@) == to_json_items(models, i as int),
                decreases items.len() - i,
            {
                proof {
                    assert(decreases_to!(*items => items[i as int]));
                    assert(decreases_to!(*value => value->List_0));
                }
                let item = fusabi_to_json(&items[i]);
                proof {
                    lemma_json_views(out@);
                    lemma_json_views(out@.push(item));
                    assert(json_views(out@.push(item)) =~= json_views(out@).push(item@));
                }
                out.push(item);
                i += 1;
            }
            Json::Array(out)
        },
        Value::Dict(map) => {
            let ghost models = entry_views(map@);
            proof {
                lemma_entry_views(map@);
            }
            let mut out: Vec<(String, Json)> = Vec::new();
            let mut i: usize = 0;
            assert(member_views(out@) =~= to_json_members(models, 0)) by {
                lemma_member_views(out@);
            }
            while i < map.len()
                invariant
                    i <= map.len(),
                    *value == Value::Dict(*map),
                    models == entry_views(map@),
                    models.len() == map@.len(),
                    forall|k: int|
                        0 <= k < map@.len() ==> (#[trigger] models[k]) == (map@[k].0@, map@[k].1@),
                    member_views(out@) == to_json_members(models, i as int),
                decreases map.len() - i,
            {
                proof {
                    assert(decreases_to!(*map => map[i as int]));
                    assert(decreases_to!(map[i as int] => map[i as int].1));
                    assert(decreases_to!(*value => value->Dict_0));
                }
                let key = map[i].0.clone();
                let item = fusabi_to_json(&map[i].1);
                proof {
                    lemma_member_views(out@);
                    lemma_member_views(out@.push((key, item)));
                    assert(member_views(out@.push((key, item))) =~= member_views(out@).push(
                        (key@, item@),
                    ));
                }
                out.push((key, item));
                i += 1;
            }
            Json::Object(out)
        },
        Value::Bytes(b) => Json::String(hex_string(b)),
        Value::Function(_) => Json::String(copy_str("<function>")),
        Value::Error(e) => {
            let mut members: Vec<(String, Json)> = Vec::new();
            let key = copy_str("error");
            let item = Json::String(e.clone());
            proof {
                lemma_member_views(members@);
                lemma_member_views(members@.push((key, item)));
                assert(member_views(members@.push((key, item))) =~= seq![
                    ("error"@, JsonView::Text(e@)),
                ]);
            }
            members.push((key, item));
            Json::Object(members)
        },
    }
}

/// Converts a JSON value to a value of the scripting language.
pub fn json_to_fusabi(value: &Json) -> (r: Value)
    ensures
        r@ == from_json(value@),
    decreases value,
{
    match value {
        Json::Null => Value::Null,
        Json::Bool(b) => Value::Bool(*b),
        Json::Int(i) => Value::Int(*i),
        Json::Float(f) => Value::Float(copy_float(f)),
        Json::String(s) => Value::String(s.clone()),
        Json::Array(items) => {
            let ghost models = json_views(items@);
            proof {
                lemma_json_views(items@);
            }
            let mut out: Vec<Value> = Vec::new();
            let mut i: usize = 0;
            assert(views_of(out@) =~= from_json_items(models, 0)) by {
                lemma_views_of(out@);
            }
            while i < items.len()
                invariant
                    i <= items.len(),
                    *value == Json::Array(*items),
                    models == json_views(items@),
                    models.len() == items@.len(),
                    forall|k: int| 0 <= k < items@.len() ==> (#[trigger] models[k]) == items@[k]@,
                    views_of(out@) == from_json_items(models, i as int),
                decreases items.len() - i,
            {
                proof {
                    assert(decreases_to!(*items => items[i as int]));
                    assert(decreases_to!(*value => value->Array_0));
                }
                let item = json_to_fusabi(&items[i]);
                proof {
                    lemma_views_push(out@, item);
                }
                out.push(item);
                i += 1;
            }
            Value::List(out)
        },
        Json::Object(map) => {
            let ghost models = member_views(map@);
            proof {
                lemma_member_views(map@);
            }
            let mut out: Vec<(String, Value)> = Vec::new();
            let mut i: usize = 0;
            assert(entry_views(out@) =~= from_json_members(models, 0)) by {
                lemma_entry_views(out@);
            }
            while i < map.len()
                invariant
                    i <= map.len(),
                    *value == Json::Object(*map),
                    models == member_views(map@),
                    models.len() == map@.len(),
                    forall|k: int|
                        0 <= k < map@.len() ==> (#[trigger] models[k]) == (map@[k].0@, map@[k].1@),
                    entry_views(out@) == from_json_members(models, i as int),
                decreases map.len() - i,
            {
                proof {
                    assert(decreases_to!(*map => map[i as int]));
                    assert(decreases_to!(map[i as int] => map[i as int].1));
                    assert(decreases_to!(*value => value->Object_0));
                }
                let key = map[i].0.clone();
                let item = json_to_fusabi(&map[i].1);
                proof {
                    lemma_entries_push(out@, key, item);
                }
                out.push((key, item));
                i += 1;
            }
            Value::Dict(out)
        },
    }
}

/// A copy of a JSON value.
pub fn copy_json(value: &Json) -> (r: Json)
    ensures
        r@ == value@,
    decreases value,
{
    match value {
        Json::Null => Json::Null,
        Json::Bool(b) => Json::Bool(*b),
        Json::Int(i) => Json::Int(*i),
        Json::Float(f) => Json::Float(copy_float(f)),
        Json::String(s) => Json::String(s.clone()),
        Json::Array(items) => {
            let mut out: Vec<Json> = Vec::new();
            let mut i: usize = 0;
            proof {
                lemma_json_views(items@);
                lemma_json_views(out@);
            }
            assert(json_views(out@) =~= json_views(items@).take(0));
            while i < items.len()
                invariant
                    i <= items.len(),
                    *value == Json::Array(*items),
                    json_views(items@).len() == items@.len(),
                    json_views(out@) == json_views(items@).take(i as int),
                decreases items.len() - i,
            {
                proof {
                    assert(decreases_to!(*items => items[i as int]));
                    assert(decreases_to!(*value => value->Array_0));
                }
                let item = copy_json(&items[i]);
                proof {
                    lemma_json_views(out@);
                    lemma_json_views(out@.push(item));
                    lemma_json_views(items@);
                    assert(json_views(out@.push(item)) =~= json_views(items@).take(i + 1));
                }
                out.push(item);
                i += 1;
            }
            assert(json_views(items@).take(items@.len() as int) =~= json_views(items@));
            Json::Array(out)
        },
        Json::Object(map) => {
            let mut out: Vec<(String, Json)> = Vec::new();
            let mut i: usize = 0;
            proof {
                lemma_member_views(map@);
                lemma_member_views(out@);
            }
            assert(member_views(out@) =~= member_views(map@).take(0));
            while i < map.len()
                invariant
                    i <= map.len(),
                    *value == Json::Object(*map),
                    member_views(map@).len() == map@.len(),
                    member_views(out@) == member_views(map@).take(i as int),
                decreases map.len() - i,
            {
                proof {
                    assert(decreases_to!(*map => map[i as int]));
                    assert(decreases_to!(map[i as int] => map[i as int].1));
                    assert(decreases_to!(*value => value->Object_0));
                }
                let key = map[i].0.clone();
                let item = copy_json(&map[i].1);
                proof {
                    lemma_member_views(out@);
                    lemma_member_views(out@.push((key, item)));
                    lemma_member_views(map@);
                    assert(member_views(out@.push((key, item))) =~= member_views(map@).take(
                        i + 1,
                    ));
                }
                out.push((key, item));
                i += 1;
            }
            assert(member_views(map@).take(map@.len() as int) =~= member_views(map@));
            Json::Object(out)
        },
    }
}

impl Clone for Json {
    fn clone(&self) -> (r: Self)
        ensures
            r@ == self@,
    {
        copy_json(self)
    }
}

/// Whether a value has a JSON value of its own: it holds no function, no
/// binary data and no error value, and every number in it is finite.
pub open spec fn representable(v: ValueView) -> bool
    decreases v,
{
    match v {
        ValueView::Float(bits, _) => finite(bits),
        ValueView::List(l) => forall|i: int| 0 <= i < l.len() ==> representable(#[trigger] l[i]),
        ValueView::Dict(m) => forall|i: int|
            0 <= i < m.len() ==> representable((#[trigger] m[i]).1),
        ValueView::Function(_) => false,
        ValueView::Bytes(_) => false,
        ValueView::Error(_) => false,
        _ => true,
    }
}

proof fn lemma_to_json_items(l: Seq<ValueView>, n: int)
    requires
        0 <= n <= l.len(),
    ensures
        to_json_items(l, n).len() == n,
        forall|i: int| 0 <= i < n ==> (#[trigger] to_json_items(l, n)[i]) == to_json(l[i]),
    decreases n,
{
    reveal_with_fuel(to_json_items, 2);
    if n > 0 {
        lemma_to_json_items(l, n - 1);
    }
}

proof fn lemma_to_json_members(m: Seq<(Seq<char>, ValueView)>, n: int)
    requires
        0 <= n <= m.len(),
    ensures
        to_json_members(m, n).len() == n,
        forall|i: int|
            0 <= i < n ==> (#[trigger] to_json_members(m, n)[i]) == (m[i].0, to_json(m[i].1)),
    decreases n,
{
    reveal_with_fuel(to_json_members, 2);
    if n > 0 {
        lemma_to_json_members(m, n - 1);
    }
}

proof fn lemma_from_json_items(l: Seq<JsonView>, n: int)
    requires
        0 <= n <= l.len(),
    ensures
        from_json_items(l, n).len() == n,
        forall|i: int| 0 <= i < n ==> (#[trigger] from_json_items(l, n)[i]) == from_json(l[i]),
    decreases n,
{
    reveal_with_fuel(from_json_items, 2);
    if n > 0 {
        lemma_from_json_items(l, n - 1);
    }
}

proof fn lemma_from_json_members(m: Seq<(Seq<char>, JsonView)>, n: int)
    requires
        0 <= n <= m.len(),
    ensures
        from_json_members(m, n).len() == n,
        forall|i: int|
            0 <= i < n ==> (#[trigger] from_json_members(m, n)[i]) == (m[i].0, from_json(m[i].1)),
    decreases n,
{
    reveal_with_fuel(from_json_members, 2);
    if n > 0 {
        lemma_from_json_members(m, n - 1);
    }
}

/// A value that has a JSON value of its own comes back unchanged from the
/// conversion to JSON and back.
pub proof fn law_json_round_trip(v: ValueView)
    requires
        representable(v),
    ensures
        from_json(to_json(v)) == v,
    decreases v,
{
    match v {
        ValueView::List(l) => {
            let n = l.len() as int;
            let j = to_json_items(l, n);
            lemma_to_json_items(l, n);
            lemma_from_json_items(j, n);
            assert forall|i: int| 0 <= i < n implies from_json_items(j, n)[i] == l[i] by {
                assert(representable(l[i]));
                law_json_round_trip(l[i]);
            }
            assert(from_json_items(j, n) =~= l);
        },
        ValueView::Dict(m) => {
            let n = m.len() as int;
            let j = to_json_members(m, n);
            lemma_to_json_members(m, n);
            lemma_from_json_members(j, n);
            assert forall|i: int| 0 <= i < n implies from_json_members(j, n)[i] == m[i] by {
                assert(representable(m[i].1));
                law_json_round_trip(m[i].1);
            }
            assert(from_json_members(j, n) =~= m);
        },
        _ => {},
    }
}

} // verus!
