//! Small string-keyed collections with their mathematical views.
//!
//! `StringSet` is a set of texts and `StringMap` a map from text to text.
//! Both keep their items in insertion order in a vector, and both maintain,
//! as a type invariant, that no text (no key) occurs twice.

use vstd::prelude::*;
use crate::text::str_eq;

verus! {

/// A finite set of strings.
#[derive(Debug)]
pub struct StringSet {
    items: Vec<String>,
}

impl View for StringSet {
    type V = Set<Seq<char>>;

    open spec fn view(&self) -> Set<Seq<char>> {
        self.elements().to_set()
    }
}

impl StringSet {
    /// The members in insertion order.
    pub closed spec fn elements(&self) -> Seq<Seq<char>> {
        self.items@.map_values(|s: String| s@)
    }

    #[verifier::type_invariant]
    closed spec fn distinct(&self) -> bool {
        self.elements().no_duplicates()
    }

    /// The empty set.
    pub fn new() -> (r: Self)
        ensures
            r.elements() == Seq::<Seq<char>>::empty(),
            r@ == Set::<Seq<char>>::empty(),
    {
        let r = StringSet { items: Vec::new() };
        assert(r.elements() =~= Seq::<Seq<char>>::empty());
        assert(r.elements().to_set() =~= Set::<Seq<char>>::empty());
        r
    }

    /// The number of members.
    pub fn len(&self) -> (n: usize)
        ensures
            n == self.elements().len(),
            self.elements().no_duplicates(),
    {
        proof {
            use_type_invariant(self);
        }
        self.items.len()
    }

    /// Whether the set has no member.
    pub fn is_empty(&self) -> (r: bool)
        ensures
            r == (self.elements().len() == 0),
            r == (self@ == Set::<Seq<char>>::empty()),
    {
        let r = self.items.len() == 0;
        proof {
            if r {
                assert(self.elements().to_set() =~= Set::<Seq<char>>::empty());
            } else {
                assert(self.elements().contains(self.elements()[0]));
                assert(self@.contains(self.elements()[0]));
            }
        }
        r
    }

    /// The member at position `i` of the insertion order.
    pub fn get(&self, i: usize) -> (s: &String)
        requires
            i < self.elements().len(),
        ensures
            s@ == self.elements()[i as int],
    {
        &self.items[i]
    }

    /// Whether `s` is a member.
    pub fn contains(&self, s: &str) -> (r: bool)
        ensures
            r == self.elements().contains(s@),
            r == self@.contains(s@),
    {
        let mut i: usize = 0;
        while i < self.items.len()
            invariant
                i <= self.items.len(),
                forall|k: int| 0 <= k < i ==> self.elements()[k] != s@,
            decreases self.items.len() - i,
        {
            if str_eq(self.items[i].as_str(), s) {
                assert(self.elements()[i as int] == s@);
                return true;
            }
            i += 1;
        }
        false
    }

    /// The set with `s` added.
    pub fn insert(self, s: String) -> (r: Self)
        ensures
            r.elements() == if self@.contains(s@) {
                self.elements()
            } else {
                self.elements().push(s@)
            },
            r@ == self@.insert(s@),
    {
        proof {
            use_type_invariant(&self);
        }
        if self.contains(s.as_str()) {
            assert(self@.insert(s@) =~= self@);
            self
        } else {
            let ghost before = self.elements();
            let ghost text = s@;
            let mut items = self.items;
            items.push(s);
            proof {
                assert(items@.map_values(|s: String| s@) =~= before.push(text));
                lemma_push_to_set(before, text);
                assert(before.push(text).no_duplicates());
            }
            StringSet { items }
        }
    }

    /// The set of the given names.
    pub fn from_strs(names: &[&str]) -> (r: Self)
        ensures
            r@ == names@.map_values(|s: &str| s@).to_set(),
    {
        let mut out = StringSet::new();
        let mut i: usize = 0;
        while i < names.len()
            invariant
                i <= names.len(),
                out@ == names@.map_values(|s: &str| s@).take(i as int).to_set(),
            decreases names.len() - i,
        {
            let ghost texts = names@.map_values(|s: &str| s@);
            out = out.insert(names[i].to_owned());
            proof {
                assert(texts.take(i + 1) =~= texts.take(i as int).push(texts[i as int]));
                lemma_push_to_set(texts.take(i as int), texts[i as int]);
            }
            i += 1;
        }
        assert(names@.map_values(|s: &str| s@).take(names@.len() as int) =~= names@.map_values(
            |s: &str| s@,
        ));
        out
    }
}

impl Clone for StringSet {
    fn clone(&self) -> (r: Self)
        ensures
            r.elements() == self.elements(),
    {
        proof {
            use_type_invariant(self);
        }
        let mut items: Vec<String> = Vec::new();
        let mut i: usize = 0;
        while i < self.items.len()
            invariant
                i <= self.items.len(),
                items@.map_values(|s: String| s@) == self.elements().take(i as int),
            decreases self.items.len() - i,
        {
            let ghost prev = items@;
            let item = self.items[i].clone();
            assert(item@ == self.elements()[i as int]);
            items.push(item);
            assert(items@ == prev.push(item));
            assert(items@.map_values(|s: String| s@) =~= prev.map_values(|s: String| s@).push(
                item@,
            ));
            assert(self.elements().take(i + 1) =~= self.elements().take(i as int).push(
                self.elements()[i as int],
            ));
            i += 1;
        }
        assert(self.elements().take(self.items.len() as int) =~= self.elements());
        StringSet { items }
    }
}

/// Pushing onto a sequence inserts into its set of elements.
pub proof fn lemma_push_to_set(s: Seq<Seq<char>>, x: Seq<char>)
    ensures
        s.push(x).to_set() == s.to_set().insert(x),
{
    assert forall|y: Seq<char>| #[trigger]
        s.push(x).to_set().contains(y) <==> s.to_set().insert(x).contains(y) by {
        if s.contains(y) {
            let k = choose|k: int| 0 <= k < s.len() && s[k] == y;
            assert(s.push(x)[k] == y);
        }
        if y == x {
            assert(s.push(x)[s.len() as int] == y);
        }
        if s.push(x).contains(y) {
            let k = choose|k: int| 0 <= k < s.push(x).len() && s.push(x)[k] == y;
            if k < s.len() {
                assert(s[k] == y);
            }
        }
    }
    assert(s.push(x).to_set() =~= s.to_set().insert(x));
}

/// A finite map from strings to strings.
#[derive(Debug)]
pub struct StringMap {
    entries: Vec<(String, String)>,
}

impl View for StringMap {
    type V = Map<Seq<char>, Seq<char>>;

    open spec fn view(&self) -> Map<Seq<char>, Seq<char>> {
        pairs_to_map(self.pairs())
    }
}

/// The map that a sequence of key/value pairs stands for; of two pairs with
/// one key the earlier counts.
pub open spec fn pairs_to_map(pairs: Seq<(Seq<char>, Seq<char>)>) -> Map<Seq<char>, Seq<char>> {
    Map::new(
        |k: Seq<char>| exists|i: int| 0 <= i < pairs.len() && pairs[i].0 == k,
        |k: Seq<char>| pairs[first_with_key(pairs, k)].1,
    )
}

/// The least position whose key is `k` (the length when there is none).
pub open spec fn first_with_key(pairs: Seq<(Seq<char>, Seq<char>)>, k: Seq<char>) -> int
    decreases pairs.len(),
{
    if pairs.len() == 0 {
        0
    } else if pairs[0].0 == k {
        0
    } else {
        1 + first_with_key(pairs.drop_first(), k)
    }
}

/// `first_with_key` finds a position with the key whenever one exists, and no
/// earlier position has it.
pub proof fn lemma_first_with_key(pairs: Seq<(Seq<char>, Seq<char>)>, k: Seq<char>)
    ensures
        0 <= first_with_key(pairs, k) <= pairs.len(),
        first_with_key(pairs, k) < pairs.len() ==> pairs[first_with_key(pairs, k)].0 == k,
        forall|i: int| 0 <= i < first_with_key(pairs, k) ==> pairs[i].0 != k,
    decreases pairs.len(),
{
    if pairs.len() > 0 && pairs[0].0 != k {
        let rest = pairs.drop_first();
        lemma_first_with_key(rest, k);
        assert forall|i: int| 0 <= i < first_with_key(pairs, k) implies pairs[i].0 != k by {
            if i > 0 {
                assert(rest[i - 1] == pairs[i]);
            }
        }
    }
}

impl StringMap {
    /// The key/value pairs in insertion order.
    pub closed spec fn pairs(&self) -> Seq<(Seq<char>, Seq<char>)> {
        self.entries@.map_values(|e: (String, String)| (e.0@, e.1@))
    }

    #[verifier::type_invariant]
    closed spec fn distinct_keys(&self) -> bool {
        forall|i: int, j: int|
            0 <= i < j < self.pairs().len() ==> self.pairs()[i].0 != self.pairs()[j].0
    }

    /// The empty map.
    pub fn new() -> (r: Self)
        ensures
            r.pairs() == Seq::<(Seq<char>, Seq<char>)>::empty(),
            r@ == Map::<Seq<char>, Seq<char>>::empty(),
    {
        let r = StringMap { entries: Vec::new() };
        assert(r.pairs() =~= Seq::<(Seq<char>, Seq<char>)>::empty());
        assert(r@ =~= Map::<Seq<char>, Seq<char>>::empty());
        r
    }

    /// The number of entries.
    pub fn len(&self) -> (n: usize)
        ensures
            n == self.pairs().len(),
            forall|i: int, j: int|
                0 <= i < j < self.pairs().len() ==> self.pairs()[i].0 != self.pairs()[j].0,
    {
        proof {
            use_type_invariant(self);
        }
        self.entries.len()
    }

    /// The key of the entry at position `i`.
    pub fn key_at(&self, i: usize) -> (k: &String)
        requires
            i < self.pairs().len(),
        ensures
            k@ == self.pairs()[i as int].0,
    {
        &self.entries[i].0
    }

    /// The value of the entry at position `i`.
    pub fn value_at(&self, i: usize) -> (v: &String)
        requires
            i < self.pairs().len(),
        ensures
            v@ == self.pairs()[i as int].1,
    {
        &self.entries[i].1
    }

    fn position(&self, key: &str) -> (r: usize)
        ensures
            r == first_with_key(self.pairs(), key@),
            r <= self.pairs().len(),
    {
        let mut i: usize = 0;
        proof {
            lemma_first_with_key(self.pairs(), key@);
        }
        while i < self.entries.len()
            invariant
                i <= self.entries.len(),
                forall|k: int| 0 <= k < i ==> self.pairs()[k].0 != key@,
                0 <= first_with_key(self.pairs(), key@) <= self.pairs().len(),
                first_with_key(self.pairs(), key@) < self.pairs().len() ==> self.pairs()[
                    first_with_key(self.pairs(), key@)
                ].0 == key@,
                forall|k: int|
                    0 <= k < first_with_key(self.pairs(), key@) ==> self.pairs()[k].0 != key@,
            decreases self.entries.len() - i,
        {
            if str_eq(self.entries[i].0.as_str(), key) {
                assert(self.pairs()[i as int].0 == key@);
                return i;
            }
            i += 1;
        }
        i
    }

    /// The value stored under `key`, if any.
    pub fn get(&self, key: &str) -> (r: Option<&String>)
        ensures
            r is Some <==> self@.contains_key(key@),
            r matches Some(v) ==> v@ == self@[key@],
    {
        let at = self.position(key);
        proof {
            lemma_first_with_key(self.pairs(), key@);
        }
        if at < self.entries.len() {
            Some(&self.entries[at].1)
        } else {
            None
        }
    }

    /// Whether an entry with `key` exists.
    pub fn contains_key(&self, key: &str) -> (r: bool)
        ensures
            r == self@.contains_key(key@),
    {
        self.get(key).is_some()
    }

    /// The map with `value` stored under `key`, replacing what was there.
    pub fn insert(self, key: String, value: String) -> (r: Self)
        ensures
            r@ == self@.insert(key@, value@),
            r.pairs() == if self@.contains_key(key@) {
                self.pairs().update(first_with_key(self.pairs(), key@), (key@, value@))
            } else {
                self.pairs().push((key@, value@))
            },
    {
        proof {
            use_type_invariant(&self);
            lemma_first_with_key(self.pairs(), key@);
        }
        let at = self.position(key.as_str());
        let ghost before = self.pairs();
        let ghost k = key@;
        let ghost v = value@;
        let mut entries = self.entries;
        if at < entries.len() {
            entries.set(at, (key, value));
            proof {
                let after = entries@.map_values(|e: (String, String)| (e.0@, e.1@));
                assert(after =~= before.update(at as int, (k, v)));
                assert forall|x: Seq<char>| #[trigger]
                    pairs_to_map(after).contains_key(x) <==> pairs_to_map(before).insert(
                        k,
                        v,
                    ).contains_key(x) by {
                    if pairs_to_map(after).contains_key(x) {
                        let i = choose|i: int| 0 <= i < after.len() && after[i].0 == x;
                        assert(before[i].0 == x);
                    }
                    if pairs_to_map(before).contains_key(x) {
                        let i = choose|i: int| 0 <= i < before.len() && before[i].0 == x;
                        assert(after[i].0 == x);
                    }
                    if x == k {
                        assert(after[at as int].0 == x);
                    }
                }
                assert forall|x: Seq<char>| #[trigger]
                    pairs_to_map(after).contains_key(x) implies pairs_to_map(after)[x]
                    == pairs_to_map(before).insert(k, v)[x] by {
                    lemma_first_with_key(after, x);
                    lemma_first_with_key(before, x);
                    let ia = first_with_key(after, x);
                    let ib = first_with_key(before, x);
                    let i = choose|i: int| 0 <= i < after.len() && after[i].0 == x;
                    assert(ia < after.len());
                    assert(before[ia].0 == x);
                    assert(ib < before.len());
                    assert(after[ib].0 == x);
                    assert(ia == ib);
                }
                assert(pairs_to_map(after) =~= pairs_to_map(before).insert(k, v));
            }
            StringMap { entries }
        } else {
            entries.push((key, value));
            proof {
                let after = entries@.map_values(|e: (String, String)| (e.0@, e.1@));
                assert(after =~= before.push((k, v)));
                assert(!pairs_to_map(before).contains_key(k));
                assert forall|x: Seq<char>| #[trigger]
                    pairs_to_map(after).contains_key(x) <==> pairs_to_map(before).insert(
                        k,
                        v,
                    ).contains_key(x) by {
                    if pairs_to_map(after).contains_key(x) {
                        let i = choose|i: int| 0 <= i < after.len() && after[i].0 == x;
                        if i < before.len() {
                            assert(before[i].0 == x);
                        }
                    }
                    if pairs_to_map(before).contains_key(x) {
                        let i = choose|i: int| 0 <= i < before.len() && before[i].0 == x;
                        assert(after[i].0 == x);
                    }
                    if x == k {
                        assert(after[before.len() as int].0 == x);
                    }
                }
                assert forall|x: Seq<char>| #[trigger]
                    pairs_to_map(after).contains_key(x) implies pairs_to_map(after)[x]
                    == pairs_to_map(before).insert(k, v)[x] by {
                    lemma_first_with_key(after, x);
                    lemma_first_with_key(before, x);
                    let ia = first_with_key(after, x);
                    assert(ia < after.len());
                    if x != k {
                        assert(ia < before.len());
                        assert(before[ia].0 == x);
                        let ib = first_with_key(before, x);
                        assert(after[ib].0 == x);
                        assert(ia == ib);
                    } else {
                        assert(ia == before.len());
                    }
                }
                assert(pairs_to_map(after) =~= pairs_to_map(before).insert(k, v));
            }
            StringMap { entries }
        }
    }
}

impl Clone for StringMap {
    fn clone(&self) -> (r: Self)
        ensures
            r.pairs() == self.pairs(),
    {
        proof {
            use_type_invariant(self);
        }
        let mut entries: Vec<(String, String)> = Vec::new();
        let mut i: usize = 0;
        while i < self.entries.len()
            invariant
                i <= self.entries.len(),
                entries@.map_values(|e: (String, String)| (e.0@, e.1@)) == self.pairs().take(
                    i as int,
                ),
            decreases self.entries.len() - i,
        {
            let ghost prev = entries@;
            let key = self.entries[i].0.clone();
            let value = self.entries[i].1.clone();
            assert((key@, value@) == self.pairs()[i as int]);
            entries.push((key, value));
            assert(entries@ == prev.push((key, value)));
            assert(entries@.map_values(|e: (String, String)| (e.0@, e.1@)) =~= prev.map_values(
                |e: (String, String)| (e.0@, e.1@),
            ).push((key@, value@)));
            assert(self.pairs().take(i + 1) =~= self.pairs().take(i as int).push(
                self.pairs()[i as int],
            ));
            i += 1;
        }
        assert(self.pairs().take(self.entries.len() as int) =~= self.pairs());
        StringMap { entries }
    }
}

} // verus!
