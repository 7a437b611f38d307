//! Lexical containment of filesystem paths.
//!
//! A path is read as a sequence of components: a leading `/` is the root
//! component, the other components are the texts between slashes. Empty
//! texts (repeated or trailing slashes) and `.` are dropped, except that a
//! path which starts with `./` (or is `.`) keeps one leading `.`. A path is
//! under a base when the components of the base are a prefix of its own.
//! Nothing is resolved: `..` is a component like any other, and no
//! symbolic link is followed.

use vstd::prelude::*;
use crate::text::{chars_eq, chars_of, slice_chars};

verus! {

/// Whether a text between two slashes counts as a component.
pub open spec fn kept(seg: Seq<char>) -> bool {
    seg.len() > 0 && !(seg.len() == 1 && seg[0] == '.')
}

/// The components of `s` that a scan finds from position `pos` on, where
/// the text being read began at `start`.
pub open spec fn names_from(s: Seq<char>, start: int, pos: int) -> Seq<Seq<char>>
    decreases s.len() - pos,
{
    if pos >= s.len() {
        let seg = s.subrange(start, s.len() as int);
        if kept(seg) {
            seq![seg]
        } else {
            Seq::empty()
        }
    } else if s[pos] == '/' {
        let seg = s.subrange(start, pos);
        let rest = names_from(s, pos + 1, pos + 1);
        if kept(seg) {
            seq![seg] + rest
        } else {
            rest
        }
    } else {
        names_from(s, start, pos + 1)
    }
}

/// The named components of a path: the kept texts between its slashes.
pub open spec fn names(s: Seq<char>) -> Seq<Seq<char>> {
    names_from(s, 0, 0)
}

/// What a path starts with: the root for `/...`, the current directory for
/// `.` and `./...`, else nothing.
pub open spec fn lead(s: Seq<char>) -> Seq<Seq<char>> {
    if s.len() > 0 && s[0] == '/' {
        seq![seq!['/']]
    } else if s.len() > 0 && s[0] == '.' && (s.len() == 1 || s[1] == '/') {
        seq![seq!['.']]
    } else {
        Seq::empty()
    }
}

/// The components of a path.
pub open spec fn components(s: Seq<char>) -> Seq<Seq<char>> {
    lead(s) + names(s)
}

/// Whether `path` lies under `base`: the components of `base` begin those
/// of `path`.
pub open spec fn is_under(path: Seq<char>, base: Seq<char>) -> bool {
    components(base).is_prefix_of(components(path))
}

/// Whether `path` lies under one of `prefixes`.
pub open spec fn under_any(path: Seq<char>, prefixes: Set<Seq<char>>) -> bool {
    exists|p: Seq<char>| prefixes.contains(p) && is_under(path, p)
}

/// The texts of a vector of character vectors.
pub open spec fn texts(v: Seq<Vec<char>>) -> Seq<Seq<char>> {
    v.map_values(|x: Vec<char>| x@)
}

fn keeps(s: &Vec<char>, start: usize, end: usize) -> (r: bool)
    requires
        start <= end <= s.len(),
    ensures
        r == kept(s@.subrange(start as int, end as int)),
{
    if end == start {
        false
    } else if end - start == 1 && s[start] == '.' {
        false
    } else {
        true
    }
}

/// The components of the path `s`.
pub fn components_of(s: &str) -> (r: Vec<Vec<char>>)
    ensures
        texts(r@) == components(s@),
{
    let chars = chars_of(s);
    let n = chars.len();
    let mut out: Vec<Vec<char>> = Vec::new();
    if n > 0 && chars[0] == '/' {
        out.push(vec!['/']);
        assert(out@[0]@ =~= seq!['/']);
    } else if n > 0 && chars[0] == '.' && (n == 1 || chars[1] == '/') {
        out.push(vec!['.']);
        assert(out@[0]@ =~= seq!['.']);
    }
    assert(texts(out@) =~= lead(s@));
    let mut start: usize = 0;
    let mut pos: usize = 0;
    while pos < n
        invariant
            chars@ == s@,
            n == chars.len(),
            start <= pos <= n,
            texts(out@) + names_from(s@, start as int, pos as int) == components(s@),
        decreases n - pos,
    {
        if chars[pos] == '/' {
            if keeps(&chars, start, pos) {
                let seg = slice_chars(&chars, start, pos);
                let ghost before = out@;
                out.push(seg);
                proof {
                    let rest = names_from(s@, pos + 1, pos + 1);
                    assert(texts(out@) =~= texts(before).push(seg@));
                    assert(texts(out@) + rest =~= texts(before) + (seq![seg@] + rest));
                }
            }
            start = pos + 1;
        }
        pos += 1;
    }
    if keeps(&chars, start, n) {
        let seg = slice_chars(&chars, start, n);
        let ghost before = out@;
        out.push(seg);
        proof {
            assert(texts(out@) =~= texts(before).push(seg@));
            assert(texts(out@) =~= texts(before) + seq![seg@]);
        }
    } else {
        assert(texts(out@) + Seq::<Seq<char>>::empty() =~= texts(out@));
    }
    out
}

/// Whether the components `base` begin the components `path`.
pub fn is_component_prefix(base: &Vec<Vec<char>>, path: &Vec<Vec<char>>) -> (r: bool)
    ensures
        r == texts(base@).is_prefix_of(texts(path@)),
{
    if base.len() > path.len() {
        return false;
    }
    let mut i: usize = 0;
    while i < base.len()
        invariant
            base.len() <= path.len(),
            i <= base.len(),
            forall|k: int| 0 <= k < i ==> base@[k]@ == path@[k]@,
        decreases base.len() - i,
    {
        if !chars_eq(&base[i], &path[i]) {
            assert(texts(path@).subrange(0, base@.len() as int)[i as int] == path@[i as int]@);
            assert(texts(base@)[i as int] == base@[i as int]@);
            return false;
        }
        i += 1;
    }
    assert(texts(base@) =~= texts(path@).subrange(0, base@.len() as int));
    true
}

/// Whether `path` lies under `base`.
pub fn path_starts_with(path: &str, base: &str) -> (r: bool)
    ensures
        r == is_under(path@, base@),
{
    let p = components_of(path);
    let b = components_of(base);
    is_component_prefix(&b, &p)
}

/// Every path lies under itself.
pub proof fn lemma_under_reflexive(path: Seq<char>)
    ensures
        is_under(path, path),
{
    let c = components(path);
    assert(c.subrange(0, c.len() as int) =~= c);
}

/// Containment is transitive: what lies under a path that lies under a base
/// lies under that base.
pub proof fn lemma_under_transitive(path: Seq<char>, middle: Seq<char>, base: Seq<char>)
    requires
        is_under(path, middle),
        is_under(middle, base),
    ensures
        is_under(path, base),
{
    let p = components(path);
    let m = components(middle);
    let b = components(base);
    assert(b =~= m.subrange(0, b.len() as int));
    assert(m =~= p.subrange(0, m.len() as int));
    assert(b =~= p.subrange(0, b.len() as int));
}

/// Scanning a path that continues with a slash finds, up to that slash, what
/// scanning the path alone finds, and then goes on behind the slash.
proof fn lemma_names_before_slash(base: Seq<char>, rest: Seq<char>, start: int, pos: int)
    requires
        0 <= start <= pos <= base.len(),
    ensures
        names_from(base + seq!['/'] + rest, start, pos) == names_from(base, start, pos)
            + names_from(base + seq!['/'] + rest, (base.len() + 1) as int, (base.len() + 1) as int),
    decreases base.len() - pos,
{
    let whole = base + seq!['/'] + rest;
    let after = names_from(whole, (base.len() + 1) as int, (base.len() + 1) as int);
    if pos == base.len() {
        assert(whole[pos] == '/');
        assert(whole.subrange(start, pos) =~= base.subrange(start, base.len() as int));
        let seg = base.subrange(start, base.len() as int);
        if kept(seg) {
            assert(names_from(base, start, pos) =~= seq![seg]);
        } else {
            assert(names_from(base, start, pos) =~= Seq::<Seq<char>>::empty());
            assert(Seq::<Seq<char>>::empty() + after =~= after);
        }
    } else {
        assert(whole[pos] == base[pos]);
        if base[pos] == '/' {
            assert(whole.subrange(start, pos) =~= base.subrange(start, pos));
            lemma_names_before_slash(base, rest, pos + 1, pos + 1);
            let seg = base.subrange(start, pos);
            let inner = names_from(base, pos + 1, pos + 1);
            if kept(seg) {
                assert(seq![seg] + (inner + after) =~= (seq![seg] + inner) + after);
            }
        } else {
            lemma_names_before_slash(base, rest, start, pos + 1);
        }
    }
}

/// Everything below a path lies under it: a path that continues a base
/// with a slash and any text is under that base, whatever the text holds.
pub proof fn lemma_below_is_under(base: Seq<char>, rest: Seq<char>)
    ensures
        is_under(base + seq!['/'] + rest, base),
{
    let whole = base + seq!['/'] + rest;
    lemma_names_before_slash(base, rest, 0, 0);
    let after = names_from(whole, (base.len() + 1) as int, (base.len() + 1) as int);
    if base.len() == 0 {
        assert(components(base) =~= Seq::<Seq<char>>::empty());
        assert(components(whole).subrange(0, 0) =~= Seq::<Seq<char>>::empty());
    } else {
        assert(whole[0] == base[0]);
        if base.len() > 1 {
            assert(whole[1] == base[1]);
        } else {
            assert(whole[1] == '/');
        }
        assert(lead(whole) == lead(base));
        assert(components(whole) =~= components(base) + after);
        assert((components(base) + after).subrange(0, components(base).len() as int)
            =~= components(base));
    }
}

/// No named component is empty, is `.`, or holds a slash.
pub proof fn lemma_names_are_plain(s: Seq<char>, start: int, pos: int)
    requires
        0 <= start <= pos <= s.len(),
        forall|k: int| start <= k < pos ==> s[k] != '/',
    ensures
        forall|i: int|
            0 <= i < names_from(s, start, pos).len() ==> {
                &&& kept(#[trigger] names_from(s, start, pos)[i])
                &&& !names_from(s, start, pos)[i].contains('/')
            },
    decreases s.len() - pos,
{
    let all = names_from(s, start, pos);
    if pos >= s.len() {
        let seg = s.subrange(start, s.len() as int);
        if seg.contains('/') {
            let k = choose|k: int| 0 <= k < seg.len() && seg[k] == '/';
            assert(s[start + k] == '/');
        }
        assert forall|i: int| 0 <= i < all.len() implies {
            &&& kept(#[trigger] all[i])
            &&& !all[i].contains('/')
        } by {
            assert(all[i] == seg);
        }
    } else if s[pos] == '/' {
        let seg = s.subrange(start, pos);
        if seg.contains('/') {
            let k = choose|k: int| 0 <= k < seg.len() && seg[k] == '/';
            assert(s[start + k] == '/');
        }
        lemma_names_are_plain(s, pos + 1, pos + 1);
        let rest = names_from(s, pos + 1, pos + 1);
        assert forall|i: int| 0 <= i < all.len() implies {
            &&& kept(#[trigger] all[i])
            &&& !all[i].contains('/')
        } by {
            if kept(seg) {
                if i > 0 {
                    assert(all[i] == rest[i - 1]);
                } else {
                    assert(all[i] == seg);
                }
            } else {
                assert(all[i] == rest[i]);
            }
        }
    } else {
        lemma_names_are_plain(s, start, pos + 1);
        assert(all == names_from(s, start, pos + 1));
    }
}

/// The single text `/` has the root as its only component.
pub proof fn lemma_root_components()
    ensures
        components(seq!['/']) == seq![seq!['/']],
{
    let s = seq!['/'];
    reveal_with_fuel(names_from, 3);
    assert(s.subrange(0, 0) =~= Seq::<char>::empty());
    assert(s.subrange(1, 1) =~= Seq::<char>::empty());
    assert(names(s) =~= Seq::<Seq<char>>::empty());
    assert(components(s) =~= seq![seq!['/']]);
}

/// Every path that begins with a slash lies under the root.
pub proof fn lemma_root_covers_absolute(path: Seq<char>)
    requires
        path.len() > 0,
        path[0] == '/',
    ensures
        is_under(path, seq!['/']),
{
    lemma_root_components();
    let c = components(path);
    assert(c[0] == seq!['/']);
    assert(c.subrange(0, 1) =~= seq![seq!['/']]);
}

/// A path that does not begin with a slash lies under no base that does.
pub proof fn lemma_relative_not_under_absolute(path: Seq<char>, base: Seq<char>)
    requires
        base.len() > 0,
        base[0] == '/',
        path.len() == 0 || path[0] != '/',
    ensures
        !is_under(path, base),
{
    let b = components(base);
    let p = components(path);
    assert(b[0] == seq!['/']);
    if b.is_prefix_of(p) {
        assert(p.len() >= 1);
        assert(p.subrange(0, b.len() as int)[0] == p[0]);
        assert(p[0] == seq!['/']);
        if lead(path).len() > 0 {
            assert(p[0] == seq!['.']);
            assert(seq!['.'][0] == '.');
            assert(seq!['/'][0] == '/');
            assert(false);
        } else {
            lemma_names_are_plain(path, 0, 0);
            assert(p =~= names(path));
            assert(names(path).len() > 0);
            assert(!names_from(path, 0, 0)[0].contains('/'));
            assert(seq!['/'][0] == '/');
            assert(seq!['/'].contains('/'));
            assert(false);
        }
    }
}

} // verus!
