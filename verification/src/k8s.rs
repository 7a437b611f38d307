//! Cluster resources as values of the scripting language.

use vstd::prelude::*;
use vstd::utf8::{decode_utf8, valid_utf8};
use crate::collections::StringMap;
use crate::net::header_entries;
use crate::text::copy_str;
use crate::value::{entry_views, push_entry, Value, ValueView};

verus! {

/// What is kept of a pod.
#[derive(Debug, Clone)]
pub struct PodInfo {
    /// Pod name.
    pub name: String,
    /// Pod namespace.
    pub namespace: String,
    /// Pod phase (Pending, Running, Succeeded, Failed, Unknown).
    pub phase: String,
    /// Pod IP address.
    pub pod_ip: Option<String>,
    /// Node that the pod runs on.
    pub node_name: Option<String>,
    /// Pod labels.
    pub labels: StringMap,
}

/// Trusted: `String::from_utf8`, which gives the text of the bytes where
/// they are valid UTF-8, and nothing where they are not.
#[verifier::external_body]
fn utf8_text(bytes: &Vec<u8>) -> (r: Option<String>)
    ensures
        r is Some <==> valid_utf8(bytes@),
        r matches Some(text) ==> text@ == decode_utf8(bytes@),
{
    match String::from_utf8(bytes.clone()) {
        Ok(text) => Some(text),
        Err(_) => None,
    }
}

/// Of the first `n` entries of a secret, those whose bytes are valid
/// UTF-8, each with its text.
pub open spec fn decoded(data: Seq<(String, Vec<u8>)>, n: int) -> Seq<(Seq<char>, Seq<char>)>
    decreases n,
{
    if n <= 0 || n > data.len() {
        Seq::empty()
    } else if valid_utf8(data[n - 1].1@) {
        decoded(data, n - 1).push((data[n - 1].0@, decode_utf8(data[n - 1].1@)))
    } else {
        decoded(data, n - 1)
    }
}

/// The texts of a vector of pairs of strings.
pub open spec fn pair_texts(pairs: Seq<(String, String)>) -> Seq<(Seq<char>, Seq<char>)> {
    pairs.map_values(|p: (String, String)| (p.0@, p.1@))
}

/// The entries of a secret as texts; an entry whose bytes are not valid
/// UTF-8 is left out.
pub fn decode_secret(data: &Vec<(String, Vec<u8>)>) -> (r: Vec<(String, String)>)
    ensures
        pair_texts(r@) == decoded(data@, data@.len() as int),
{
    let mut out: Vec<(String, String)> = Vec::new();
    let mut i: usize = 0;
    assert(pair_texts(out@) =~= decoded(data@, 0));
    while i < data.len()
        invariant
            i <= data.len(),
            pair_texts(out@) == decoded(data@, i as int),
        decreases data.len() - i,
    {
        match utf8_text(&data[i].1) {
            Some(text) => {
                let ghost before = out@;
                let key = data[i].0.clone();
                out.push((key, text));
                assert(pair_texts(out@) =~= pair_texts(before).push((key@, text@)));
            },
            None => {},
        }
        i += 1;
    }
    out
}

/// Of the first `n` names, those that are there.
pub open spec fn present(names: Seq<Option<String>>, n: int) -> Seq<Seq<char>>
    decreases n,
{
    if n <= 0 || n > names.len() {
        Seq::empty()
    } else {
        match names[n - 1] {
            Some(name) => present(names, n - 1).push(name@),
            None => present(names, n - 1),
        }
    }
}

/// The names of the namespaces that have one.
pub fn namespace_names(names: Vec<Option<String>>) -> (r: Vec<String>)
    ensures
        r@.map_values(|s: String| s@) == present(names@, names@.len() as int),
{
    let mut out: Vec<String> = Vec::new();
    let mut i: usize = 0;
    assert(out@.map_values(|s: String| s@) =~= present(names@, 0));
    while i < names.len()
        invariant
            i <= names.len(),
            out@.map_values(|s: String| s@) == present(names@, i as int),
        decreases names.len() - i,
    {
        match &names[i] {
            Some(name) => {
                let ghost before = out@;
                let copy = name.clone();
                out.push(copy);
                assert(out@.map_values(|s: String| s@) =~= before.map_values(|s: String| s@).push(
                    name@,
                ));
            },
            None => {},
        }
        i += 1;
    }
    out
}

/// The text of an optional string.
pub open spec fn optional_text(s: Option<String>) -> Option<Seq<char>> {
    match s {
        Some(text) => Some(text@),
        None => None,
    }
}

/// The entry of `key` for an optional text: one entry where the text is
/// there, none where it is not.
pub open spec fn optional_entry(key: Seq<char>, text: Option<Seq<char>>) -> Seq<
    (Seq<char>, ValueView),
> {
    match text {
        Some(t) => seq![(key, ValueView::Text(t))],
        None => Seq::empty(),
    }
}

fn text_or(value: Option<String>, fallback: &str) -> (r: String)
    ensures
        r@ == match value {
            Some(text) => text@,
            None => fallback@,
        },
{
    match value {
        Some(text) => text,
        None => copy_str(fallback),
    }
}

impl PodInfo {
    /// The entries of the pod as a dictionary: name, namespace and phase,
    /// the address and the node where they are known, and the labels.
    pub open spec fn entries(&self) -> Seq<(Seq<char>, ValueView)> {
        seq![
            ("name"@, ValueView::Text(self.name@)),
            ("namespace"@, ValueView::Text(self.namespace@)),
            ("phase"@, ValueView::Text(self.phase@)),
        ] + optional_entry("pod_ip"@, optional_text(self.pod_ip)) + optional_entry(
            "node_name"@,
            optional_text(self.node_name),
        ) + seq![("labels"@, ValueView::Dict(header_entries(self.labels.pairs())))]
    }

    /// The pod of the given fields of a pod resource: a missing name or
    /// namespace is empty, a missing phase is `Unknown`.
    pub fn from_pod(
        name: Option<String>,
        namespace: Option<String>,
        phase: Option<String>,
        pod_ip: Option<String>,
        node_name: Option<String>,
        labels: StringMap,
    ) -> (r: Self)
        ensures
            r.name@ == match name {
                Some(text) => text@,
                None => Seq::empty(),
            },
            r.namespace@ == match namespace {
                Some(text) => text@,
                None => Seq::empty(),
            },
            r.phase@ == match phase {
                Some(text) => text@,
                None => "Unknown"@,
            },
            r.pod_ip == pod_ip,
            r.node_name == node_name,
            r.labels == labels,
    {
        proof {
            reveal_strlit("");
            assert(""@ =~= Seq::<char>::empty());
        }
        PodInfo {
            name: text_or(name, ""),
            namespace: text_or(namespace, ""),
            phase: text_or(phase, "Unknown"),
            pod_ip,
            node_name,
            labels,
        }
    }

    /// The pod as a value.
    pub fn to_value(&self) -> (r: Value)
        ensures
            r@ == ValueView::Dict(self.entries()),
    {
        let mut map: Vec<(String, Value)> = Vec::new();
        assert(entry_views(map@) =~= Seq::<(Seq<char>, ValueView)>::empty());
        push_entry(&mut map, "name", Value::String(self.name.clone()));
        push_entry(&mut map, "namespace", Value::String(self.namespace.clone()));
        push_entry(&mut map, "phase", Value::String(self.phase.clone()));
        match &self.pod_ip {
            Some(ip) => {
                push_entry(&mut map, "pod_ip", Value::String(ip.clone()));
            },
            None => {},
        }
        match &self.node_name {
            Some(node) => {
                push_entry(&mut map, "node_name", Value::String(node.clone()));
            },
            None => {},
        }
        let mut labels: Vec<(String, Value)> = Vec::new();
        assert(entry_views(labels@) =~= Seq::<(Seq<char>, ValueView)>::empty());
        let n = self.labels.len();
        let mut i: usize = 0;
        while i < n
            invariant
                n == self.labels.pairs().len(),
                i <= n,
                entry_views(labels@) == header_entries(self.labels.pairs()).take(i as int),
            decreases n - i,
        {
            let value = Value::String(self.labels.value_at(i).clone());
            push_entry(&mut labels, self.labels.key_at(i).as_str(), value);
            assert(entry_views(labels@) =~= header_entries(self.labels.pairs()).take(i + 1));
            i += 1;
        }
        assert(header_entries(self.labels.pairs()).take(n as int) =~= header_entries(
            self.labels.pairs(),
        ));
        push_entry(&mut map, "labels", Value::Dict(labels));
        assert(entry_views(map@) =~= self.entries());
        Value::Dict(map)
    }
}

} // verus!
