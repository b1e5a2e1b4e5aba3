//! A parsed document as a tree of plain values, and its loading from text.

use vstd::prelude::*;
use vstd::pervasive::arbitrary;
use serde_yaml::Value as Doc;

verus! {

/// A node of a parsed document.
#[derive(Debug)]
pub enum Yaml {
    /// An empty or explicit null scalar.
    Null,
    /// A boolean scalar.
    Bool(bool),
    /// A numeric scalar, as its decimal text.
    Number(String),
    /// A string scalar.
    Str(String),
    /// A sequence of nodes.
    List(Vec<Yaml>),
    /// A mapping, entries in document order.
    Mapping(Vec<(Yaml, Yaml)>),
}

/// Whether `k` is the string key `key`.
pub open spec fn key_is(k: Yaml, key: Seq<char>) -> bool {
    k matches Yaml::Str(s) && s@ == key
}

/// The value of the first entry of `m` whose key is the string `key`.
pub open spec fn find(m: Seq<(Yaml, Yaml)>, key: Seq<char>) -> Option<Yaml>
    decreases m.len(),
{
    if m.len() == 0 {
        None
    } else if key_is(m[0].0, key) {
        Some(m[0].1)
    } else {
        find(m.drop_first(), key)
    }
}

/// The text of a scalar read where text is expected: a string, or the
/// decimal text of a number.
pub open spec fn as_text(y: Yaml) -> Option<String> {
    match y {
        Yaml::Str(s) => Some(s),
        Yaml::Number(t) => Some(t),
        _ => None,
    }
}

/// The content of a node, as a mathematical value.
pub enum YamlV {
    Null,
    Bool(bool),
    Number(Seq<char>),
    Str(Seq<char>),
    List(Seq<YamlV>),
    Mapping(Seq<(YamlV, YamlV)>),
}

/// The content of a node.
pub open spec fn content(y: Yaml) -> YamlV
    decreases y, 0nat,
{
    match y {
        Yaml::Null => YamlV::Null,
        Yaml::Bool(b) => YamlV::Bool(b),
        Yaml::Number(t) => YamlV::Number(t@),
        Yaml::Str(s) => YamlV::Str(s@),
        Yaml::List(v) => YamlV::List(contents(v@)),
        Yaml::Mapping(m) => YamlV::Mapping(entry_contents(m@)),
    }
}

/// The contents of a sequence of nodes.
pub open spec fn contents(s: Seq<Yaml>) -> Seq<YamlV>
    decreases s, s.len(),
{
    if s.len() == 0 {
        Seq::empty()
    } else {
        contents(s.drop_last()).push(content(s.last()))
    }
}

/// The contents of a sequence of entries.
pub open spec fn entry_contents(s: Seq<(Yaml, Yaml)>) -> Seq<(YamlV, YamlV)>
    decreases s, s.len(),
{
    if s.len() == 0 {
        Seq::empty()
    } else {
        entry_contents(s.drop_last()).push((content(s.last().0), content(s.last().1)))
    }
}

/// Whether no two string keys of the mapping have the same text.
pub open spec fn distinct_keys(m: Seq<(Yaml, Yaml)>) -> bool {
    forall|a: int, b: int|
        0 <= a < m.len() && 0 <= b < m.len() && a != b && m[a].0 is Str && m[b].0 is Str
            ==> m[a].0->Str_0@ != m[b].0->Str_0@
}

/// Whether every key of the mapping is a string.
pub open spec fn string_keys(m: Seq<(Yaml, Yaml)>) -> bool {
    forall|i: int| 0 <= i < m.len() ==> (#[trigger] m[i]).0 is Str
}

impl Yaml {
    /// A copy of this node.
    pub fn copy(&self) -> (r: Yaml)
        ensures
            content(r) == content(*self),
        decreases self,
    {
        match self {
            Yaml::Null => Yaml::Null,
            Yaml::Bool(b) => Yaml::Bool(*b),
            Yaml::Number(t) => Yaml::Number(t.clone()),
            Yaml::Str(s) => Yaml::Str(s.clone()),
            Yaml::List(items) => {
                let mut out: Vec<Yaml> = Vec::new();
                let mut i: usize = 0;
                while i < items.len()
                    invariant
                        0 <= i <= items.len(),
                        *self == Yaml::List(*items),
                        contents(out@) == contents(items@.take(i as int)),
                    decreases items.len() - i,
                {
                    proof {
                        vstd::std_specs::vec::axiom_vec_index_decreases(*items, i as int);
                        assert(decreases_to!(*self => (*self)->List_0));
                    }
                    let ghost before = out@;
                    let c = items[i].copy();
                    out.push(c);
                    assert(out@.drop_last() =~= before);
                    assert(items@.take(i + 1).drop_last() =~= items@.take(i as int));
                    i = i + 1;
                }
                assert(items@.take(items.len() as int) =~= items@);
                Yaml::List(out)
            },
            Yaml::Mapping(entries) => {
                let mut out: Vec<(Yaml, Yaml)> = Vec::new();
                let mut i: usize = 0;
                while i < entries.len()
                    invariant
                        0 <= i <= entries.len(),
                        *self == Yaml::Mapping(*entries),
                        entry_contents(out@) == entry_contents(entries@.take(i as int)),
                    decreases entries.len() - i,
                {
                    proof {
                        vstd::std_specs::vec::axiom_vec_index_decreases(*entries, i as int);
                        assert(decreases_to!(*self => (*self)->Mapping_0));
                    }
                    let k = entries[i].0.copy();
                    let v = entries[i].1.copy();
                    let ghost before = out@;
                    out.push((k, v));
                    assert(out@.drop_last() =~= before);
                    assert(entries@.take(i + 1).drop_last() =~= entries@.take(i as int));
                    i = i + 1;
                }
                assert(entries@.take(entries.len() as int) =~= entries@);
                Yaml::Mapping(out)
            },
        }
    }
}

/// Looks up the value of the string key `key` in a mapping's entries.
pub fn lookup<'a>(m: &'a Vec<(Yaml, Yaml)>, key: &str) -> (r: Option<&'a Yaml>)
    ensures
        match r {
            Some(v) => find(m@, key@) == Some(*v),
            None => find(m@, key@) is None,
        },
{
    let mut i: usize = 0;
    assert(m@.skip(0) =~= m@);
    while i < m.len()
        invariant
            0 <= i <= m.len(),
            find(m@, key@) == find(m@.skip(i as int), key@),
        decreases m.len() - i,
    {
        assert(m@.skip(i as int).drop_first() =~= m@.skip(i + 1));
        if let Yaml::Str(k) = &m[i].0 {
            if crate::text::text_eq(k.as_str(), key) {
                return Some(&m[i].1);
            }
        }
        i = i + 1;
    }
    None
}

/// Deepest nesting accepted when reading a document; the YAML reader itself
/// refuses documents nested deeper than 128 levels.
pub const MAX_DEPTH: usize = 160;

/// The tree `serde_yaml::from_str` reads from a text, or `None` when the
/// text is no single well-formed document. A tagged node is taken as the
/// node it tags, and a number as its `Display` text.
pub uninterp spec fn yaml_doc(text: Seq<char>) -> Option<YamlV>;

/// Whether a tree nests no deeper than `d` levels.
pub open spec fn fits(v: YamlV, d: nat) -> bool
    decreases d, 0nat,
{
    if d == 0 {
        false
    } else {
        match v {
            YamlV::List(ms) => all_fit(ms, (d - 1) as nat),
            YamlV::Mapping(es) => entries_fit(es, (d - 1) as nat),
            _ => true,
        }
    }
}

pub open spec fn all_fit(ms: Seq<YamlV>, d: nat) -> bool
    decreases d, ms.len() + 1,
{
    ms.len() == 0 || (all_fit(ms.drop_last(), d) && fits(ms.last(), d))
}

pub open spec fn entries_fit(es: Seq<(YamlV, YamlV)>, d: nat) -> bool
    decreases d, es.len() + 1,
{
    es.len() == 0 || (entries_fit(es.drop_last(), d) && fits(es.last().0, d) && fits(es.last().1, d))
}

proof fn lemma_all_fit_each(ms: Seq<YamlV>, d: nat, k: int)
    requires
        all_fit(ms, d),
        0 <= k < ms.len(),
    ensures
        fits(ms[k], d),
    decreases ms.len(),
{
    if k < ms.len() - 1 {
        lemma_all_fit_each(ms.drop_last(), d, k);
    }
}

proof fn lemma_entries_fit_each(es: Seq<(YamlV, YamlV)>, d: nat, k: int)
    requires
        entries_fit(es, d),
        0 <= k < es.len(),
    ensures
        fits(es[k].0, d) && fits(es[k].1, d),
    decreases es.len(),
{
    if k < es.len() - 1 {
        lemma_entries_fit_each(es.drop_last(), d, k);
    }
}

/// A node of the YAML reader, with the tree it stands for.
struct Node {
    value: serde_yaml::Value,
    model: Ghost<YamlV>,
    /// How many tags wrap the node.
    tags: Ghost<nat>,
}

/// One level of a node, its children not yet converted.
enum Head {
    Null,
    Bool(bool),
    Number(String),
    Str(String),
    List(Vec<Node>),
    Mapping(Vec<(Node, Node)>),
    /// A tagged node: the node it tags.
    Tagged(Node),
}

#[verifier::external_type_specification]
#[verifier::external_body]
pub struct ExYamlValue(serde_yaml::Value);

/// Relies on `serde_yaml::from_str`: reads one document, or gives the
/// reader's error message.
#[verifier::external_body]
fn read_document(text: &str) -> (r: Result<Node, String>)
    ensures
        r matches Ok(n) ==> yaml_doc(text@) == Some(n.model@),
        r is Err <==> yaml_doc(text@) is None,
{
    serde_yaml::from_str::<serde_yaml::Value>(text).map(|value| Node { value, model: Ghost(arbitrary()), tags: Ghost(arbitrary()) }).map_err(|e| e.to_string())
}

impl Head {
    fn is_tagged(&self) -> (r: bool)
        ensures
            r == self is Tagged,
    {
        match self {
            Head::Tagged(_) => true,
            _ => false,
        }
    }
}

/// Whether an untagged head is the top level of a node standing for `m`.
spec fn head_fits(h: Head, m: YamlV) -> bool {
    match m {
        YamlV::Null => h is Null,
        YamlV::Bool(b) => h == Head::Bool(b),
        YamlV::Number(t) => h matches Head::Number(x) && x@ == t,
        YamlV::Str(t) => h matches Head::Str(x) && x@ == t,
        YamlV::List(ms) => h matches Head::List(cs) && cs@.len() == ms.len() && forall|i: int|
            0 <= i < ms.len() ==> (#[trigger] cs@[i]).model@ == ms[i],
        YamlV::Mapping(es) => h matches Head::Mapping(cs) && cs@.len() == es.len() && forall|i: int|
            0 <= i < es.len() ==> ((#[trigger] cs@[i]).0.model@, cs@[i].1.model@) == es[i],
    }
}

/// Relies on the variants of `serde_yaml::Value`: the top level of a node,
/// a number by its `Display` text, a mapping by its entries in order, and a
/// tagged node by the node it tags (one tag fewer).
#[verifier::external_body]
fn head_of(n: &Node) -> (r: Head)
    ensures
        r matches Head::Tagged(c) ==> c.model@ == n.model@ && c.tags@ < n.tags@,
        !(r is Tagged) ==> head_fits(r, n.model@),
{
    let node = |value: &Doc| Node { value: value.clone(), model: Ghost(arbitrary()), tags: Ghost(arbitrary()) };
    match &n.value {
        Doc::Tagged(t) => Head::Tagged(node(&t.value)),
        Doc::Bool(b) => Head::Bool(*b),
        Doc::Number(x) => Head::Number(x.to_string()),
        Doc::String(x) => Head::Str(x.clone()),
        Doc::Sequence(items) => Head::List(items.iter().map(node).collect()),
        Doc::Mapping(m) => Head::Mapping(m.iter().map(|(k, x)| (node(k), node(x))).collect()),
        _ => Head::Null,
    }
}

pub proof fn lemma_contents_each(s: Seq<Yaml>)
    ensures
        contents(s).len() == s.len(),
        forall|i: int| 0 <= i < s.len() ==> contents(s)[i] == content(#[trigger] s[i]),
    decreases s.len(),
{
    if s.len() > 0 {
        let t = s.drop_last();
        lemma_contents_each(t);
        assert forall|i: int| 0 <= i < s.len() implies contents(s)[i] == content(#[trigger] s[i]) by {
            if i < s.len() - 1 {
                assert(t[i] == s[i]);
            }
        }
    }
}

pub proof fn lemma_entry_contents_each(s: Seq<(Yaml, Yaml)>)
    ensures
        entry_contents(s).len() == s.len(),
        forall|i: int|
            0 <= i < s.len() ==> entry_contents(s)[i] == (content((#[trigger] s[i]).0), content(s[i].1)),
    decreases s.len(),
{
    if s.len() > 0 {
        let t = s.drop_last();
        lemma_entry_contents_each(t);
        assert forall|i: int| 0 <= i < s.len() implies entry_contents(s)[i] == (
            content((#[trigger] s[i]).0),
            content(s[i].1),
        ) by {
            if i < s.len() - 1 {
                assert(t[i] == s[i]);
            }
        }
    }
}

/// Converts a node into a tree, refusing one nested deeper than `depth`.
fn convert(n: &Node, depth: usize) -> (r: Option<Yaml>)
    ensures
        r matches Some(y) ==> content(y) == n.model@,
        r is None <==> !fits(n.model@, depth as nat),
    decreases depth,
{
    if depth == 0 {
        return None;
    }
    let ghost m = n.model@;
    // A tagged node is read as the node it tags.
    let mut h = head_of(n);
    while h.is_tagged()
        invariant
            h matches Head::Tagged(c) ==> c.model@ == m,
            !(h is Tagged) ==> head_fits(h, m),
        decreases match h {
            Head::Tagged(c) => c.tags@ + 1,
            _ => 0,
        },
    {
        h = match h {
            Head::Tagged(c) => head_of(&c),
            other => other,
        };
    }
    assert(head_fits(h, m));
    match h {
        Head::Tagged(_) => None,
        Head::Null => Some(Yaml::Null),
        Head::Bool(b) => Some(Yaml::Bool(b)),
        Head::Number(t) => Some(Yaml::Number(t)),
        Head::Str(s) => Some(Yaml::Str(s)),
        Head::List(items) => {
            let ghost ms = m->List_0;
            let mut out: Vec<Yaml> = Vec::new();
            let mut i: usize = 0;
            while i < items.len()
                invariant
                    0 <= i <= items.len(),
                    depth > 0,
                    m == YamlV::List(ms),
                    n.model@ == m,
                    items@.len() == ms.len(),
                    forall|j: int| 0 <= j < ms.len() ==> (#[trigger] items@[j]).model@ == ms[j],
                    out@.len() == i,
                    forall|j: int| 0 <= j < i ==> content(#[trigger] out@[j]) == ms[j],
                    all_fit(ms.take(i as int), (depth - 1) as nat),
                decreases items.len() - i,
            {
                assert(ms.take(i + 1).drop_last() =~= ms.take(i as int));
                match convert(&items[i], depth - 1) {
                    Some(y) => out.push(y),
                    None => {
                        proof {
                            assert(items@[i as int].model@ == ms[i as int]);
                            assert(!fits(ms[i as int], (depth - 1) as nat));
                            assert(fits(m, depth as nat) == all_fit(ms, (depth - 1) as nat));
                            if all_fit(ms, (depth - 1) as nat) {
                                lemma_all_fit_each(ms, (depth - 1) as nat, i as int);
                            }
                        }
                        return None;
                    },
                }
                i = i + 1;
            }
            assert(ms.take(ms.len() as int) =~= ms);
            proof {
                lemma_contents_each(out@);
                assert(fits(m, depth as nat) == all_fit(ms, (depth - 1) as nat));
            }
            assert forall|j: int| 0 <= j < ms.len() implies contents(out@)[j] == ms[j] by {
                assert(content(out@[j]) == ms[j]);
            }
            assert(contents(out@) =~= ms);
            Some(Yaml::List(out))
        },
        Head::Mapping(entries) => {
            let ghost es = m->Mapping_0;
            let mut out: Vec<(Yaml, Yaml)> = Vec::new();
            let mut i: usize = 0;
            while i < entries.len()
                invariant
                    0 <= i <= entries.len(),
                    depth > 0,
                    m == YamlV::Mapping(es),
                    n.model@ == m,
                    entries@.len() == es.len(),
                    forall|j: int|
                        0 <= j < es.len() ==> ((#[trigger] entries@[j]).0.model@, entries@[j].1.model@)
                            == es[j],
                    out@.len() == i,
                    forall|j: int|
                        0 <= j < i ==> (content((#[trigger] out@[j]).0), content(out@[j].1)) == es[j],
                    entries_fit(es.take(i as int), (depth - 1) as nat),
                decreases entries.len() - i,
            {
                assert(es.take(i + 1).drop_last() =~= es.take(i as int));
                let k = convert(&entries[i].0, depth - 1);
                let x = convert(&entries[i].1, depth - 1);
                match (k, x) {
                    (Some(k), Some(x)) => out.push((k, x)),
                    _ => {
                        proof {
                            assert((entries@[i as int].0.model@, entries@[i as int].1.model@) == es[i as int]);
                            assert(!fits(es[i as int].0, (depth - 1) as nat) || !fits(es[i as int].1, (depth - 1) as nat));
                            assert(fits(m, depth as nat) == entries_fit(es, (depth - 1) as nat));
                            if entries_fit(es, (depth - 1) as nat) {
                                lemma_entries_fit_each(es, (depth - 1) as nat, i as int);
                            }
                        }
                        return None;
                    },
                }
                i = i + 1;
            }
            assert(es.take(es.len() as int) =~= es);
            proof {
                lemma_entry_contents_each(out@);
                assert(fits(m, depth as nat) == entries_fit(es, (depth - 1) as nat));
            }
            assert forall|j: int| 0 <= j < es.len() implies entry_contents(out@)[j] == es[j] by {
                assert((content(out@[j].0), content(out@[j].1)) == es[j]);
            }
            assert(entry_contents(out@) =~= es);
            Some(Yaml::Mapping(out))
        },
    }
}

/// The tree a text reads as, when it is one well-formed document nested
/// at most `MAX_DEPTH` deep.
pub open spec fn document_tree(text: Seq<char>) -> Option<YamlV> {
    match yaml_doc(text) {
        Some(v) => if fits(v, MAX_DEPTH as nat) {
            Some(v)
        } else {
            None
        },
        None => None,
    }
}

/// Reads one YAML document into a tree, or gives why it could not be read.
pub fn parse_yaml(text: &str) -> (r: Result<Yaml, String>)
    ensures
        r is Ok <==> document_tree(text@) is Some,
        r matches Ok(y) ==> document_tree(text@) == Some(content(y)),
{
    match read_document(text) {
        Ok(n) => match convert(&n, MAX_DEPTH) {
            Some(y) => Ok(y),
            None => Err(crate::text::owned("document nested too deeply")),
        },
        Err(e) => Err(e),
    }
}

} // verus!
