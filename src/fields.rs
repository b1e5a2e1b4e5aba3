//! Reading the fields of a mapping. Absent keys take their default; where a
//! mapping or a list is expected, a null stands for an empty one.

use vstd::prelude::*;
use crate::text::{has_key, unique_names};
use crate::yaml::{as_text, distinct_keys, find, lookup, Yaml};

verus! {

/// The entries of a node read where a mapping is expected.
pub open spec fn as_entries(y: Yaml) -> Option<Seq<(Yaml, Yaml)>> {
    match y {
        Yaml::Mapping(m) => Some(m@),
        Yaml::Null => Some(Seq::empty()),
        _ => None,
    }
}

/// The items of a node read where a list is expected.
pub open spec fn as_items(y: Yaml) -> Option<Seq<Yaml>> {
    match y {
        Yaml::List(v) => Some(v@),
        Yaml::Null => Some(Seq::empty()),
        _ => None,
    }
}

/// An optional text field: absent or null gives `None`, text gives itself,
/// anything else is refused (the outer `None`).
pub open spec fn opt_text(f: Option<Yaml>) -> Option<Option<String>> {
    match f {
        None => Some(None),
        Some(y) => if y is Null {
            Some(None)
        } else {
            match as_text(y) {
                Some(s) => Some(Some(s)),
                None => None,
            }
        },
    }
}

/// A required text field.
pub open spec fn req_text(f: Option<Yaml>) -> Option<String> {
    match f {
        Some(y) => as_text(y),
        None => None,
    }
}

/// An optional flag.
pub open spec fn opt_bool(f: Option<Yaml>) -> Option<Option<bool>> {
    match f {
        None => Some(None),
        Some(Yaml::Null) => Some(None),
        Some(Yaml::Bool(b)) => Some(Some(b)),
        _ => None,
    }
}

/// Whether every item is text.
pub open spec fn all_text(items: Seq<Yaml>) -> bool {
    forall|i: int| 0 <= i < items.len() ==> (#[trigger] as_text(items[i])) is Some
}

/// A list of texts.
pub open spec fn text_list(y: Yaml) -> Option<Seq<String>> {
    match as_items(y) {
        Some(items) => if all_text(items) {
            Some(Seq::new(items.len(), |i: int| as_text(items[i])->0))
        } else {
            None
        },
        None => None,
    }
}

/// A list-of-texts field that is empty when absent.
pub open spec fn text_list_field(f: Option<Yaml>) -> Option<Seq<String>> {
    match f {
        None => Some(Seq::empty()),
        Some(y) => text_list(y),
    }
}

/// An optional list-of-texts field.
pub open spec fn opt_text_list(f: Option<Yaml>) -> Option<Option<Seq<String>>> {
    match f {
        None => Some(None),
        Some(y) => if y is Null {
            Some(None)
        } else {
            match text_list(y) {
                Some(v) => Some(Some(v)),
                None => None,
            }
        },
    }
}

/// Whether every entry has a string key and a text value.
pub open spec fn all_text_entries(m: Seq<(Yaml, Yaml)>) -> bool {
    forall|i: int|
        0 <= i < m.len() ==> (#[trigger] m[i]).0 is Str && as_text(m[i].1) is Some
}

/// A mapping from text to text, in document order; no key may repeat.
pub open spec fn text_map(y: Yaml) -> Option<Seq<(String, String)>> {
    match as_entries(y) {
        Some(m) => if all_text_entries(m) && distinct_keys(m) {
            Some(Seq::new(m.len(), |i: int| (m[i].0->Str_0, as_text(m[i].1)->0)))
        } else {
            None
        },
        None => None,
    }
}

/// A text-to-text mapping field that is empty when absent.
pub open spec fn text_map_field(f: Option<Yaml>) -> Option<Seq<(String, String)>> {
    match f {
        None => Some(Seq::empty()),
        Some(y) => text_map(y),
    }
}

/// The view of an optional list.
pub open spec fn opt_view<T>(v: Option<Vec<T>>) -> Option<Seq<T>> {
    match v {
        Some(x) => Some(x@),
        None => None,
    }
}

/// Reads an optional text field.
pub fn get_opt_text(m: &Vec<(Yaml, Yaml)>, key: &str) -> (r: Option<Option<String>>)
    ensures
        r == opt_text(find(m@, key@)),
{
    match lookup(m, key) {
        None => Some(None),
        Some(Yaml::Null) => Some(None),
        Some(Yaml::Str(s)) => Some(Some(s.clone())),
        Some(Yaml::Number(t)) => Some(Some(t.clone())),
        Some(_) => None,
    }
}

/// Reads a required text field.
pub fn get_req_text(m: &Vec<(Yaml, Yaml)>, key: &str) -> (r: Option<String>)
    ensures
        r == req_text(find(m@, key@)),
{
    match lookup(m, key) {
        Some(Yaml::Str(s)) => Some(s.clone()),
        Some(Yaml::Number(t)) => Some(t.clone()),
        _ => None,
    }
}

/// Reads an optional flag.
pub fn get_opt_bool(m: &Vec<(Yaml, Yaml)>, key: &str) -> (r: Option<Option<bool>>)
    ensures
        r == opt_bool(find(m@, key@)),
{
    match lookup(m, key) {
        None => Some(None),
        Some(Yaml::Null) => Some(None),
        Some(Yaml::Bool(b)) => Some(Some(*b)),
        Some(_) => None,
    }
}

/// Reads a list of texts.
pub fn read_text_list(y: &Yaml) -> (r: Option<Vec<String>>)
    ensures
        opt_view(r) == text_list(*y),
{
    match y {
        Yaml::Null => {
            let v: Vec<String> = Vec::new();
            assert(v@ =~= Seq::<String>::empty());
            Some(v)
        },
        Yaml::List(items) => {
            let mut out: Vec<String> = Vec::new();
            let mut i: usize = 0;
            while i < items.len()
                invariant
                    0 <= i <= items.len(),
                    *y == Yaml::List(*items),
                    out@.len() == i,
                    forall|j: int| 0 <= j < i ==> Some(#[trigger] out@[j]) == as_text(items@[j]),
                decreases items.len() - i,
            {
                match &items[i] {
                    Yaml::Str(s) => out.push(s.clone()),
                    Yaml::Number(t) => out.push(t.clone()),
                    _ => {
                        assert(as_text(items@[i as int]) is None);
                        assert(!all_text(items@));
                        return None;
                    },
                }
                i = i + 1;
            }
            assert(all_text(items@)) by {
                assert forall|j: int| 0 <= j < items@.len() implies (#[trigger] as_text(
                    items@[j],
                )) is Some by {
                    assert(Some(out@[j]) == as_text(items@[j]));
                }
            }
            assert(out@ =~= Seq::new(items@.len(), |j: int| as_text(items@[j])->0));
            Some(out)
        },
        _ => None,
    }
}

/// Reads a list-of-texts field, empty when absent.
pub fn get_text_list(m: &Vec<(Yaml, Yaml)>, key: &str) -> (r: Option<Vec<String>>)
    ensures
        opt_view(r) == text_list_field(find(m@, key@)),
{
    match lookup(m, key) {
        None => {
            let v: Vec<String> = Vec::new();
            assert(v@ =~= Seq::<String>::empty());
            Some(v)
        },
        Some(y) => read_text_list(y),
    }
}

/// Reads an optional list-of-texts field.
pub fn get_opt_text_list(m: &Vec<(Yaml, Yaml)>, key: &str) -> (r: Option<Option<Vec<String>>>)
    ensures
        match r {
            None => opt_text_list(find(m@, key@)) is None,
            Some(x) => opt_text_list(find(m@, key@)) == Some(opt_view(x)),
        },
{
    match lookup(m, key) {
        None => Some(None),
        Some(Yaml::Null) => Some(None),
        Some(y) => match read_text_list(y) {
            Some(v) => Some(Some(v)),
            None => None,
        },
    }
}

/// Reads a mapping from text to text.
pub fn read_text_map(y: &Yaml) -> (r: Option<Vec<(String, String)>>)
    ensures
        opt_view(r) == text_map(*y),
{
    match y {
        Yaml::Null => {
            let v: Vec<(String, String)> = Vec::new();
            assert(v@ =~= Seq::<(String, String)>::empty());
            Some(v)
        },
        Yaml::Mapping(m) => {
            let mut out: Vec<(String, String)> = Vec::new();
            let mut i: usize = 0;
            while i < m.len()
                invariant
                    0 <= i <= m.len(),
                    *y == Yaml::Mapping(*m),
                    out@.len() == i,
                    unique_names(out@),
                    forall|j: int|
                        0 <= j < i ==> (#[trigger] m@[j]).0 is Str && as_text(m@[j].1) == Some(
                            out@[j].1,
                        ) && m@[j].0->Str_0 == out@[j].0,
                decreases m.len() - i,
            {
                let k = match &m[i].0 {
                    Yaml::Str(k) => {
                        if has_key(&out, k.as_str()) {
                            proof {
                                let j = choose|j: int| 0 <= j < out@.len() && out@[j].0@ == k@;
                                assert(m@[j].0->Str_0 == out@[j].0);
                                assert(!distinct_keys(m@));
                            }
                            return None;
                        }
                        k.clone()
                    },
                    _ => {
                        assert(!(m@[i as int].0 is Str && as_text(m@[i as int].1) is Some));
                        return None;
                    },
                };
                let v = match &m[i].1 {
                    Yaml::Str(s) => s.clone(),
                    Yaml::Number(t) => t.clone(),
                    _ => {
                        assert(!(m@[i as int].0 is Str && as_text(m@[i as int].1) is Some));
                        return None;
                    },
                };
                let ghost before = out@;
                out.push((k, v));
                assert(unique_names(out@)) by {
                    assert forall|a: int, b: int| 0 <= a < out@.len() && 0 <= b < out@.len() && a != b implies out@[a].0@ != out@[b].0@ by {
                        if a < i && b < i {
                            assert(out@[a] == before[a] && out@[b] == before[b]);
                        } else if a < i {
                            assert(out@[a] == before[a]);
                        } else {
                            assert(out@[b] == before[b]);
                        }
                    }
                }
                i = i + 1;
            }
            assert(all_text_entries(m@));
            assert(distinct_keys(m@)) by {
                assert forall|a: int, b: int|
                    0 <= a < m@.len() && 0 <= b < m@.len() && a != b && m@[a].0 is Str && m@[b].0 is Str
                        implies m@[a].0->Str_0@ != m@[b].0->Str_0@ by {
                    assert(m@[a].0->Str_0 == out@[a].0);
                    assert(m@[b].0->Str_0 == out@[b].0);
                }
            }
            assert(out@ =~= Seq::new(m@.len(), |j: int| (m@[j].0->Str_0, as_text(m@[j].1)->0)));
            Some(out)
        },
        _ => None,
    }
}

/// Reads a text-to-text mapping field, empty when absent.
pub fn get_text_map(m: &Vec<(Yaml, Yaml)>, key: &str) -> (r: Option<Vec<(String, String)>>)
    ensures
        opt_view(r) == text_map_field(find(m@, key@)),
{
    match lookup(m, key) {
        None => {
            let v: Vec<(String, String)> = Vec::new();
            assert(v@ =~= Seq::<(String, String)>::empty());
            Some(v)
        },
        Some(y) => read_text_map(y),
    }
}

/// Lemma: a text map read from a document has no repeated key.
pub proof fn lemma_text_map_unique(f: Option<Yaml>, v: Seq<(String, String)>)
    requires
        text_map_field(f) == Some(v),
    ensures
        unique_names(v),
{
    if let Some(y) = f {
        let m = as_entries(y)->0;
        assert forall|a: int, b: int| 0 <= a < v.len() && 0 <= b < v.len() && a != b implies v[a].0@
            != v[b].0@ by {
            assert(v[a].0 == m[a].0->Str_0);
            assert(v[b].0 == m[b].0->Str_0);
        }
    }
}

} // verus!
