//! JSON values for embedding and for template contexts. A value is
//! serde_json's, carried with the tree it stands for, so that its text can
//! be named as a function of that tree.

use vstd::prelude::*;
use crate::yaml::{
    content, contents, entry_contents, lemma_contents_each, lemma_entry_contents_each, Yaml, YamlV,
};

verus! {

/// A JSON value as a mathematical tree. A number is kept as the text it was
/// read from, or as a count.
pub enum JsonV {
    Null,
    Bool(bool),
    Number(Seq<char>),
    Count(nat),
    Str(Seq<char>),
    Array(Seq<JsonV>),
    /// Fields in the order given; a repeated key keeps its first place and
    /// its last value.
    Object(Seq<(Seq<char>, JsonV)>),
}

/// The compact text `serde_json::to_string` writes for a value.
pub uninterp spec fn json_text_of(v: JsonV) -> Seq<char>;

/// The indented text `serde_json::to_string_pretty` writes for a value.
pub uninterp spec fn json_pretty_of(v: JsonV) -> Seq<char>;

/// A string that JSON writes without escapes: no quote, no backslash, no
/// control character.
pub open spec fn plain_text(s: Seq<char>) -> bool {
    forall|i: int| 0 <= i < s.len() ==> (#[trigger] s[i]) != '"' && s[i] != '\\' && s[i] >= ' '
}

/// A serde_json value with the tree it stands for.
pub struct Json {
    pub(crate) value: serde_json::Value,
    model: Ghost<JsonV>,
}

impl View for Json {
    type V = JsonV;

    closed spec fn view(&self) -> JsonV {
        self.model@
    }
}

#[verifier::external_type_specification]
#[verifier::external_body]
pub struct ExJsonValue(serde_json::Value);

/// Relies on `serde_json::Value::Null`.
#[verifier::external_body]
pub(crate) fn json_null() -> (r: Json)
    ensures
        r@ == JsonV::Null,
{
    Json { value: serde_json::Value::Null, model: Ghost(vstd::pervasive::arbitrary()) }
}

/// Relies on `serde_json::Value::Bool`.
#[verifier::external_body]
pub(crate) fn json_bool(b: bool) -> (r: Json)
    ensures
        r@ == JsonV::Bool(b),
{
    Json { value: serde_json::Value::Bool(b), model: Ghost(vstd::pervasive::arbitrary()) }
}

/// Relies on `serde_json::Value::String`.
#[verifier::external_body]
pub(crate) fn json_string(s: String) -> (r: Json)
    ensures
        r@ == JsonV::Str(s@),
{
    Json { value: serde_json::Value::String(s), model: Ghost(vstd::pervasive::arbitrary()) }
}

/// Relies on `serde_json::Value::from` for `u64`.
#[verifier::external_body]
pub(crate) fn json_count(n: u64) -> (r: Json)
    ensures
        r@ == JsonV::Count(n as nat),
{
    Json { value: serde_json::Value::from(n), model: Ghost(vstd::pervasive::arbitrary()) }
}

/// Relies on `serde_json::Number`'s `FromStr`: a number from its decimal
/// text; text that is no JSON number (such as `.inf`) gives null, as
/// serde_json writes a non-finite float.
#[verifier::external_body]
pub(crate) fn json_number(text: &str) -> (r: Json)
    ensures
        r@ == JsonV::Number(text@),
{
    let value = text.parse::<serde_json::Number>().map(serde_json::Value::Number).unwrap_or(serde_json::Value::Null);
    Json { value, model: Ghost(vstd::pervasive::arbitrary()) }
}

/// The trees of a list of values.
pub open spec fn models(s: Seq<Json>) -> Seq<JsonV> {
    Seq::new(s.len(), |i: int| s[i]@)
}

/// The fields of an object, as key text and tree.
pub open spec fn field_models(s: Seq<(String, Json)>) -> Seq<(Seq<char>, JsonV)> {
    Seq::new(s.len(), |i: int| (s[i].0@, s[i].1@))
}

/// Relies on `serde_json::Value::Array`.
#[verifier::external_body]
pub(crate) fn json_array(items: Vec<Json>) -> (r: Json)
    ensures
        r@ == JsonV::Array(models(items@)),
{
    let value = serde_json::Value::Array(items.into_iter().map(|j| j.value).collect());
    Json { value, model: Ghost(vstd::pervasive::arbitrary()) }
}

/// Relies on `serde_json::Map`'s `FromIterator`, an insertion-ordered map
/// (feature `preserve_order`): an object of these fields, in this order.
#[verifier::external_body]
pub(crate) fn json_object(fields: Vec<(String, Json)>) -> (r: Json)
    ensures
        r@ == JsonV::Object(field_models(fields@)),
{
    let value = serde_json::Value::Object(fields.into_iter().map(|(k, j)| (k, j.value)).collect());
    Json { value, model: Ghost(vstd::pervasive::arbitrary()) }
}

/// Relies on `serde_json::to_string`, which cannot fail on a `Value`: a
/// string without special characters is written between quotes as it is,
/// a flag as `true` or `false`, null as `null`.
#[verifier::external_body]
pub(crate) fn json_text(v: &Json) -> (r: String)
    ensures
        r@ == json_text_of(v@),
        v@ matches JsonV::Str(s) ==> (plain_text(s) ==> r@ == seq!['"'] + s + seq!['"']),
        v@ == JsonV::Bool(true) ==> r@ == "true"@,
        v@ == JsonV::Bool(false) ==> r@ == "false"@,
        v@ == JsonV::Null ==> r@ == "null"@,
{
    serde_json::to_string(&v.value).unwrap_or_default()
}

/// Relies on `serde_json::to_string_pretty`, which cannot fail on a `Value`.
#[verifier::external_body]
pub(crate) fn json_pretty(v: &Json) -> (r: String)
    ensures
        r@ == json_pretty_of(v@),
{
    serde_json::to_string_pretty(&v.value).unwrap_or_default()
}

/// The text a key has as a JSON object key: strings as they are, numbers
/// and flags as their text; other keys have none.
pub open spec fn json_key(k: YamlV) -> Option<Seq<char>> {
    match k {
        YamlV::Str(s) => Some(s),
        YamlV::Number(t) => Some(t),
        YamlV::Bool(b) => Some(if b { "true"@ } else { "false"@ }),
        _ => None,
    }
}

/// A document tree as a JSON tree, or `None` when a mapping key cannot be
/// a JSON object key.
pub open spec fn yaml_json(v: YamlV) -> Option<JsonV>
    decreases v, 0nat,
{
    match v {
        YamlV::Null => Some(JsonV::Null),
        YamlV::Bool(b) => Some(JsonV::Bool(b)),
        YamlV::Number(t) => Some(JsonV::Number(t)),
        YamlV::Str(s) => Some(JsonV::Str(s)),
        YamlV::List(ms) => match items_json(ms) {
            Some(js) => Some(JsonV::Array(js)),
            None => None,
        },
        YamlV::Mapping(es) => match fields_json(es) {
            Some(fs) => Some(JsonV::Object(fs)),
            None => None,
        },
    }
}

pub open spec fn items_json(ms: Seq<YamlV>) -> Option<Seq<JsonV>>
    decreases ms, ms.len(),
{
    if ms.len() == 0 {
        Some(Seq::empty())
    } else {
        match (items_json(ms.drop_last()), yaml_json(ms.last())) {
            (Some(a), Some(b)) => Some(a.push(b)),
            _ => None,
        }
    }
}

pub open spec fn fields_json(es: Seq<(YamlV, YamlV)>) -> Option<Seq<(Seq<char>, JsonV)>>
    decreases es, es.len(),
{
    if es.len() == 0 {
        Some(Seq::empty())
    } else {
        match (fields_json(es.drop_last()), json_key(es.last().0), yaml_json(es.last().1)) {
            (Some(a), Some(k), Some(b)) => Some(a.push((k, b))),
            _ => None,
        }
    }
}

fn json_key_of(k: &Yaml) -> (r: Option<String>)
    ensures
        match r {
            Some(s) => json_key(content(*k)) == Some(s@),
            None => json_key(content(*k)) is None,
        },
{
    match k {
        Yaml::Str(s) => Some(s.clone()),
        Yaml::Number(t) => Some(t.clone()),
        Yaml::Bool(b) => Some(crate::text::owned(if *b { "true" } else { "false" })),
        _ => None,
    }
}

/// A document tree as a JSON value.
pub fn yaml_to_json(y: &Yaml) -> (r: Option<Json>)
    ensures
        match r {
            Some(j) => yaml_json(content(*y)) == Some(j@),
            None => yaml_json(content(*y)) is None,
        },
    decreases y,
{
    match y {
        Yaml::Null => Some(json_null()),
        Yaml::Bool(b) => Some(json_bool(*b)),
        Yaml::Number(t) => Some(json_number(t.as_str())),
        Yaml::Str(s) => Some(json_string(s.clone())),
        Yaml::List(items) => {
            let mut out: Vec<Json> = Vec::new();
            let mut i: usize = 0;
            proof {
                lemma_contents_each(items@);
                assert(contents(items@).take(0) =~= Seq::<YamlV>::empty());
            }
            while i < items.len()
                invariant
                    0 <= i <= items.len(),
                    *y == Yaml::List(*items),
                    items_json(contents(items@).take(i as int)) == Some(models(out@)),
                    contents(items@).len() == items@.len(),
                    forall|j: int| 0 <= j < items@.len() ==> contents(items@)[j] == content(#[trigger] items@[j]),
                decreases items.len() - i,
            {
                proof {
                    vstd::std_specs::vec::axiom_vec_index_decreases(*items, i as int);
                    assert(decreases_to!(*y => (*y)->List_0));
                    assert(contents(items@).take(i + 1).drop_last() =~= contents(items@).take(i as int));
                    assert(contents(items@).take(i + 1).last() == content(items@[i as int]));
                }
                let ghost before = out@;
                match yaml_to_json(&items[i]) {
                    Some(j) => {
                        out.push(j);
                        assert(models(out@) =~= models(before).push(j@));
                    },
                    None => {
                        proof {
                            lemma_items_json_prefix(contents(items@), i as int);
                        }
                        return None;
                    },
                }
                i = i + 1;
            }
            assert(contents(items@).take(items.len() as int) =~= contents(items@));
            Some(json_array(out))
        },
        Yaml::Mapping(entries) => {
            let mut out: Vec<(String, Json)> = Vec::new();
            let mut i: usize = 0;
            proof {
                lemma_entry_contents_each(entries@);
                assert(entry_contents(entries@).take(0) =~= Seq::<(YamlV, YamlV)>::empty());
            }
            while i < entries.len()
                invariant
                    0 <= i <= entries.len(),
                    *y == Yaml::Mapping(*entries),
                    fields_json(entry_contents(entries@).take(i as int)) == Some(field_models(out@)),
                    entry_contents(entries@).len() == entries@.len(),
                    forall|j: int| 0 <= j < entries@.len() ==> entry_contents(entries@)[j] == (content((#[trigger] entries@[j]).0), content(entries@[j].1)),
                decreases entries.len() - i,
            {
                proof {
                    vstd::std_specs::vec::axiom_vec_index_decreases(*entries, i as int);
                    assert(decreases_to!(*y => (*y)->Mapping_0));
                    assert(entry_contents(entries@).take(i + 1).drop_last() =~= entry_contents(entries@).take(i as int));
                    assert(entry_contents(entries@).take(i + 1).last() == (content(entries@[i as int].0), content(entries@[i as int].1)));
                }
                let ghost before = out@;
                let k = json_key_of(&entries[i].0);
                let v = yaml_to_json(&entries[i].1);
                match (k, v) {
                    (Some(k), Some(v)) => {
                        out.push((k, v));
                        assert(field_models(out@) =~= field_models(before).push((k@, v@)));
                    },
                    _ => {
                        proof {
                            lemma_fields_json_prefix(entry_contents(entries@), i as int);
                        }
                        return None;
                    },
                }
                i = i + 1;
            }
            assert(entry_contents(entries@).take(entries.len() as int) =~= entry_contents(entries@));
            Some(json_object(out))
        },
    }
}

proof fn lemma_items_json_prefix(ms: Seq<YamlV>, k: int)
    requires
        0 <= k < ms.len(),
        items_json(ms.take(k + 1)) is None,
    ensures
        items_json(ms) is None,
    decreases ms.len(),
{
    if k + 1 < ms.len() {
        assert(ms.drop_last().take(k + 1) =~= ms.take(k + 1));
        lemma_items_json_prefix(ms.drop_last(), k);
    } else {
        assert(ms.take(k + 1) =~= ms);
    }
}

proof fn lemma_fields_json_prefix(es: Seq<(YamlV, YamlV)>, k: int)
    requires
        0 <= k < es.len(),
        fields_json(es.take(k + 1)) is None,
    ensures
        fields_json(es) is None,
    decreases es.len(),
{
    if k + 1 < es.len() {
        assert(es.drop_last().take(k + 1) =~= es.take(k + 1));
        lemma_fields_json_prefix(es.drop_last(), k);
    } else {
        assert(es.take(k + 1) =~= es);
    }
}

/// The compact JSON text of a document tree, `null` when it has none.
pub open spec fn yaml_json_text_of(v: YamlV) -> Seq<char> {
    match yaml_json(v) {
        Some(j) => json_text_of(j),
        None => "null"@,
    }
}

/// The compact JSON text of a document tree; `null` when it has none.
pub fn yaml_json_text(y: &Yaml) -> (r: String)
    ensures
        r@ == yaml_json_text_of(content(*y)),
        content(*y) matches YamlV::Str(s) ==> (plain_text(s) ==> r@ == seq!['"'] + s + seq!['"']),
{
    match yaml_to_json(y) {
        Some(v) => json_text(&v),
        None => crate::text::owned("null"),
    }
}

/// An optional text as a JSON string or null.
pub open spec fn opt_str_json(s: Option<String>) -> JsonV {
    match s {
        Some(x) => JsonV::Str(x@),
        None => JsonV::Null,
    }
}

/// An optional text as a JSON string or null.
pub fn json_opt_string(s: &Option<String>) -> (r: Json)
    ensures
        r@ == opt_str_json(*s),
{
    match s {
        Some(s) => json_string(s.clone()),
        None => json_null(),
    }
}

/// A list of texts as a JSON array of strings.
pub open spec fn strs_json(v: Seq<String>) -> JsonV {
    JsonV::Array(Seq::new(v.len(), |i: int| JsonV::Str(v[i]@)))
}

/// A list of texts as a JSON array of strings.
pub fn json_strings(v: &Vec<String>) -> (r: Json)
    ensures
        r@ == strs_json(v@),
{
    let mut out: Vec<Json> = Vec::new();
    let mut i: usize = 0;
    while i < v.len()
        invariant
            0 <= i <= v.len(),
            out@.len() == i,
            forall|j: int| 0 <= j < i ==> (#[trigger] out@[j])@ == JsonV::Str(v@[j]@),
        decreases v.len() - i,
    {
        out.push(json_string(v[i].clone()));
        i = i + 1;
    }
    assert(models(out@) =~= Seq::new(v@.len(), |j: int| JsonV::Str(v@[j]@)));
    json_array(out)
}

} // verus!
