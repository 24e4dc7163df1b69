//! A JSON document model used by the request-rewriting and status-reading
//! logic, with a mathematical view (`Json`) that contracts speak of.
//!
//! Objects keep their entries in order; a lookup finds the first entry with
//! the key and an insert replaces that entry in place or appends a new one,
//! which is map semantics whenever keys are distinct (`keys_distinct`): parsed
//! JSON objects have distinct keys, and inserting keeps them distinct
//! (`law_insert_keeps_keys_distinct`).
use vstd::prelude::*;

use crate::text::str_eq;

verus! {

/// The mathematical value of a JSON document.
pub enum Json {
    Null,
    Bool(bool),
    /// A number, kept as its textual form.
    Number(Seq<char>),
    Str(Seq<char>),
    Array(Seq<Json>),
    Object(Seq<(Seq<char>, Json)>),
}

/// An executable JSON document.
#[derive(Debug, PartialEq, Eq)]
pub enum JsonValue {
    Null,
    Bool(bool),
    /// A number, kept as its textual form (e.g. `"200"`).
    Number(String),
    String(String),
    Array(Vec<JsonValue>),
    Object(Vec<(String, JsonValue)>),
}

impl JsonValue {
    pub open spec fn model(self) -> Json
        decreases self,
    {
        match self {
            JsonValue::Null => Json::Null,
            JsonValue::Bool(b) => Json::Bool(b),
            JsonValue::Number(n) => Json::Number(n@),
            JsonValue::String(s) => Json::Str(s@),
            JsonValue::Array(items) => Json::Array(
                Seq::new(
                    items@.len(),
                    |i: int|
                        if 0 <= i < items@.len() {
                            items@[i].model()
                        } else {
                            Json::Null
                        },
                ),
            ),
            JsonValue::Object(entries) => Json::Object(
                Seq::new(
                    entries@.len(),
                    |i: int|
                        if 0 <= i < entries@.len() {
                            (entries@[i].0@, entries@[i].1.model())
                        } else {
                            (Seq::empty(), Json::Null)
                        },
                ),
            ),
        }
    }
}

impl View for JsonValue {
    type V = Json;

    open spec fn view(&self) -> Json {
        self.model()
    }
}

/// Index of the first entry whose key is `key`, or the number of entries.
pub open spec fn key_index(entries: Seq<(Seq<char>, Json)>, key: Seq<char>) -> int
    decreases entries.len(),
{
    if entries.len() == 0 {
        0
    } else if entries[0].0 == key {
        0
    } else {
        1 + key_index(entries.drop_first(), key)
    }
}

/// The value of the first entry with `key`, if any.
pub open spec fn entries_lookup(entries: Seq<(Seq<char>, Json)>, key: Seq<char>) -> Option<Json> {
    let i = key_index(entries, key);
    if i < entries.len() {
        Some(entries[i].1)
    } else {
        None
    }
}

/// The entries after setting `key` to `value`: the first entry with the key is
/// replaced in place, or a new entry is appended.
pub open spec fn entries_insert(
    entries: Seq<(Seq<char>, Json)>,
    key: Seq<char>,
    value: Json,
) -> Seq<(Seq<char>, Json)> {
    let i = key_index(entries, key);
    if i < entries.len() {
        entries.update(i, (key, value))
    } else {
        entries.push((key, value))
    }
}

pub proof fn lemma_key_index_bounds(entries: Seq<(Seq<char>, Json)>, key: Seq<char>)
    ensures
        0 <= key_index(entries, key) <= entries.len(),
        key_index(entries, key) < entries.len() ==> entries[key_index(entries, key)].0 == key,
        forall|j: int| 0 <= j < key_index(entries, key) ==> entries[j].0 != key,
    decreases entries.len(),
{
    if entries.len() > 0 && entries[0].0 != key {
        lemma_key_index_bounds(entries.drop_first(), key);
        assert forall|j: int| 0 <= j < key_index(entries, key) implies entries[j].0 != key by {
            if j > 0 {
                assert(entries[j] == entries.drop_first()[j - 1]);
            }
        }
    }
}

/// A key index is characterised by: the key is at that index and nowhere before.
pub proof fn lemma_key_index_unique(entries: Seq<(Seq<char>, Json)>, key: Seq<char>, k: int)
    requires
        0 <= k <= entries.len(),
        k < entries.len() ==> entries[k].0 == key,
        forall|j: int| 0 <= j < k ==> entries[j].0 != key,
    ensures
        key_index(entries, key) == k,
    decreases entries.len(),
{
    if entries.len() > 0 && k > 0 {
        assert(entries[0].0 != key);
        assert forall|j: int| 0 <= j < k - 1 implies entries.drop_first()[j].0 != key by {
            assert(entries.drop_first()[j] == entries[j + 1]);
        }
        lemma_key_index_unique(entries.drop_first(), key, k - 1);
    }
}

impl Json {
    /// The field `key` of an object; `None` for a non-object or a missing key.
    pub open spec fn field(self, key: Seq<char>) -> Option<Json> {
        match self {
            Json::Object(entries) => entries_lookup(entries, key),
            _ => None,
        }
    }

    /// The string content of a string value.
    pub open spec fn string(self) -> Option<Seq<char>> {
        match self {
            Json::Str(s) => Some(s),
            _ => None,
        }
    }

    /// The element at index `i` of an array.
    pub open spec fn element(self, i: int) -> Option<Json> {
        match self {
            Json::Array(items) => if 0 <= i < items.len() {
                Some(items[i])
            } else {
                None
            },
            _ => None,
        }
    }

    /// The entries of an object.
    pub open spec fn entries(self) -> Option<Seq<(Seq<char>, Json)>> {
        match self {
            Json::Object(entries) => Some(entries),
            _ => None,
        }
    }
}

pub open spec fn opt_model(v: Option<&JsonValue>) -> Option<Json> {
    match v {
        Some(x) => Some(x@),
        None => None,
    }
}

/// The model of a list of executable entries.
pub open spec fn entries_model(entries: Seq<(String, JsonValue)>) -> Seq<(Seq<char>, Json)> {
    Seq::new(entries.len(), |i: int| (entries[i].0@, entries[i].1@))
}

pub proof fn lemma_object_model(entries: Vec<(String, JsonValue)>)
    ensures
        JsonValue::Object(entries)@ == Json::Object(entries_model(entries@)),
{
    assert(JsonValue::Object(entries)@->Object_0 =~= entries_model(entries@));
}

pub proof fn lemma_array_model(items: Vec<JsonValue>)
    ensures
        JsonValue::Array(items)@ == Json::Array(items@.map_values(|x: JsonValue| x@)),
{
    assert(JsonValue::Array(items)@->Array_0 =~= items@.map_values(|x: JsonValue| x@));
}

impl JsonValue {
    /// The field `key` of an object value.
    pub fn get(&self, key: &str) -> (r: Option<&JsonValue>)
        ensures
            opt_model(r) == self@.field(key@),
    {
        match self {
            JsonValue::Object(entries) => {
                proof {
                    lemma_object_model(*entries);
                }
                let i = find_key(entries, key);
                if i < entries.len() {
                    Some(&entries[i].1)
                } else {
                    None
                }
            },
            _ => None,
        }
    }

    /// The content of a string value.
    pub fn as_str(&self) -> (r: Option<&str>)
        ensures
            match r {
                Some(s) => self@.string() == Some(s@),
                None => self@.string() is None,
            },
    {
        match self {
            JsonValue::String(s) => Some(s.as_str()),
            _ => None,
        }
    }

    /// The element at `index` of an array value.
    pub fn at(&self, index: usize) -> (r: Option<&JsonValue>)
        ensures
            opt_model(r) == self@.element(index as int),
    {
        match self {
            JsonValue::Array(items) => {
                proof {
                    lemma_array_model(*items);
                }
                if index < items.len() {
                    Some(&items[index])
                } else {
                    None
                }
            },
            _ => None,
        }
    }

    /// A copy of the document with the same model.
    pub fn deep_clone(&self) -> (r: JsonValue)
        ensures
            r@ == self@,
        decreases self,
    {
        match self {
            JsonValue::Null => JsonValue::Null,
            JsonValue::Bool(b) => JsonValue::Bool(*b),
            JsonValue::Number(n) => JsonValue::Number(n.clone()),
            JsonValue::String(s) => JsonValue::String(s.clone()),
            JsonValue::Array(items) => {
                let mut out: Vec<JsonValue> = Vec::new();
                let mut i: usize = 0;
                while i < items.len()
                    invariant
                        0 <= i <= items.len(),
                        out@.len() == i,
                        *self == JsonValue::Array(*items),
                        forall|j: int| 0 <= j < i ==> #[trigger] out@[j]@ == items@[j]@,
                    decreases items.len() - i,
                {
                    proof {
                        assert(decreases_to!(*self => self->Array_0));
                        assert(decreases_to!(*items => items@));
                        assert(decreases_to!(items@ => items@[i as int]));
                        assert(decreases_to!(*self => items@[i as int]));
                    }
                    let c = items[i].deep_clone();
                    out.push(c);
                    i = i + 1;
                }
                proof {
                    lemma_array_model(out);
                    lemma_array_model(*items);
                    assert(out@.map_values(|x: JsonValue| x@) =~= items@.map_values(|x: JsonValue| x@));
                }
                JsonValue::Array(out)
            },
            JsonValue::Object(entries) => {
                let mut out: Vec<(String, JsonValue)> = Vec::new();
                let mut i: usize = 0;
                while i < entries.len()
                    invariant
                        0 <= i <= entries.len(),
                        out@.len() == i,
                        *self == JsonValue::Object(*entries),
                        forall|j: int|
                            0 <= j < i ==> #[trigger] out@[j].0@ == entries@[j].0@ && out@[j].1@
                                == entries@[j].1@,
                    decreases entries.len() - i,
                {
                    let k = entries[i].0.clone();
                    proof {
                        assert(decreases_to!(*self => self->Object_0));
                        assert(decreases_to!(*entries => entries@));
                        assert(decreases_to!(entries@ => entries@[i as int]));
                        assert(decreases_to!(entries@[i as int] => entries@[i as int].1));
                        assert(decreases_to!(*self => entries@[i as int].1));
                    }
                    let v = entries[i].1.deep_clone();
                    out.push((k, v));
                    i = i + 1;
                }
                proof {
                    lemma_object_model(out);
                    lemma_object_model(*entries);
                    assert(entries_model(out@) =~= entries_model(entries@));
                }
                JsonValue::Object(out)
            },
        }
    }
}

impl Clone for JsonValue {
    fn clone(&self) -> (r: JsonValue)
        ensures
            r@ == self@,
    {
        self.deep_clone()
    }
}

/// Index of the first entry whose key is `key`, or the number of entries.
pub fn find_key(entries: &Vec<(String, JsonValue)>, key: &str) -> (r: usize)
    ensures
        r as int == key_index(entries_model(entries@), key@),
{
    let ghost es = entries_model(entries@);
    let mut i: usize = 0;
    while i < entries.len() && !str_eq(entries[i].0.as_str(), key)
        invariant
            0 <= i <= entries.len(),
            es == entries_model(entries@),
            forall|j: int| 0 <= j < i ==> es[j].0 != key@,
        decreases entries.len() - i,
    {
        i = i + 1;
    }
    proof {
        lemma_key_index_unique(es, key@, i as int);
    }
    i
}

/// Set `key` to `value` in a list of object entries.
pub fn entries_set(entries: &mut Vec<(String, JsonValue)>, key: String, value: JsonValue)
    ensures
        entries_model(final(entries)@) == entries_insert(entries_model(old(entries)@), key@, value@),
{
    let ghost es = entries_model(entries@);
    let ghost k = key@;
    let ghost vm = value@;
    let i = find_key(entries, key.as_str());
    if i < entries.len() {
        entries.set(i, (key, value));
        assert(entries_model(entries@) =~= es.update(i as int, (k, vm)));
    } else {
        entries.push((key, value));
        assert(entries_model(entries@) =~= es.push((k, vm)));
    }
}

/// Reading a key just written gives back the value written.
pub proof fn law_lookup_after_insert_same(
    entries: Seq<(Seq<char>, Json)>,
    key: Seq<char>,
    value: Json,
)
    ensures
        entries_lookup(entries_insert(entries, key, value), key) == Some(value),
{
    lemma_key_index_bounds(entries, key);
    let i = key_index(entries, key);
    let after = entries_insert(entries, key, value);
    assert forall|j: int| 0 <= j < i implies after[j].0 != key by {
        assert(after[j] == entries[j]);
    }
    lemma_key_index_unique(after, key, i);
}

/// Writing a key leaves the value of every other key as it was.
pub proof fn law_lookup_after_insert_other(
    entries: Seq<(Seq<char>, Json)>,
    key: Seq<char>,
    value: Json,
    other: Seq<char>,
)
    requires
        other != key,
    ensures
        entries_lookup(entries_insert(entries, key, value), other) == entries_lookup(entries, other),
{
    lemma_key_index_bounds(entries, key);
    lemma_key_index_bounds(entries, other);
    let i = key_index(entries, key);
    let i2 = key_index(entries, other);
    let after = entries_insert(entries, key, value);
    if i2 < entries.len() {
        assert forall|j: int| 0 <= j < i2 implies after[j].0 != other by {
            if j != i {
                assert(after[j] == entries[j]);
            }
        }
        assert(i2 != i);
        assert(after[i2] == entries[i2]);
        lemma_key_index_unique(after, other, i2);
    } else {
        assert forall|j: int| 0 <= j < after.len() implies after[j].0 != other by {
            if j < entries.len() && j != i {
                assert(after[j] == entries[j]);
            }
        }
        lemma_key_index_unique(after, other, after.len() as int);
    }
}

/// No two entries of an object share a key (as in a parsed JSON object).
pub open spec fn keys_distinct(entries: Seq<(Seq<char>, Json)>) -> bool {
    forall|i: int, j: int|
        0 <= i < entries.len() && 0 <= j < entries.len() && i != j ==> entries[i].0 != entries[j].0
}

/// Setting a key keeps the keys of an object distinct.
pub proof fn law_insert_keeps_keys_distinct(
    entries: Seq<(Seq<char>, Json)>,
    key: Seq<char>,
    value: Json,
)
    requires
        keys_distinct(entries),
    ensures
        keys_distinct(entries_insert(entries, key, value)),
{
    lemma_key_index_bounds(entries, key);
    let after = entries_insert(entries, key, value);
    let k = key_index(entries, key);
    assert forall|i: int, j: int|
        0 <= i < after.len() && 0 <= j < after.len() && i != j implies after[i].0 != after[j].0 by {
        if k < entries.len() {
            if i != k && j != k {
                assert(after[i] == entries[i] && after[j] == entries[j]);
            } else if i == k {
                assert(after[j] == entries[j]);
                assert(entries[k].0 == key);
            } else {
                assert(after[i] == entries[i]);
                assert(entries[k].0 == key);
            }
        } else {
            if i < entries.len() && j < entries.len() {
                assert(after[i] == entries[i] && after[j] == entries[j]);
            } else if i == entries.len() {
                assert(after[j] == entries[j]);
            } else {
                assert(after[i] == entries[i]);
            }
        }
    }
}

} // verus!
