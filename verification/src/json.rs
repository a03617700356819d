//! A JSON value model and the accessors the IPC message handling reads.

use vstd::prelude::*;
use crate::text::str_eq;

verus! {

/// A JSON value. Numbers keep their textual form; object entries keep their order.
pub enum Json {
    Null,
    Bool(bool),
    Number(String),
    Str(String),
    Array(Vec<Json>),
    Object(Vec<(String, Json)>),
}

/// The mathematical form of a JSON value.
pub enum JsonV {
    Null,
    Bool(bool),
    Number(Seq<char>),
    Str(Seq<char>),
    Array(Seq<JsonV>),
    Object(Seq<(Seq<char>, JsonV)>),
}

/// The mathematical form of a JSON value.
pub open spec fn json_view(v: Json) -> JsonV
    decreases v,
{
    match v {
        Json::Null => JsonV::Null,
        Json::Bool(b) => JsonV::Bool(b),
        Json::Number(n) => JsonV::Number(n@),
        Json::Str(s) => JsonV::Str(s@),
        Json::Array(items) => {
            proof { assert(decreases_to!(v => items)); assert(decreases_to!(items => items@)); }
            JsonV::Array(items_view(items@))
        },
        Json::Object(entries) => {
            proof { assert(decreases_to!(v => entries)); assert(decreases_to!(entries => entries@)); }
            JsonV::Object(entries_view(entries@))
        },
    }
}

/// The mathematical form of a sequence of JSON values.
pub open spec fn items_view(s: Seq<Json>) -> Seq<JsonV>
    decreases s,
{
    if s.len() == 0 {
        Seq::empty()
    } else {
        seq![json_view(s[0])] + items_view(s.drop_first())
    }
}

/// The mathematical form of the entries of a JSON object.
pub open spec fn entries_view(s: Seq<(String, Json)>) -> Seq<(Seq<char>, JsonV)>
    decreases s,
{
    if s.len() == 0 {
        Seq::empty()
    } else {
        proof { assert(decreases_to!(s => s[0])); assert(decreases_to!(s[0] => s[0].1)); }
        seq![(s[0].0@, json_view(s[0].1))] + entries_view(s.drop_first())
    }
}

impl View for Json {
    type V = JsonV;

    open spec fn view(&self) -> JsonV {
        json_view(*self)
    }
}

proof fn lemma_entries_view_push(s: Seq<(String, Json)>, e: (String, Json))
    ensures
        entries_view(s.push(e)) == entries_view(s).push((e.0@, json_view(e.1))),
    decreases s.len(),
{
    if s.len() == 0 {
        assert(s.push(e).drop_first() =~= Seq::<(String, Json)>::empty());
        assert(entries_view(Seq::<(String, Json)>::empty()) == Seq::<(Seq<char>, JsonV)>::empty());
        assert(s.push(e)[0] == e);
        assert(entries_view(s.push(e)) =~= entries_view(s).push((e.0@, json_view(e.1))));
    } else {
        assert(s.push(e).drop_first() =~= s.drop_first().push(e));
        lemma_entries_view_push(s.drop_first(), e);
        assert(s.push(e)[0] == s[0]);
        let head = seq![(s[0].0@, json_view(s[0].1))];
        assert(entries_view(s.push(e)) == head + entries_view(s.drop_first().push(e)));
        assert(entries_view(s) == head + entries_view(s.drop_first()));
        assert(entries_view(s.push(e)) =~= entries_view(s).push((e.0@, json_view(e.1))));
    }
}

proof fn lemma_items_view_push(s: Seq<Json>, e: Json)
    ensures
        items_view(s.push(e)) == items_view(s).push(json_view(e)),
    decreases s.len(),
{
    if s.len() == 0 {
        assert(s.push(e).drop_first() =~= Seq::<Json>::empty());
        assert(items_view(Seq::<Json>::empty()) == Seq::<JsonV>::empty());
        assert(s.push(e)[0] == e);
        assert(items_view(s.push(e)) =~= items_view(s).push(json_view(e)));
    } else {
        assert(s.push(e).drop_first() =~= s.drop_first().push(e));
        lemma_items_view_push(s.drop_first(), e);
        assert(s.push(e)[0] == s[0]);
        let head = seq![json_view(s[0])];
        assert(items_view(s.push(e)) == head + items_view(s.drop_first().push(e)));
        assert(items_view(s) == head + items_view(s.drop_first()));
        assert(items_view(s.push(e)) =~= items_view(s).push(json_view(e)));
    }
}

/// An empty list of object members.
pub fn new_members() -> (r: Vec<(String, Json)>)
    ensures
        entries_view(r@) == Seq::<(Seq<char>, JsonV)>::empty(),
{
    let r: Vec<(String, Json)> = Vec::new();
    assert(entries_view(r@) =~= Seq::<(Seq<char>, JsonV)>::empty());
    r
}

/// A JSON string holding `s`.
pub fn json_str(s: &str) -> (r: Json)
    ensures
        r@ == JsonV::Str(s@),
{
    Json::Str(s.to_owned())
}

/// Appends the member `key: value` to the entries of an object under construction.
pub fn push_member(entries: &mut Vec<(String, Json)>, key: &str, value: Json)
    ensures
        entries_view(final(entries)@) == entries_view(old(entries)@).push((key@, value@)),
{
    let k = key.to_owned();
    proof { lemma_entries_view_push(entries@, (k, value)); }
    entries.push((k, value));
}

/// Appends `value` to the items of an array under construction.
pub fn push_item(items: &mut Vec<Json>, value: Json)
    ensures
        items_view(final(items)@) == items_view(old(items)@).push(value@),
{
    proof { lemma_items_view_push(items@, value); }
    items.push(value);
}

/// The value stored under `key` among `entries` (the first entry with that key).
pub open spec fn entry_value(entries: Seq<(String, Json)>, key: Seq<char>) -> Option<Json>
    decreases entries.len(),
{
    if entries.len() == 0 {
        None
    } else if entries[0].0@ == key {
        Some(entries[0].1)
    } else {
        entry_value(entries.drop_first(), key)
    }
}

/// The characters of an optional string slice.
pub open spec fn opt_str_view(o: Option<&str>) -> Option<Seq<char>> {
    match o {
        Some(s) => Some(s@),
        None => None,
    }
}

/// The characters of an optional string.
pub open spec fn opt_string_view(o: Option<String>) -> Option<Seq<char>> {
    match o {
        Some(s) => Some(s@),
        None => None,
    }
}

/// `Some(s)` when `s` is not empty, `None` otherwise.
pub open spec fn non_empty(o: Option<Seq<char>>) -> Option<Seq<char>> {
    match o {
        Some(s) => if s.len() > 0 { Some(s) } else { None },
        None => None,
    }
}

/// The value reached by following `path` from `v`, or `None` as soon as a
/// step lands on null (a missing member counts as null).
pub open spec fn nested(v: Json, path: Seq<Seq<char>>) -> Option<Json>
    decreases path.len(),
{
    if path.len() == 0 {
        Some(v)
    } else {
        let next = v.field(path[0]);
        if next is Null {
            None
        } else {
            nested(next, path.drop_first())
        }
    }
}

impl Json {
    /// The string inside a JSON string value.
    pub open spec fn str_value(self) -> Option<Seq<char>> {
        match self {
            Json::Str(s) => Some(s@),
            _ => None,
        }
    }

    /// The boolean inside a JSON boolean value.
    pub open spec fn bool_value(self) -> Option<bool> {
        match self {
            Json::Bool(b) => Some(b),
            _ => None,
        }
    }

    pub fn as_str(&self) -> (r: Option<&str>)
        ensures
            opt_str_view(r) == self.str_value(),
    {
        match self {
            Json::Str(s) => Some(s.as_str()),
            _ => None,
        }
    }

    pub fn as_bool(&self) -> (r: Option<bool>)
        ensures
            r == self.bool_value(),
    {
        match self {
            Json::Bool(b) => Some(*b),
            _ => None,
        }
    }

    pub fn is_null(&self) -> (r: bool)
        ensures
            r == (*self is Null),
    {
        match self {
            Json::Null => true,
            _ => false,
        }
    }

    /// `v == "text"`: true exactly when the value is the string `s`.
    pub fn eq_str(&self, s: &str) -> (r: bool)
        ensures
            r == (self.str_value() == Some(s@)),
    {
        match self {
            Json::Str(x) => str_eq(x.as_str(), s),
            _ => false,
        }
    }

    /// The string under `key`, or the empty string when it is missing or not a string.
    pub fn get_string(&self, key: &str) -> (r: String)
        ensures
            r@ == match self.field(key@).str_value() {
                Some(s) => s,
                None => Seq::<char>::empty(),
            },
    {
        match self.index(key).as_str() {
            Some(s) => s.to_owned(),
            None => String::new(),
        }
    }

    /// The string under `key` when it is present, a string and not empty.
    pub fn get_str_option(&self, key: &str) -> (r: Option<String>)
        ensures
            opt_string_view(r) == non_empty(self.field(key@).str_value()),
    {
        match self.index(key).as_str() {
            Some(s) => if s.is_empty() { None } else { Some(s.to_owned()) },
            None => None,
        }
    }

    /// The boolean under `key`, or `default` when it is missing or not a boolean.
    pub fn get_bool(&self, key: &str, default: bool) -> (r: bool)
        ensures
            r == match self.field(key@).bool_value() {
                Some(b) => b,
                None => default,
            },
    {
        match self.index(key).as_bool() {
            Some(b) => b,
            None => default,
        }
    }

    /// The value at `path`, or `None` once a step reaches null.
    pub fn get_nested(&self, path: &[&str]) -> (r: Option<&Json>)
        ensures
            match r {
                Some(j) => nested(*self, path@.map_values(|k: &str| k@)) == Some(*j),
                None => nested(*self, path@.map_values(|k: &str| k@)) is None,
            },
    {
        let ghost keys = path@.map_values(|k: &str| k@);
        let mut current: &Json = self;
        let mut i: usize = 0;
        assert(keys.skip(0) =~= keys);
        while i < path.len()
            invariant
                i <= path@.len(),
                keys == path@.map_values(|k: &str| k@),
                nested(*self, keys) == nested(*current, keys.skip(i as int)),
            decreases path.len() - i,
        {
            assert(keys.skip(i as int).drop_first() =~= keys.skip(i + 1));
            assert(keys.skip(i as int)[0] == path@[i as int]@);
            let next = current.index(path[i]);
            if next.is_null() {
                return None;
            }
            current = next;
            i += 1;
        }
        assert(keys.skip(i as int).len() == 0);
        Some(current)
    }
    /// `v[key]`: the member under `key` of an object, or null when absent or when
    /// the value is not an object.
    pub open spec fn field(self, key: Seq<char>) -> Json {
        match self {
            Json::Object(m) => match entry_value(m@, key) {
                Some(v) => v,
                None => Json::Null,
            },
            _ => Json::Null,
        }
    }

    pub fn index(&self, key: &str) -> (r: &Json)
        ensures
            *r == self.field(key@),
    {
        match self {
            Json::Object(m) => {
                let mut i: usize = 0;
                assert(m@.skip(0) =~= m@);
                while i < m.len()
                    invariant
                        i <= m@.len(),
                        *self == Json::Object(*m),
                        entry_value(m@, key@) == entry_value(m@.skip(i as int), key@),
                    decreases m.len() - i,
                {
                    assert(m@.skip(i as int).drop_first() =~= m@.skip(i + 1));
                    if str_eq(m[i].0.as_str(), key) {
                        assert(m@.skip(i as int)[0] == m@[i as int]);
                        return &m[i].1;
                    }
                    i += 1;
                }
                assert(m@.skip(i as int).len() == 0);
                &Json::Null
            },
            _ => &Json::Null,
        }
    }
}

#[verifier::external_type_specification]
#[verifier::external_body]
pub struct ExJsonValue(serde_json::Value);

/// The value `serde_json` parses from `bytes`, or `None` when they are not
/// one JSON document.
pub uninterp spec fn parsed_json(bytes: Seq<u8>) -> Option<JsonV>;

/// The compact text `serde_json` writes for `v`.
pub uninterp spec fn json_text(v: JsonV) -> Seq<char>;

/// Converts a `serde_json::Value` into a `Json`, variant for variant: a number
/// by its text, an object's members in the order its map yields them.
#[verifier::external_body]
fn json_of_value(v: &serde_json::Value) -> Json {
    match v {
        serde_json::Value::Null => Json::Null,
        serde_json::Value::Bool(b) => Json::Bool(*b),
        serde_json::Value::Number(n) => Json::Number(n.to_string()),
        serde_json::Value::String(t) => Json::Str(t.clone()),
        serde_json::Value::Array(items) => Json::Array(items.iter().map(json_of_value).collect()),
        serde_json::Value::Object(m) => Json::Object(m.iter().map(|(k, x)| (k.clone(), json_of_value(x))).collect()),
    }
}

/// Converts a `Json` into a `serde_json::Value`, variant for variant: a number
/// from its text (null when `serde_json` refuses the text as a number).
#[verifier::external_body]
fn value_of_json(v: &Json) -> serde_json::Value {
    match v {
        Json::Null => serde_json::Value::Null,
        Json::Bool(b) => serde_json::Value::Bool(*b),
        Json::Number(n) => serde_json::from_str::<serde_json::Number>(n).map(serde_json::Value::Number).unwrap_or(serde_json::Value::Null),
        Json::Str(t) => serde_json::Value::String(t.clone()),
        Json::Array(items) => serde_json::Value::Array(items.iter().map(value_of_json).collect()),
        Json::Object(m) => serde_json::Value::Object(m.iter().map(|(k, x)| (k.clone(), value_of_json(x))).collect()),
    }
}

/// Parses `bytes` as one JSON document with `serde_json::from_slice` and
/// converts the value; `None` when `serde_json` refuses the bytes. The result
/// depends on the bytes alone; the contract names it `parsed_json`.
#[verifier::external_body]
pub(crate) fn parse_json(bytes: &[u8]) -> (r: Option<Json>)
    ensures
        match r {
            Some(v) => parsed_json(bytes@) == Some(v@),
            None => parsed_json(bytes@) is None,
        },
{
    match serde_json::from_slice::<serde_json::Value>(bytes) {
        Ok(v) => Some(json_of_value(&v)),
        Err(_) => None,
    }
}

/// The compact JSON text of `v`, as `serde_json::Value`'s `Display` writes it.
/// The text depends on `v` alone; the contract names it `json_text`.
#[verifier::external_body]
pub(crate) fn to_json_text(v: &Json) -> (r: String)
    ensures
        r@ == json_text(v@),
{
    value_of_json(v).to_string()
}

/// The value stored under `key` among the entries of an object value (the
/// first entry with that key).
pub open spec fn entry_value_v(entries: Seq<(Seq<char>, JsonV)>, key: Seq<char>) -> Option<JsonV>
    decreases entries.len(),
{
    if entries.len() == 0 {
        None
    } else if entries[0].0 == key {
        Some(entries[0].1)
    } else {
        entry_value_v(entries.drop_first(), key)
    }
}

/// `v[key]` on a value: the member under `key` of an object, or null.
pub open spec fn field_v(v: JsonV, key: Seq<char>) -> JsonV {
    match v {
        JsonV::Object(m) => match entry_value_v(m, key) {
            Some(x) => x,
            None => JsonV::Null,
        },
        _ => JsonV::Null,
    }
}

/// The string inside a string value.
pub open spec fn str_v(v: JsonV) -> Option<Seq<char>> {
    match v {
        JsonV::Str(t) => Some(t),
        _ => None,
    }
}

proof fn lemma_entry_value_view(es: Seq<(String, Json)>, key: Seq<char>)
    ensures
        entry_value_v(entries_view(es), key) == match entry_value(es, key) {
            Some(x) => Some(x@),
            None => None::<JsonV>,
        },
    decreases es.len(),
{
    if es.len() > 0 {
        let ev = entries_view(es);
        assert(ev[0] == (es[0].0@, json_view(es[0].1)));
        assert(ev.drop_first() =~= entries_view(es.drop_first()));
        lemma_entry_value_view(es.drop_first(), key);
    }
}

/// Reading a member through the value model agrees with reading it on the
/// executable value.
pub proof fn lemma_field_view(j: Json, key: Seq<char>)
    ensures
        field_v(j@, key) == j.field(key)@,
        str_v(j.field(key)@) == j.field(key).str_value(),
{
    match j {
        Json::Object(m) => {
            lemma_entry_value_view(m@, key);
        },
        _ => {},
    }
}

} // verus!
