//! A JSON document as the service reads and writes it, with the lookups and
//! updates that the endpoints need.

use vstd::prelude::*;
use crate::number::{digits_u64_spec, parse_digits_u64};
use crate::text::{char_vec, str_eq};

verus! {

/// A JSON value. A number is held as the text that a JSON serialiser prints
/// for it; an object as its entries in order.
pub enum Json {
    Null,
    Bool(bool),
    Number(String),
    Str(String),
    Array(Vec<Json>),
    Object(Vec<(String, Json)>),
}

/// The position of the entry for `key`: the last entry with that key.
pub open spec fn key_pos(entries: Seq<(String, Json)>, key: Seq<char>) -> Option<int>
    decreases entries.len(),
{
    if entries.len() == 0 {
        None
    } else if entries.last().0@ == key {
        Some(entries.len() - 1)
    } else {
        key_pos(entries.drop_last(), key)
    }
}

/// The value stored under `key`, if any.
pub open spec fn lookup(entries: Seq<(String, Json)>, key: Seq<char>) -> Option<Json> {
    match key_pos(entries, key) {
        Some(i) => Some(entries[i].1),
        None => None,
    }
}

/// The value of field `key` of `v`: none where `v` is not an object.
pub open spec fn field(v: Json, key: Seq<char>) -> Option<Json> {
    match v {
        Json::Object(entries) => lookup(entries@, key),
        _ => None,
    }
}

/// `entries` with `key` set to `value`: the entry for `key` gets the new
/// value in place, or a new entry is appended.
pub open spec fn insert_entry(entries: Seq<(String, Json)>, key: String, value: Json) -> Seq<
    (String, Json),
> {
    match key_pos(entries, key@) {
        Some(i) => entries.update(i, (entries[i].0, value)),
        None => entries.push((key, value)),
    }
}

/// Whether `r` is `v` with field `key` set to `value`: for an object, the
/// entries updated as `insert_entry` says; any other value unchanged.
pub open spec fn is_with_field(r: Json, v: Json, key: String, value: Json) -> bool {
    match v {
        Json::Object(entries) => match r {
            Json::Object(new_entries) => new_entries@ == insert_entry(entries@, key, value),
            _ => false,
        },
        _ => r == v,
    }
}

proof fn lemma_key_pos_bounds(entries: Seq<(String, Json)>, key: Seq<char>)
    ensures
        key_pos(entries, key) matches Some(i) ==> 0 <= i < entries.len() && entries[i].0@ == key,
        key_pos(entries, key) is None ==> forall|j: int|
            0 <= j < entries.len() ==> (#[trigger] entries[j]).0@ != key,
        key_pos(entries, key) matches Some(i) ==> forall|j: int|
            i < j < entries.len() ==> (#[trigger] entries[j]).0@ != key,
    decreases entries.len(),
{
    if entries.len() > 0 && entries.last().0@ != key {
        lemma_key_pos_bounds(entries.drop_last(), key);
        assert forall|j: int| 0 <= j < entries.len() - 1 implies (#[trigger] entries[j]) == entries.drop_last()[j] by {}
    }
}


/// Finds the entry for `key`: the last entry with that key.
pub fn find_key(entries: &Vec<(String, Json)>, key: &str) -> (r: Option<usize>)
    ensures
        match r {
            Some(i) => key_pos(entries@, key@) == Some(i as int),
            None => key_pos(entries@, key@) is None,
        },
        r matches Some(i) ==> i < entries@.len(),
{
    proof {
        lemma_key_pos_bounds(entries@, key@);
    }
    let mut i: usize = entries.len();
    assert(entries@.take(i as int) =~= entries@);
    while i > 0
        invariant
            i <= entries@.len(),
            key_pos(entries@, key@) == key_pos(entries@.take(i as int), key@),
        decreases i,
    {
        let ghost t = entries@.take(i as int);
        assert(t.last() == entries@[i - 1]);
        assert(t.drop_last() =~= entries@.take(i - 1));
        if str_eq(entries[i - 1].0.as_str(), key) {
            return Some(i - 1);
        }
        i = i - 1;
    }
    None
}

/// The value of field `key` of `v` (`serde_json::Value::get` with a string
/// index): none where `v` is not an object or has no such field.
pub fn get_field<'a>(v: &'a Json, key: &str) -> (r: Option<&'a Json>)
    ensures
        match r {
            Some(x) => field(*v, key@) == Some(*x),
            None => field(*v, key@) is None,
        },
{
    match v {
        Json::Object(entries) => match find_key(entries, key) {
            Some(i) => Some(&entries[i].1),
            None => None,
        },
        _ => None,
    }
}

/// Sets `key` to `value` among `entries`: the entry for `key` gets the new
/// value in place, or a new entry is appended (as `Map::insert` does).
pub fn insert_entry_exec(entries: &mut Vec<(String, Json)>, key: String, value: Json)
    ensures
        final(entries)@ == insert_entry(old(entries)@, key, value),
{
    match find_key(entries, key.as_str()) {
        Some(i) => {
            let k = entries[i].0.clone();
            entries.set(i, (k, value));
        },
        None => {
            entries.push((key, value));
        },
    }
}

/// `v` with field `key` set to `value` where `v` is an object
/// (`as_object_mut` then `insert`); any other value is returned unchanged.
pub fn set_field(v: Json, key: String, value: Json) -> (r: Json)
    ensures
        is_with_field(r, v, key, value),
{
    match v {
        Json::Object(entries) => {
            let mut entries = entries;
            insert_entry_exec(&mut entries, key, value);
            Json::Object(entries)
        },
        other => other,
    }
}

/// The text of field `key` of `v` where it is a JSON string; empty otherwise
/// (`get(key).and_then(as_str).unwrap_or("")`).
pub open spec fn field_text(v: Json, key: Seq<char>) -> Seq<char> {
    match field(v, key) {
        Some(Json::Str(s)) => s@,
        _ => Seq::empty(),
    }
}

/// The boolean of field `key` of `v` where it is a JSON boolean; `default`
/// otherwise (`get(key).and_then(as_bool).unwrap_or(default)`).
pub open spec fn field_flag(v: Json, key: Seq<char>, default: bool) -> bool {
    match field(v, key) {
        Some(Json::Bool(b)) => b,
        _ => default,
    }
}

/// The unsigned integer of field `key` of `v` where it is a JSON number
/// that is a non-negative integer fitting in `u64`; `default` otherwise
/// (`get(key).and_then(as_u64).unwrap_or(default)`).
pub open spec fn field_count(v: Json, key: Seq<char>, default: u64) -> u64 {
    match field(v, key) {
        Some(Json::Number(t)) => match digits_u64_spec(t@) {
            Some(n) => n,
            None => default,
        },
        _ => default,
    }
}

/// The text of field `key` of `v`, or the empty string.
pub fn field_text_exec(v: &Json, key: &str) -> (r: String)
    ensures
        r@ == field_text(*v, key@),
{
    match get_field(v, key) {
        Some(Json::Str(s)) => s.clone(),
        _ => String::new(),
    }
}

/// The boolean of field `key` of `v`, or `default`.
pub fn field_flag_exec(v: &Json, key: &str, default: bool) -> (r: bool)
    ensures
        r == field_flag(*v, key@, default),
{
    match get_field(v, key) {
        Some(Json::Bool(b)) => *b,
        _ => default,
    }
}

/// The unsigned integer of field `key` of `v`, or `default`.
pub fn field_count_exec(v: &Json, key: &str, default: u64) -> (r: u64)
    ensures
        r == field_count(*v, key@, default),
{
    match get_field(v, key) {
        Some(Json::Number(t)) => {
            let digits = char_vec(t.as_str());
            match parse_digits_u64(digits.as_slice()) {
                Some(n) => n,
                None => default,
            }
        },
        _ => default,
    }
}

/// What a listing endpoint's reply holds: a search reply is an object
/// `{ results: [...], total: n }`, whose `results` field is the list; any
/// other reply is the list itself.
pub open spec fn results_of(v: Json) -> Json {
    match field(v, "results"@) {
        Some(x) => x,
        None => v,
    }
}

/// Normalises a listing reply to its list of items: the `results` field
/// where `value` is an object that has one, else `value` unchanged.
pub fn as_results(value: Json) -> (r: Json)
    ensures
        r == results_of(value),
{
    match value {
        Json::Object(entries) => {
            let mut entries = entries;
            let found = find_key(&entries, "results");
            match found {
                Some(i) => {
                    let (_, x) = entries.remove(i);
                    x
                },
                None => Json::Object(entries),
            }
        },
        other => other,
    }
}


proof fn lemma_key_pos_at(entries: Seq<(String, Json)>, key: Seq<char>, i: int)
    requires
        0 <= i < entries.len(),
        entries[i].0@ == key,
        forall|j: int| i < j < entries.len() ==> (#[trigger] entries[j]).0@ != key,
    ensures
        key_pos(entries, key) == Some(i),
    decreases entries.len(),
{
    if i < entries.len() - 1 {
        let d = entries.drop_last();
        assert forall|j: int| i < j < d.len() implies (#[trigger] d[j]).0@ != key by {
            assert(d[j] == entries[j]);
        }
        lemma_key_pos_at(d, key, i);
    }
}

proof fn lemma_key_pos_same_keys(a: Seq<(String, Json)>, b: Seq<(String, Json)>, key: Seq<char>)
    requires
        a.len() == b.len(),
        forall|j: int| 0 <= j < a.len() ==> (#[trigger] a[j]).0 == b[j].0,
    ensures
        key_pos(a, key) == key_pos(b, key),
    decreases a.len(),
{
    if a.len() > 0 {
        let da = a.drop_last();
        let db = b.drop_last();
        assert forall|j: int| 0 <= j < da.len() implies (#[trigger] da[j]).0 == db[j].0 by {
            assert(da[j] == a[j]);
            assert(db[j] == b[j]);
        }
        lemma_key_pos_same_keys(da, db, key);
    }
}

/// Reading a field right after setting it gives the value just written, and
/// setting a field leaves every other field as it was.
pub proof fn law_insert_then_lookup(
    entries: Seq<(String, Json)>,
    key: String,
    value: Json,
    other: Seq<char>,
)
    ensures
        lookup(insert_entry(entries, key, value), key@) == Some(value),
        other != key@ ==> lookup(insert_entry(entries, key, value), other) == lookup(entries, other),
{
    lemma_key_pos_bounds(entries, key@);
    let n = insert_entry(entries, key, value);
    match key_pos(entries, key@) {
        Some(i) => {
            assert forall|j: int| i < j < n.len() implies (#[trigger] n[j]).0@ != key@ by {
                assert(n[j] == entries[j]);
            }
            lemma_key_pos_at(n, key@, i);
            assert forall|j: int| 0 <= j < n.len() implies (#[trigger] n[j]).0 == entries[j].0 by {}
            lemma_key_pos_same_keys(n, entries, other);
            if other != key@ {
                lemma_key_pos_bounds(entries, other);
                match key_pos(entries, other) {
                    Some(k) => {
                        assert(k != i);
                        assert(n[k] == entries[k]);
                    },
                    None => {},
                }
            }
        },
        None => {
            assert(n.drop_last() =~= entries);
            if other != key@ {
                lemma_key_pos_bounds(entries, other);
                match key_pos(entries, other) {
                    Some(k) => {
                        assert(n[k] == entries[k]);
                    },
                    None => {},
                }
            }
        },
    }
}


// ---------------------------------------------------------------------------
// JSON text
// ---------------------------------------------------------------------------

/// The outside JSON document type that the parser and printer work on.
#[verifier::external_type_specification]
#[verifier::external_body]
pub struct ExJsonValue(serde_json::Value);

/// Name for the result of `serde_json::from_str::<serde_json::Value>`: the
/// document a JSON text denotes (numbers as the text `serde_json` prints for
/// them, objects with their entries), or the parser's error message.
pub uninterp spec fn json_text_parse(text: Seq<char>) -> Result<Json, Seq<char>>;

/// Name for the result of `serde_json::to_string_pretty` on a document: its
/// pretty-printed JSON text.
pub uninterp spec fn json_pretty_text(v: Json) -> Seq<char>;

/// Turns a parsed `serde_json::Value` into a `Json`, one variant for one
/// variant; a number becomes the text `serde_json` prints for it.
#[verifier::external_body]
fn json_of_value(v: serde_json::Value) -> Json {
    match v {
        serde_json::Value::Null => Json::Null,
        serde_json::Value::Bool(b) => Json::Bool(b),
        serde_json::Value::Number(n) => Json::Number(n.to_string()),
        serde_json::Value::String(t) => Json::Str(t),
        serde_json::Value::Array(items) => Json::Array(items.into_iter().map(json_of_value).collect()),
        serde_json::Value::Object(m) => Json::Object(m.into_iter().map(|(k, x)| (k, json_of_value(x))).collect()),
    }
}

/// Turns a `Json` into a `serde_json::Value`, one variant for one variant;
/// a number's text is read back as a `serde_json` number.
#[verifier::external_body]
fn value_of_json(j: &Json) -> serde_json::Value {
    match j {
        Json::Null => serde_json::Value::Null,
        Json::Bool(b) => serde_json::Value::Bool(*b),
        Json::Number(t) => t.parse::<serde_json::Number>().map(serde_json::Value::Number).unwrap_or(serde_json::Value::Null),
        Json::Str(t) => serde_json::Value::String(t.clone()),
        Json::Array(items) => serde_json::Value::Array(items.iter().map(value_of_json).collect()),
        Json::Object(es) => serde_json::Value::Object(es.iter().map(|(k, x)| (k.clone(), value_of_json(x))).collect()),
    }
}

/// Parses a JSON text (`serde_json::from_str::<serde_json::Value>`): the
/// document, or the parser's error message (its `Display`). Both are the
/// named result of the parse of `text`.
#[verifier::external_body]
pub fn parse_json_text(text: &str) -> (r: Result<Json, String>)
    ensures
        match r {
            Ok(j) => json_text_parse(text@) == Ok::<Json, Seq<char>>(j),
            Err(e) => json_text_parse(text@) == Err::<Json, Seq<char>>(e@),
        },
{
    serde_json::from_str::<serde_json::Value>(text).map(json_of_value).map_err(|e| e.to_string())
}

/// Pretty-prints a document (`serde_json::to_string_pretty`, falling back
/// to the compact form should printing fail); the text is the named
/// pretty form of `v`.
#[verifier::external_body]
pub fn pretty_json(v: &Json) -> (r: String)
    ensures
        r@ == json_pretty_text(*v),
{
    let value = value_of_json(v);
    serde_json::to_string_pretty(&value).unwrap_or_else(|_| value.to_string())
}

} // verus!
