//! A mathematical model of JSON values, and the serde_json calls that parse,
//! build, read and print them.

use vstd::prelude::*;

verus! {

/// What a JSON value holds. An integer number is kept as such; any other
/// number, which serde_json holds as a double, is kept as the bits of that
/// double.
pub enum JsonModel {
    Null,
    Bool(bool),
    Int(int),
    Fraction(u64),
    Str(Seq<char>),
    Array(Seq<JsonModel>),
    Object(Map<Seq<char>, JsonModel>),
}

#[verifier::external_type_specification]
#[verifier::external_body]
pub struct ExJsonValue(serde_json::Value);

/// What a `serde_json::Value` holds.
pub uninterp spec fn json_model(v: serde_json::Value) -> JsonModel;

/// The value that serde_json parses from a text, if the text is JSON.
pub uninterp spec fn json_parsed(text: Seq<char>) -> Option<JsonModel>;

/// The compact text that serde_json prints for a value.
pub uninterp spec fn json_text(m: JsonModel) -> Seq<char>;

/// Whether one of the pairs has `key`.
pub open spec fn has_key(entries: Seq<(Seq<char>, JsonModel)>, key: Seq<char>) -> bool
    decreases entries.len(),
{
    entries.len() > 0 && (entries.last().0 == key || has_key(entries.drop_last(), key))
}

/// No two of the key/value pairs share a key.
pub open spec fn distinct_keys(entries: Seq<(Seq<char>, JsonModel)>) -> bool
    decreases entries.len(),
{
    entries.len() == 0 || (!has_key(entries.drop_last(), entries.last().0) && distinct_keys(
        entries.drop_last(),
    ))
}

/// Pairs whose keys differ two by two have distinct keys.
pub proof fn lemma_distinct_keys(entries: Seq<(Seq<char>, JsonModel)>)
    requires
        forall|i: int, j: int| 0 <= i < j < entries.len() ==> entries[i].0 != entries[j].0,
    ensures
        distinct_keys(entries),
    decreases entries.len(),
{
    if entries.len() > 0 {
        let init = entries.drop_last();
        lemma_distinct_keys(init);
        lemma_has_key(init, entries.last().0);
    }
}

/// A key is among the pairs exactly when some pair has it.
pub proof fn lemma_has_key(entries: Seq<(Seq<char>, JsonModel)>, key: Seq<char>)
    ensures
        has_key(entries, key) <==> exists|i: int| 0 <= i < entries.len() && entries[i].0 == key,
    decreases entries.len(),
{
    if entries.len() > 0 {
        let init = entries.drop_last();
        lemma_has_key(init, key);
        if has_key(init, key) {
            let i = choose|i: int| 0 <= i < init.len() && init[i].0 == key;
            assert(entries[i].0 == key);
        }
        if exists|i: int| 0 <= i < entries.len() && entries[i].0 == key {
            let i = choose|i: int| 0 <= i < entries.len() && entries[i].0 == key;
            if i < init.len() {
                assert(init[i].0 == key);
            }
        }
    }
}

/// The object of key/value pairs with distinct keys.
pub open spec fn object_of(entries: Seq<(Seq<char>, JsonModel)>) -> Map<Seq<char>, JsonModel>
    decreases entries.len(),
{
    if entries.len() == 0 {
        Map::empty()
    } else {
        let last = entries.last();
        object_of(entries.drop_last()).insert(last.0, last.1)
    }
}

/// The models of a list of key/value pairs.
pub open spec fn entry_models(entries: Seq<(String, serde_json::Value)>) -> Seq<(Seq<char>, JsonModel)> {
    entries.map_values(|e: (String, serde_json::Value)| (e.0@, json_model(e.1)))
}

/// The models of a list of values.
pub open spec fn item_models(items: Seq<serde_json::Value>) -> Seq<JsonModel> {
    items.map_values(|v: serde_json::Value| json_model(v))
}

/// A key/value pair for `json_object`.
pub fn json_entry(key: &str, v: serde_json::Value) -> (r: (String, serde_json::Value))
    ensures
        r.0@ == key@,
        r.1 == v,
{
    (key.to_string(), v)
}

/// Relies on `serde_json::from_str::<Value>`: the value that a JSON text holds.
#[verifier::external_body]
pub fn parse_json(text: &str) -> (r: Option<serde_json::Value>)
    ensures
        match r {
            Some(v) => json_parsed(text@) == Some(json_model(v)),
            None => json_parsed(text@) is None,
        },
{
    serde_json::from_str::<serde_json::Value>(text).ok()
}

/// Relies on `Display for serde_json::Value`: the compact JSON text of a value.
#[verifier::external_body]
pub fn print_json(v: &serde_json::Value) -> (r: String)
    ensures
        r@ == json_text(json_model(*v)),
{
    v.to_string()
}

/// Relies on `serde_json::Value::get` with a string key: the member of that
/// name when the value is an object that has one.
#[verifier::external_body]
pub fn member<'a>(v: &'a serde_json::Value, key: &str) -> (r: Option<&'a serde_json::Value>)
    ensures
        match json_model(*v) {
            JsonModel::Object(m) => if m.contains_key(key@) {
                r is Some && json_model(*r->0) == m[key@]
            } else {
                r is None
            },
            _ => r is None,
        },
{
    v.get(key)
}

/// Relies on `serde_json::Value::is_object`.
#[verifier::external_body]
pub fn is_object(v: &serde_json::Value) -> (r: bool)
    ensures
        r == (json_model(*v) is Object),
{
    v.is_object()
}

/// Relies on `serde_json::Value::as_str`: the text of a JSON string.
#[verifier::external_body]
pub fn text_of(v: &serde_json::Value) -> (r: Option<&str>)
    ensures
        match json_model(*v) {
            JsonModel::Str(s) => r is Some && r->0@ == s,
            _ => r is None,
        },
{
    v.as_str()
}

/// Relies on `serde_json::Value::as_bool`: the value of a JSON boolean.
#[verifier::external_body]
pub fn flag_of(v: &serde_json::Value) -> (r: Option<bool>)
    ensures
        match json_model(*v) {
            JsonModel::Bool(b) => r == Some(b),
            _ => r is None,
        },
{
    v.as_bool()
}

/// Relies on `serde_json::Value::as_i64`: an integer that fits in `i64`.
#[verifier::external_body]
pub fn int_of(v: &serde_json::Value) -> (r: Option<i64>)
    ensures
        match json_model(*v) {
            JsonModel::Int(i) => if i64::MIN <= i <= i64::MAX {
                r == Some(i as i64)
            } else {
                r is None
            },
            _ => r is None,
        },
{
    v.as_i64()
}

/// Relies on `From<&str> for serde_json::Value`: a JSON string.
#[verifier::external_body]
pub fn json_str(s: &str) -> (r: serde_json::Value)
    ensures
        json_model(r) == JsonModel::Str(s@),
{
    serde_json::Value::from(s)
}

/// Relies on `From<bool> for serde_json::Value`: a JSON boolean.
#[verifier::external_body]
pub fn json_bool(b: bool) -> (r: serde_json::Value)
    ensures
        json_model(r) == JsonModel::Bool(b),
{
    serde_json::Value::from(b)
}

/// Relies on `From<i64> for serde_json::Value`: a JSON integer.
#[verifier::external_body]
pub fn json_int(i: i64) -> (r: serde_json::Value)
    ensures
        json_model(r) == JsonModel::Int(i as int),
{
    serde_json::Value::from(i)
}

/// Relies on `serde_json::Value::Null`.
#[verifier::external_body]
pub fn json_null() -> (r: serde_json::Value)
    ensures
        json_model(r) == JsonModel::Null,
{
    serde_json::Value::Null
}

/// Relies on `From<Vec<Value>> for serde_json::Value`: a JSON array of the
/// items in order.
#[verifier::external_body]
pub fn json_array(items: Vec<serde_json::Value>) -> (r: serde_json::Value)
    ensures
        json_model(r) == JsonModel::Array(item_models(items@)),
{
    serde_json::Value::from(items)
}

/// Relies on `FromIterator<(String, Value)> for serde_json::Value`: a JSON
/// object of the pairs, whose keys are distinct.
#[verifier::external_body]
pub fn json_object(entries: Vec<(String, serde_json::Value)>) -> (r: serde_json::Value)
    requires
        distinct_keys(entry_models(entries@)),
    ensures
        json_model(r) == JsonModel::Object(object_of(entry_models(entries@))),
{
    entries.into_iter().collect::<serde_json::Value>()
}

} // verus!
