//! An owned JSON value tree: the wire shape every codec in this crate reads
//! and writes, plus the trusted text edge that serde_json provides.

use vstd::prelude::*;

verus! {

/// An owned JSON value.
///
/// Object members are kept as a sequence of key/value pairs in wire order;
/// a lookup takes the first pair with a matching key. A number is carried
/// as its decimal text and never interpreted: no field of this crate's wire
/// vocabulary holds a number, numbers occur only inside ignored members.
pub enum Json {
    Null,
    Bool(bool),
    Number(String),
    String(String),
    Array(Vec<Json>),
    Object(Vec<(String, Json)>),
}

/// The first value paired with `key` among the members of `fields` from
/// position `i` on; `None` if no such member exists.
pub open spec fn lookup_from(fields: Seq<(String, Json)>, key: Seq<char>, i: int) -> Option<Json>
    decreases fields.len() - i,
{
    if i < 0 || i >= fields.len() {
        None
    } else if fields[i].0@ == key {
        Some(fields[i].1)
    } else {
        lookup_from(fields, key, i + 1)
    }
}

/// The first value paired with `key` in an object's member list.
pub open spec fn lookup(fields: Seq<(String, Json)>, key: Seq<char>) -> Option<Json> {
    lookup_from(fields, key, 0)
}

/// `j` is a JSON string holding exactly `s`.
pub open spec fn is_json_str(j: Json, s: Seq<char>) -> bool {
    match j {
        Json::String(v) => v@ == s,
        _ => false,
    }
}

/// `j` is an object with no members.
pub open spec fn is_empty_object(j: Json) -> bool {
    match j {
        Json::Object(fs) => fs@.len() == 0,
        _ => false,
    }
}

/// Member `i` of `fs` is named `key` and holds the string `val`.
pub open spec fn str_member(fs: Seq<(String, Json)>, i: int, key: Seq<char>, val: Seq<char>) -> bool {
    0 <= i < fs.len() && fs[i].0@ == key && is_json_str(fs[i].1, val)
}

/// Relies on str's `PartialEq`: two string slices compare equal exactly
/// when they hold the same characters.
#[verifier::external_body]
pub(crate) fn str_eq(a: &str, b: &str) -> (r: bool)
    ensures
        r == (a@ == b@),
{
    a == b
}

/// Finds the first member of `fields` named `key`, as `lookup` describes.
pub fn lookup_field<'a>(fields: &'a Vec<(String, Json)>, key: &str) -> (r: Option<&'a Json>)
    ensures
        match r {
            Some(v) => lookup(fields@, key@) == Some(*v),
            None => lookup(fields@, key@) is None,
        },
{
    lookup_field_from(fields, key, 0)
}

fn lookup_field_from<'a>(fields: &'a Vec<(String, Json)>, key: &str, i: usize) -> (r: Option<
    &'a Json,
>)
    requires
        i <= fields@.len(),
    ensures
        match r {
            Some(v) => lookup_from(fields@, key@, i as int) == Some(*v),
            None => lookup_from(fields@, key@, i as int) is None,
        },
    decreases fields@.len() - i,
{
    if i == fields.len() {
        None
    } else if str_eq(fields[i].0.as_str(), key) {
        Some(&fields[i].1)
    } else {
        lookup_field_from(fields, key, i + 1)
    }
}

#[verifier::external_type_specification]
#[verifier::external_body]
pub struct ExValue(serde_json::Value);

/// What serde_json parses a piece of text into, carried over node by node
/// into this crate's [`Json`] tree; `None` where the text is not
/// well-formed JSON. The result depends on the characters alone.
pub uninterp spec fn parsed_json(s: Seq<char>) -> Option<Json>;

/// The text serde_json renders a [`Json`] value to. The result depends on
/// the value alone; object members come out sorted by key.
pub uninterp spec fn json_text(j: Json) -> Seq<char>;

/// Relies on serde_json::from_str: parses JSON text into a value tree,
/// deterministically from the characters alone, and rejects malformed text.
#[verifier::external_body]
pub fn parse_json(s: &str) -> (r: Option<Json>)
    ensures
        r == parsed_json(s@),
{
    match serde_json::from_str::<serde_json::Value>(s) {
        Ok(v) => Some(value_to_json(&v)),
        Err(_) => None,
    }
}

/// Relies on serde_json::Value: each arm moves one node of the parsed tree
/// into this crate's own [`Json`] shape; a number becomes its decimal text.
#[verifier::external_body]
fn value_to_json(v: &serde_json::Value) -> Json {
    match v {
        serde_json::Value::Null => Json::Null,
        serde_json::Value::Bool(b) => Json::Bool(*b),
        serde_json::Value::Number(n) => Json::Number(n.to_string()),
        serde_json::Value::String(s) => Json::String(s.clone()),
        serde_json::Value::Array(a) => Json::Array(a.iter().map(value_to_json).collect()),
        serde_json::Value::Object(m) => Json::Object(
            m.iter().map(|(k, val)| (k.clone(), value_to_json(val))).collect(),
        ),
    }
}

/// Relies on serde_json::to_string: renders a JSON value as text,
/// deterministically from the value alone. Serialization of a
/// `serde_json::Value` cannot fail: every object key is a string.
#[verifier::external_body]
pub fn to_json_string(j: &Json) -> (r: String)
    ensures
        r@ == json_text(*j),
{
    match serde_json::to_string(&json_to_value(j)) {
        Ok(s) => s,
        Err(_) => String::new(),
    }
}

/// Relies on serde_json::Value: each arm moves one [`Json`] node into the
/// shape serde_json renders; number text that is not a JSON number has no
/// rendering of its own and falls back to null.
#[verifier::external_body]
fn json_to_value(j: &Json) -> serde_json::Value {
    match j {
        Json::Null => serde_json::Value::Null,
        Json::Bool(b) => serde_json::Value::Bool(*b),
        Json::Number(s) => match serde_json::from_str::<serde_json::Number>(s) {
            Ok(n) => serde_json::Value::Number(n),
            Err(_) => serde_json::Value::Null,
        },
        Json::String(s) => serde_json::Value::String(s.clone()),
        Json::Array(a) => serde_json::Value::Array(a.iter().map(json_to_value).collect()),
        Json::Object(f) => serde_json::Value::Object(
            f.iter().map(|(k, val)| (k.clone(), json_to_value(val))).collect(),
        ),
    }
}

} // verus!
