use vstd::prelude::*;

verus! {

#[verifier::external_type_specification]
#[verifier::external_body]
pub struct ExValue(serde_json::Value);

/// A JSON document as a mathematical value. Numbers are not told apart:
/// nothing here reads them.
pub enum Json {
    Null,
    Bool(bool),
    Number,
    Str(Seq<char>),
    Array(Seq<Json>),
    Object(Map<Seq<char>, Json>),
}

/// What a `serde_json::Value` holds.
pub uninterp spec fn json_content(v: serde_json::Value) -> Json;

/// The document that a text parses to, if it is one JSON value.
pub uninterp spec fn parsed_json(text: Seq<char>) -> Option<Json>;

/// The member `key` of an object; nothing for a missing key or a value that
/// is not an object.
pub open spec fn field_of(j: Json, key: Seq<char>) -> Option<Json> {
    match j {
        Json::Object(m) => if m.contains_key(key) {
            Some(m[key])
        } else {
            None
        },
        _ => None,
    }
}

/// The text of a string value, or `default` for anything else or nothing.
pub open spec fn str_or(j: Option<Json>, default: Seq<char>) -> Seq<char> {
    match j {
        Some(Json::Str(s)) => s,
        _ => default,
    }
}

/// The flag of a boolean value, or `default` for anything else or nothing.
pub open spec fn bool_or(j: Option<Json>, default: bool) -> bool {
    match j {
        Some(Json::Bool(b)) => b,
        _ => default,
    }
}

/// Relies on `serde_json::from_str::<serde_json::Value>`: the result depends
/// on the text alone, and an empty text is not a JSON value.
#[verifier::external_body]
pub(crate) fn parse_json(text: &str) -> (r: Option<serde_json::Value>)
    ensures
        r is Some == parsed_json(text@) is Some,
        r is Some ==> parsed_json(text@) == Some(json_content(r->0)),
        text@.len() == 0 ==> r is None,
{
    serde_json::from_str::<serde_json::Value>(text).ok()
}

/// Relies on `serde_json::Value::get` with a string key: the member of an
/// object under that key, and nothing for any other kind of value.
#[verifier::external_body]
pub(crate) fn json_get<'a>(v: &'a serde_json::Value, key: &str) -> (r: Option<&'a serde_json::Value>)
    ensures
        match r {
            Some(x) => field_of(json_content(*v), key@) == Some(json_content(*x)),
            None => field_of(json_content(*v), key@) is None,
        },
{
    v.get(key)
}

/// Relies on `serde_json::Value::as_str`: the text of a string value only.
#[verifier::external_body]
pub(crate) fn json_as_str(v: &serde_json::Value) -> (r: Option<&str>)
    ensures
        match r {
            Some(s) => json_content(*v) == Json::Str(s@),
            None => !(json_content(*v) is Str),
        },
{
    v.as_str()
}

/// Relies on `serde_json::Value::as_bool`: the flag of a boolean value only.
#[verifier::external_body]
pub(crate) fn json_as_bool(v: &serde_json::Value) -> (r: Option<bool>)
    ensures
        match r {
            Some(b) => json_content(*v) == Json::Bool(b),
            None => !(json_content(*v) is Bool),
        },
{
    v.as_bool()
}

} // verus!
