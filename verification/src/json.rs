use vstd::prelude::*;
use serde_json::Value;

verus! {

/// The JSON document type of `serde_json`, opaque here.
#[verifier::external_type_specification]
#[verifier::external_body]
pub struct ExJsonValue(serde_json::Value);

/// The shape of a JSON value as far as the readers here care.
#[derive(Debug, Clone, Copy, PartialEq, Eq, Structural)]
pub enum JsonKind {
    Array,
    Object,
    Other,
}

/// What `serde_json::from_slice::<Value>` gives for some bytes: the document, or the text
/// of the error it reports.
pub uninterp spec fn json_parse(bytes: Seq<u8>) -> Result<Value, Seq<char>>;

/// The kind of a JSON value.
pub uninterp spec fn json_kind(v: Value) -> JsonKind;

/// The elements of a JSON array, in order (empty for any other value).
pub uninterp spec fn json_items(v: Value) -> Seq<Value>;

/// The members of a JSON object whose values are strings, by name (none for any other value).
pub uninterp spec fn json_text_members(v: Value) -> Map<Seq<char>, Seq<char>>;

/// The members of a JSON object whose values are booleans, by name (none for any other value).
pub uninterp spec fn json_bool_members(v: Value) -> Map<Seq<char>, bool>;

/// `serde_json::from_slice::<Value>`, its error turned into its message.
/// Claimed: the outcome is `json_parse` of the bytes, a function of the bytes alone.
#[verifier::external_body]
pub(crate) fn parse_json(bytes: &[u8]) -> (r: Result<Value, String>)
    ensures
        json_parse(bytes@) == match r {
            Ok(v) => Ok::<Value, Seq<char>>(v),
            Err(e) => Err::<Value, Seq<char>>(e@),
        },
{
    serde_json::from_slice::<Value>(bytes).map_err(|error| error.to_string())
}

/// Tells the variants of `serde_json::Value` apart. Claimed: the result is `json_kind` of `v`.
#[verifier::external_body]
pub(crate) fn kind_of(v: &Value) -> (k: JsonKind)
    ensures
        k == json_kind(*v),
{
    match v {
        Value::Array(_) => JsonKind::Array,
        Value::Object(_) => JsonKind::Object,
        _ => JsonKind::Other,
    }
}

/// Takes the elements out of `Value::Array`. Claimed: they are `json_items` of `v`.
#[verifier::external_body]
pub(crate) fn into_items(v: Value) -> (r: Vec<Value>)
    ensures
        r@ == json_items(v),
{
    match v {
        Value::Array(items) => items,
        _ => Vec::new(),
    }
}

/// `Value::get(key)` followed by `Value::as_str`. Claimed: a string exactly when `key` is a
/// string-valued member of `v`, and then its value.
#[verifier::external_body]
pub(crate) fn member_text(v: &Value, key: &str) -> (r: Option<String>)
    ensures
        r is Some <==> json_text_members(*v).contains_key(key@),
        r matches Some(s) ==> s@ == json_text_members(*v)[key@],
{
    v.get(key).and_then(Value::as_str).map(str::to_owned)
}

/// `Value::get(key)` followed by `Value::as_bool`. Claimed: a boolean exactly when `key`
/// is a boolean-valued member of `v`, and then its value.
#[verifier::external_body]
pub(crate) fn member_bool(v: &Value, key: &str) -> (r: Option<bool>)
    ensures
        r is Some <==> json_bool_members(*v).contains_key(key@),
        r matches Some(b) ==> b == json_bool_members(*v)[key@],
{
    v.get(key).and_then(Value::as_bool)
}

} // verus!
