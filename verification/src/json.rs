//! JSON values, carried as `serde_json::Value`.
use serde_json::Value;
use vstd::prelude::*;

verus! {

#[verifier::external_type_specification]
#[verifier::external_body]
pub struct ExValue(Value);

/// The member `key` of a JSON object (`None` for a missing key or a non-object).
pub uninterp spec fn json_member(v: Value, key: Seq<char>) -> Option<Value>;

/// The string held by a JSON string value (`None` for any other kind).
pub uninterp spec fn json_string(v: Value) -> Option<Seq<char>>;

/// The compact text that `Display` gives for a JSON value.
pub uninterp spec fn json_text(v: Value) -> Seq<char>;

/// What `serde_json::from_str::<Value>` gives for a text: the value, or the
/// text of the parse error.
pub uninterp spec fn json_parse(text: Seq<char>) -> Result<Value, Seq<char>>;

/// Whether a JSON value is `null`.
pub uninterp spec fn json_is_null(v: Value) -> bool;

/// `Value::clone` gives a value equal to the one cloned.
pub assume_specification[ <Value as Clone>::clone ](v: &Value) -> (r: Value)
    ensures
        r == *v,
;

/// `Value::get` with a string key, copying the member out.
#[verifier::external_body]
pub(crate) fn json_get(v: &Value, key: &str) -> (r: Option<Value>)
    ensures
        r == json_member(*v, key@),
{
    v.get(key).cloned()
}

/// `Value::as_str`, copied into a `String`.
#[verifier::external_body]
pub(crate) fn json_as_str(v: &Value) -> (r: Option<String>)
    ensures
        match r {
            Some(s) => json_string(*v) == Some(s@),
            None => json_string(*v) is None,
        },
{
    v.as_str().map(|s| s.to_string())
}

/// `Value`'s `Display` (compact JSON text).
#[verifier::external_body]
pub(crate) fn json_to_text(v: &Value) -> (r: String)
    ensures
        r@ == json_text(*v),
{
    v.to_string()
}

/// `serde_json::from_str::<Value>`; the error is its `Display` text.
#[verifier::external_body]
pub(crate) fn json_from_text(text: &str) -> (r: Result<Value, String>)
    ensures
        match r {
            Ok(v) => json_parse(text@) == Ok::<Value, Seq<char>>(v),
            Err(e) => json_parse(text@) == Err::<Value, Seq<char>>(e@),
        },
{
    serde_json::from_str::<Value>(text).map_err(|e| e.to_string())
}

/// `Value::is_null`.
#[verifier::external_body]
pub(crate) fn json_null_check(v: &Value) -> (r: bool)
    ensures
        r == json_is_null(*v),
{
    v.is_null()
}

/// `Value::Null`.
#[verifier::external_body]
pub(crate) fn json_null() -> (r: Value)
    ensures
        json_is_null(r),
{
    Value::Null
}

/// The elements of a JSON array value (`None` for any other kind).
pub uninterp spec fn json_items(v: Value) -> Option<Seq<Value>>;

/// `Value::String`: a JSON string value.
#[verifier::external_body]
pub(crate) fn json_string_value(s: &str) -> (r: Value)
    ensures
        json_string(r) == Some(s@),
        json_items(r) is None,
{
    Value::String(s.to_string())
}

/// `Value::Array`: a JSON array of the given elements.
#[verifier::external_body]
pub(crate) fn json_array(items: Vec<Value>) -> (r: Value)
    ensures
        json_items(r) == Some(items@),
        json_string(r) is None,
{
    Value::Array(items)
}

/// `Value::Object` built from `(key, value)` entries with distinct keys
/// (collected into a `serde_json::Map`).
#[verifier::external_body]
pub(crate) fn json_object(entries: Vec<(String, Value)>) -> (r: Value)
    requires
        forall|i: int, j: int|
            0 <= i < j < entries@.len() ==> entries@[i].0@ != entries@[j].0@,
    ensures
        forall|i: int|
            0 <= i < entries@.len() ==> json_member(r, #[trigger] entries@[i].0@) == Some(
                entries@[i].1,
            ),
        forall|k: Seq<char>|
            (forall|i: int| 0 <= i < entries@.len() ==> entries@[i].0@ != k) ==> json_member(
                r,
                k,
            ) is None,
        json_string(r) is None,
        json_items(r) is None,
{
    Value::Object(entries.into_iter().collect())
}

/// The pretty-printed text that `serde_json::to_string_pretty` gives for a
/// JSON value (two-space indentation).
pub uninterp spec fn json_pretty(v: Value) -> Seq<char>;

/// `serde_json::to_string_pretty` of a value (a `Value` always serializes;
/// the compact text stands in should it ever fail).
#[verifier::external_body]
pub(crate) fn json_pretty_text(v: &Value) -> (r: String)
    ensures
        r@ == json_pretty(*v),
{
    serde_json::to_string_pretty(v).unwrap_or_else(|_| v.to_string())
}

/// `Value::as_array`, copied out: the elements of an array value.
#[verifier::external_body]
pub(crate) fn json_array_items(v: &Value) -> (r: Option<Vec<Value>>)
    ensures
        match r {
            Some(items) => json_items(*v) == Some(items@),
            None => json_items(*v) is None,
        },
{
    v.as_array().cloned()
}

} // verus!
