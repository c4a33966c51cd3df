use vstd::prelude::*;

verus! {

#[verifier::external_type_specification]
#[verifier::external_body]
pub struct ExJsonValue(serde_json::Value);

/// A JSON document as a tree. Numbers are kept only as being numbers: no
/// logic here reads their value.
pub enum JsonView {
    Null,
    Bool(bool),
    Number,
    Str(Seq<char>),
    Array(Seq<JsonView>),
    Object(Map<Seq<char>, JsonView>),
}

/// The document that `serde_json` reads from `text`; `None` when the text is
/// not one JSON document.
pub uninterp spec fn json_of(text: Seq<char>) -> Option<JsonView>;

/// The tree that a `serde_json::Value` holds.
pub uninterp spec fn json_value(v: serde_json::Value) -> JsonView;

/// The member of a JSON object under `key`; `None` for a value that is no
/// object or has no such member.
pub open spec fn json_member_of(j: JsonView, key: Seq<char>) -> Option<JsonView> {
    match j {
        JsonView::Object(m) => if m.contains_key(key) {
            Some(m[key])
        } else {
            None
        },
        _ => None,
    }
}

/// Relies on `serde_json::from_str` into a `serde_json::Value`: the JSON
/// document that `text` holds, or the error that says why it is none.
#[verifier::external_body]
pub(crate) fn parse_json(text: &str) -> (r: Result<serde_json::Value, serde_json::Error>)
    ensures
        r is Ok <==> json_of(text@) is Some,
        r matches Ok(v) ==> json_of(text@) == Some(json_value(v)),
{
    serde_json::from_str(text)
}

/// Relies on `serde_json::Value::get` with a string key: the member of an
/// object under `key`, and `None` for a value that is no object or lacks it.
#[verifier::external_body]
pub(crate) fn json_member<'a>(v: &'a serde_json::Value, key: &str) -> (r: Option<
    &'a serde_json::Value,
>)
    ensures
        match r {
            Some(m) => json_member_of(json_value(*v), key@) == Some(json_value(*m)),
            None => json_member_of(json_value(*v), key@) is None,
        },
{
    v.get(key)
}

/// Relies on `serde_json::Value::as_str`: the text of a JSON string.
#[verifier::external_body]
pub(crate) fn json_text(v: &serde_json::Value) -> (r: Option<String>)
    ensures
        match json_value(*v) {
            JsonView::Str(s) => r matches Some(t) && t@ == s,
            _ => r is None,
        },
{
    v.as_str().map(String::from)
}

/// Relies on `serde_json::Value::as_array`: the items of a JSON array.
#[verifier::external_body]
pub(crate) fn json_items(v: &serde_json::Value) -> (r: Option<&Vec<serde_json::Value>>)
    ensures
        match json_value(*v) {
            JsonView::Array(items) => r matches Some(a) && a@.len() == items.len() && forall|
                i: int,
            |
                0 <= i < items.len() ==> json_value(#[trigger] a@[i]) == items[i],
            _ => r is None,
        },
{
    v.as_array()
}

/// Relies on `serde_json::Value::is_null`.
#[verifier::external_body]
pub(crate) fn json_is_null(v: &serde_json::Value) -> (r: bool)
    ensures
        r == (json_value(*v) is Null),
{
    v.is_null()
}

/// Relies on `serde::de::Error::custom` for `serde_json::Error`: an error
/// that carries `msg`.
#[verifier::external_body]
pub(crate) fn json_shape_error(msg: &str) -> (r: serde_json::Error) {
    <serde_json::Error as serde::de::Error>::custom(msg)
}

} // verus!
