//! Trusted boundary around `serde_json`: requests and upstream responses are
//! JSON documents, held as opaque `serde_json::Value`s. What such a document
//! *is* is modelled by [`JsonView`]; every reader below states its result
//! over that model, and every decision taken on what the readers return is
//! made, and verified, in the callers.

use vstd::prelude::*;

verus! {

/// Mathematical image of a JSON document.
pub ghost enum JsonView {
    Null,
    Bool(bool),
    /// A number representable as an unsigned 64-bit integer (the only kind
    /// of number the relay ever reads).
    UInt(u64),
    /// Any other number.
    NumberOther,
    Text(Seq<char>),
    Array(Seq<JsonView>),
    Object(Map<Seq<char>, JsonView>),
}

/// The image of a parsed document.
pub uninterp spec fn json_view(v: serde_json::Value) -> JsonView;

/// What `serde_json::from_slice` makes of the bytes: a document image, or
/// nothing when they are not one valid JSON document; a function of the
/// bytes alone.
pub uninterp spec fn json_of(b: Seq<u8>) -> Option<JsonView>;

#[verifier::external_type_specification]
#[verifier::external_body]
pub struct ExValue(serde_json::Value);

/// Relies on `serde_json::from_slice`: parses bytes as one JSON document,
/// failing exactly on input that is not one.
#[verifier::external_body]
pub(crate) fn json_parse(b: &[u8]) -> (r: Option<serde_json::Value>)
    ensures
        match r {
            Some(v) => json_of(b@) == Some(json_view(v)),
            None => json_of(b@) is None,
        },
{
    serde_json::from_slice(b).ok()
}

/// Relies on `serde_json::Value::clone`: the copy is the same document.
#[verifier::external_body]
pub(crate) fn json_clone(v: &serde_json::Value) -> (r: serde_json::Value)
    ensures
        json_view(r) == json_view(*v),
{
    v.clone()
}

/// Relies on `serde_json::Value::get` with a string index: the named member,
/// exactly when the value is an object that has it.
#[verifier::external_body]
pub(crate) fn json_get<'a>(v: &'a serde_json::Value, key: &str) -> (r: Option<
    &'a serde_json::Value,
>)
    ensures
        match r {
            Some(f) => json_view(*v) matches JsonView::Object(m) && m.contains_key(key@)
                && json_view(*f) == m[key@],
            None => !(json_view(*v) matches JsonView::Object(m) && m.contains_key(key@)),
        },
{
    v.get(key)
}

/// Relies on `serde_json::Value::get` with a `usize` index: the element,
/// exactly when the value is an array long enough.
#[verifier::external_body]
pub(crate) fn json_index<'a>(v: &'a serde_json::Value, i: usize) -> (r: Option<
    &'a serde_json::Value,
>)
    ensures
        match r {
            Some(f) => json_view(*v) matches JsonView::Array(a) && i < a.len() && json_view(*f)
                == a[i as int],
            None => !(json_view(*v) matches JsonView::Array(a) && i < a.len()),
        },
{
    v.get(i)
}

/// Relies on `serde_json::Value::as_u64`: the number, exactly when the value
/// is a number representable as `u64`.
#[verifier::external_body]
pub(crate) fn json_as_u64(v: &serde_json::Value) -> (r: Option<u64>)
    ensures
        r == (match json_view(*v) {
            JsonView::UInt(n) => Some(n),
            _ => None,
        }),
{
    v.as_u64()
}

/// Relies on `serde_json::Value::as_bool`.
#[verifier::external_body]
pub(crate) fn json_as_bool(v: &serde_json::Value) -> (r: Option<bool>)
    ensures
        r == (match json_view(*v) {
            JsonView::Bool(b) => Some(b),
            _ => None,
        }),
{
    v.as_bool()
}

/// Relies on `serde_json::Value::as_str`; the borrowed text is copied out.
#[verifier::external_body]
pub(crate) fn json_as_str(v: &serde_json::Value) -> (r: Option<String>)
    ensures
        match r {
            Some(s) => json_view(*v) matches JsonView::Text(t) && s@ == t,
            None => !(json_view(*v) is Text),
        },
{
    v.as_str().map(|s| s.to_string())
}

/// Relies on `serde_json::Value::is_null`.
#[verifier::external_body]
pub(crate) fn json_is_null(v: &serde_json::Value) -> (r: bool)
    ensures
        r == (json_view(*v) is Null),
{
    v.is_null()
}

/// Relies on `serde_json::Value::as_array`: the element count, exactly when
/// the value is a JSON array.
#[verifier::external_body]
pub(crate) fn json_array_len(v: &serde_json::Value) -> (r: Option<usize>)
    ensures
        match r {
            Some(n) => json_view(*v) matches JsonView::Array(a) && n == a.len(),
            None => !(json_view(*v) is Array),
        },
{
    v.as_array().map(|a| a.len())
}

} // verus!
