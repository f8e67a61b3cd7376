//! The JSON layer: response bodies are parsed by serde_json, and the parsed
//! value is walked through a handful of trusted accessors. What a parsed
//! value holds is captured by the uninterpreted model `jmodel`, and what a
//! body text denotes by `json_of`; every accessor's contract speaks over
//! those two names, and everything downstream is verified against them.

use vstd::prelude::*;

verus! {

/// Mathematical image of a JSON document.
pub enum JsonView {
    Null,
    Bool(bool),
    /// A number within the signed 64-bit integer range.
    Int(i64),
    /// Any other number: fractional, or an integer outside the signed
    /// 64-bit range.
    OtherNum,
    Text(Seq<char>),
    Arr(Seq<JsonView>),
    Obj(Map<Seq<char>, JsonView>),
}

#[verifier::external_type_specification]
#[verifier::external_body]
pub struct ExValue(serde_json::Value);

/// The document a parsed value holds.
pub uninterp spec fn jmodel(v: serde_json::Value) -> JsonView;

/// The document a body text denotes: `None` when the text is not
/// well-formed JSON.
pub uninterp spec fn json_of(s: Seq<char>) -> Option<JsonView>;

/// The documents an element vector holds, element-wise.
pub open spec fn arr_model(a: Seq<serde_json::Value>) -> Seq<JsonView> {
    a.map_values(|x: serde_json::Value| jmodel(x))
}

/// Relies on serde_json::from_str: a body text parses to at most one
/// document, determined by the text alone.
#[verifier::external_body]
pub(crate) fn parse_json(s: &str) -> (r: Option<serde_json::Value>)
    ensures
        match r {
            Some(v) => json_of(s@) == Some(jmodel(v)),
            None => json_of(s@) is None,
        },
{
    serde_json::from_str(s).ok()
}

/// Relies on serde_json::Value::get with a string index: on an object value
/// it looks the key up; on any other value it yields nothing.
#[verifier::external_body]
pub(crate) fn value_get<'a>(v: &'a serde_json::Value, key: &str) -> (r: Option<
    &'a serde_json::Value,
>)
    ensures
        match r {
            Some(w) => jmodel(*v) matches JsonView::Obj(m) && m.contains_key(key@) && jmodel(*w)
                == m[key@],
            None => jmodel(*v) matches JsonView::Obj(m) ==> !m.contains_key(key@),
        },
{
    v.get(key)
}

/// Relies on serde_json::Value::as_array: yields the element vector of an
/// array value and nothing otherwise.
#[verifier::external_body]
pub(crate) fn value_as_array<'a>(v: &'a serde_json::Value) -> (r: Option<
    &'a Vec<serde_json::Value>,
>)
    ensures
        match r {
            Some(a) => jmodel(*v) == JsonView::Arr(arr_model(a@)),
            None => !(jmodel(*v) is Arr),
        },
{
    v.as_array()
}

/// Relies on serde_json::Value::as_i64: yields exactly the numbers that fit
/// the signed 64-bit integer range.
#[verifier::external_body]
pub(crate) fn value_as_i64(v: &serde_json::Value) -> (r: Option<i64>)
    ensures
        r == (match jmodel(*v) {
            JsonView::Int(i) => Some(i),
            _ => None::<i64>,
        }),
{
    v.as_i64()
}

/// Relies on serde_json::Value::as_str: yields the text of a string value
/// and nothing otherwise.
#[verifier::external_body]
pub(crate) fn value_as_str<'a>(v: &'a serde_json::Value) -> (r: Option<&'a str>)
    ensures
        match r {
            Some(s) => jmodel(*v) == JsonView::Text(s@),
            None => !(jmodel(*v) is Text),
        },
{
    v.as_str()
}

} // verus!
