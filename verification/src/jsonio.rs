use vstd::prelude::*;

verus! {

#[verifier::external_type_specification]
#[verifier::external_body]
pub struct ExValue(serde_json::Value);

/// The model of one parsed JSON value, as far as the listing format reads
/// it: strings, unsigned integers that fit a `u64`, arrays, and objects
/// (keyed by field name, the last occurrence of a repeated key winning).
/// Everything else — null, booleans, and numbers that are not `u64`
/// integers — is folded into `Other`, of which the readers below claim
/// nothing.
pub enum JsonView {
    Str(Seq<char>),
    UInt(u64),
    Arr(Seq<JsonView>),
    Obj(Map<Seq<char>, JsonView>),
    Other,
}

/// What a parsed JSON value holds, as a [`JsonView`]: the readers below
/// all speak of it.
pub uninterp spec fn json_model(v: serde_json::Value) -> JsonView;

/// What parsing a text as JSON yields, in the model: nothing when the text
/// is not a valid JSON document.
pub uninterp spec fn json_parsed(s: Seq<char>) -> Option<JsonView>;

/// Relies on `serde_json::from_str::<Value>`: parses a JSON document, or
/// fails exactly when the text is not valid JSON. The result is a function
/// of the text alone.
#[verifier::external_body]
pub(crate) fn parse_json(s: &str) -> (r: Option<serde_json::Value>)
    ensures
        (r is Some) == (json_parsed(s@) is Some),
        r matches Some(v) ==> Some(json_model(v)) == json_parsed(s@),
{
    serde_json::from_str(s).ok()
}

/// Relies on `serde_json::Value::get` with a string index: the field of an
/// object, present exactly when the value is an object carrying that key.
#[verifier::external_body]
pub(crate) fn json_get<'a>(v: &'a serde_json::Value, key: &str) -> (r: Option<
    &'a serde_json::Value,
>)
    ensures
        (r is Some) == (json_model(*v) matches JsonView::Obj(m) && m.contains_key(key@)),
        r matches Some(x) ==> json_model(*v) matches JsonView::Obj(m) && m.contains_key(key@)
            && json_model(*x) == m[key@],
{
    v.get(key)
}

/// Relies on `serde_json::Value::as_str`: the content of a JSON string
/// value, nothing for any other kind of value.
#[verifier::external_body]
pub(crate) fn json_as_string(v: &serde_json::Value) -> (r: Option<String>)
    ensures
        (r is Some) == (json_model(*v) is Str),
        r matches Some(s) ==> json_model(*v) matches JsonView::Str(t) && s@ == t,
{
    v.as_str().map(|s| s.to_string())
}

/// Relies on `serde_json::Value::as_u64`: the number held by a JSON value
/// that is an unsigned integer fitting a `u64`, nothing otherwise (floats,
/// negative and oversized numbers included).
#[verifier::external_body]
pub(crate) fn json_as_u64(v: &serde_json::Value) -> (r: Option<u64>)
    ensures
        (r is Some) == (json_model(*v) is UInt),
        r matches Some(n) ==> json_model(*v) == JsonView::UInt(n),
{
    v.as_u64()
}

/// Relies on `serde_json::Value::as_array`: the elements of a JSON array
/// value, in order, nothing for any other kind of value.
#[verifier::external_body]
pub(crate) fn json_as_array<'a>(v: &'a serde_json::Value) -> (r: Option<
    &'a Vec<serde_json::Value>,
>)
    ensures
        (r is Some) == (json_model(*v) is Arr),
        r matches Some(els) ==> json_model(*v) matches JsonView::Arr(s) && els@.len() == s.len()
            && forall|i: int| 0 <= i < s.len() ==> json_model(#[trigger] els@[i]) == s[i],
{
    v.as_array()
}

} // verus!
