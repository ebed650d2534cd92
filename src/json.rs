//! The JSON values that tool calls carry, and what the library may learn of them.
//!
//! A `serde_json::Value` stays opaque to proofs. What the logic reads of it is its
//! shape: which kind of value it is and, for a string, an array or an object, what
//! it holds one level down.
use vstd::prelude::*;

verus! {

#[verifier::external_type_specification]
#[verifier::external_body]
pub struct ExValue(serde_json::Value);

#[verifier::external_type_specification]
#[verifier::external_body]
pub struct ExJsonError(serde_json::Error);

#[verifier::external_type_specification]
#[verifier::external_body]
pub struct ExSchema(schemars::Schema);

/// Relies on the derived `Clone` of `serde_json::Value`: an equal value.
pub assume_specification[ <serde_json::Value as Clone>::clone ](v: &serde_json::Value) -> (r:
    serde_json::Value)
    ensures
        r == *v,
;

/// Relies on the derived `Clone` of `schemars::Schema`: a schema of an equal value.
pub assume_specification[ <schemars::Schema as Clone>::clone ](s: &schemars::Schema) -> (r:
    schemars::Schema)
    ensures
        r == *s,
;

/// One level of a JSON value: its kind, and its direct contents.
pub enum JsonShape {
    Null,
    Bool(bool),
    /// A number; its digits are not modelled.
    Number,
    Str(Seq<char>),
    Array(Seq<serde_json::Value>),
    Object(Map<Seq<char>, serde_json::Value>),
}

/// The shape of a JSON value: the variant of `serde_json::Value` and what it holds.
pub uninterp spec fn shape_of(v: serde_json::Value) -> JsonShape;

/// The JSON value that a schema wraps, as `schemars::Schema::as_value` returns it.
pub uninterp spec fn schema_json(s: schemars::Schema) -> serde_json::Value;

/// Whether `v` is an object that holds `key`.
pub open spec fn has_field(v: serde_json::Value, key: Seq<char>) -> bool {
    shape_of(v) is Object && shape_of(v)->Object_0.contains_key(key)
}

/// The member `key` of the object `v`, if `v` is an object that holds it.
pub open spec fn field_of(v: serde_json::Value, key: Seq<char>) -> Option<serde_json::Value> {
    if has_field(v, key) {
        Some(shape_of(v)->Object_0[key])
    } else {
        None
    }
}

/// The text of `v`, if `v` is a JSON string.
pub open spec fn text_of(v: serde_json::Value) -> Option<Seq<char>> {
    match shape_of(v) {
        JsonShape::Str(s) => Some(s),
        _ => None,
    }
}

/// Whether `v` is accepted as a JSON Schema document: a boolean or an object.
pub open spec fn is_schema_shaped(v: serde_json::Value) -> bool {
    shape_of(v) is Bool || shape_of(v) is Object
}

/// Relies on `serde_json::Value::get` with a string key: the member of an object,
/// `None` for a missing key or a value that is no object.
#[verifier::external_body]
pub(crate) fn get_field(v: &serde_json::Value, key: &str) -> (r: Option<serde_json::Value>)
    ensures
        r == field_of(*v, key@),
{
    v.get(key).cloned()
}

/// Relies on `serde_json::Value::as_str`: the text of a JSON string, else `None`.
#[verifier::external_body]
pub(crate) fn get_text(v: &serde_json::Value) -> (r: Option<String>)
    ensures
        r is Some <==> text_of(*v) is Some,
        r is Some ==> r->Some_0@ == text_of(*v)->Some_0,
{
    v.as_str().map(|s| s.to_string())
}

/// Relies on the `serde_json::Value::String` variant: a JSON string of that text.
#[verifier::external_body]
pub(crate) fn string_value(s: String) -> (r: serde_json::Value)
    ensures
        shape_of(r) == JsonShape::Str(s@),
{
    serde_json::Value::String(s)
}

/// Relies on `serde_json::Map::new` under the `serde_json::Value::Object` variant:
/// an object with no members.
#[verifier::external_body]
pub(crate) fn empty_object() -> (r: serde_json::Value)
    ensures
        shape_of(r) == JsonShape::Object(Map::<Seq<char>, serde_json::Value>::empty()),
{
    serde_json::Value::Object(serde_json::Map::new())
}

/// Relies on `IndexMut` of `serde_json::Value` with a string key, applied to an
/// object: the member `key` is set to `item`, the others are kept.
#[verifier::external_body]
pub(crate) fn set_field(v: &mut serde_json::Value, key: &str, item: serde_json::Value)
    requires
        shape_of(*old(v)) is Object,
    ensures
        shape_of(*final(v)) == JsonShape::Object(shape_of(*old(v))->Object_0.insert(key@, item)),
{
    v[key] = item;
}

/// Relies on `TryFrom<serde_json::Value>` of `schemars::Schema`: a boolean or an
/// object is taken as the schema, unchanged; any other value is refused.
#[verifier::external_body]
pub(crate) fn schema_from_json(v: serde_json::Value) -> (r: Result<
    schemars::Schema,
    serde_json::Error,
>)
    ensures
        r is Ok <==> is_schema_shaped(v),
        r is Ok ==> schema_json(r->Ok_0) == v,
{
    schemars::Schema::try_from(v)
}

/// Relies on `schemars::Schema::as_value`: the JSON value that the schema wraps.
#[verifier::external_body]
pub(crate) fn schema_to_json(s: &schemars::Schema) -> (r: serde_json::Value)
    ensures
        r == schema_json(*s),
{
    s.as_value().clone()
}

} // verus!
