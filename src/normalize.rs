//! Finding the arguments in a tool-call payload, whichever of the known wire
//! shapes the model used.
use vstd::prelude::*;
use crate::descriptor::{
    field_text, function_kind, has_exactly, tool_call_of, tool_info_of, ToolCallFunction,
    ToolInfo,
};
use crate::json::{field_of, has_field, is_schema_shaped, schema_to_json};

verus! {

/// The arguments that a payload carries. In this order, the first that reads wins:
/// a tool call `{name, arguments}` (or `{name, parameters}`) gives its arguments;
/// a full descriptor gives the value under `function.parameters`; anything else is
/// taken as the arguments themselves.
pub open spec fn normalized(raw: serde_json::Value) -> serde_json::Value {
    match tool_call_of(raw) {
        Some(c) => c.arguments,
        None => match tool_info_of(raw) {
            Some(t) => t.function.parameters,
            None => raw,
        },
    }
}

/// Extracts the arguments from a raw tool-call payload.
pub fn normalize_arguments(raw: serde_json::Value) -> (r: serde_json::Value)
    ensures
        r == normalized(raw),
{
    match ToolCallFunction::from_value(&raw) {
        Some(call) => call.arguments,
        None => match ToolInfo::from_value(&raw) {
            Some(info) => schema_to_json(&info.function.parameters),
            None => raw,
        },
    }
}

/// A payload `{"name": <string>, "arguments": x}` yields exactly `x`.
pub proof fn lemma_arguments_form(raw: serde_json::Value, x: serde_json::Value)
    requires
        has_exactly(raw, set!["name"@, "arguments"@]),
        field_text(raw, "name"@) is Some,
        field_of(raw, "arguments"@) == Some(x),
    ensures
        normalized(raw) == x,
{
    reveal_strlit("name");
    reveal_strlit("arguments");
    reveal_strlit("parameters");
    assert("parameters"@[0] != "name"@[0]);
    assert("parameters"@[0] != "arguments"@[0]);
    assert(!has_field(raw, "parameters"@));
}

/// A payload `{"name": <string>, "parameters": x}` yields exactly `x`, as the same
/// payload with `arguments` in place of `parameters` does.
pub proof fn lemma_parameters_alias(
    with_arguments: serde_json::Value,
    with_parameters: serde_json::Value,
    x: serde_json::Value,
)
    requires
        has_exactly(with_arguments, set!["name"@, "arguments"@]),
        field_text(with_arguments, "name"@) is Some,
        field_of(with_arguments, "arguments"@) == Some(x),
        has_exactly(with_parameters, set!["name"@, "parameters"@]),
        field_text(with_parameters, "name"@) is Some,
        field_of(with_parameters, "parameters"@) == Some(x),
    ensures
        normalized(with_parameters) == x,
        normalized(with_parameters) == normalized(with_arguments),
{
    reveal_strlit("arguments");
    reveal_strlit("parameters");
    reveal_strlit("name");
    assert("arguments"@[0] != "name"@[0]);
    assert("arguments"@[0] != "parameters"@[0]);
    assert(!has_field(with_parameters, "arguments"@));
    lemma_arguments_form(with_arguments, x);
}

/// A full descriptor `{"type": "function", "function": {"name": <string>,
/// "description": <string>, "parameters": x}}` yields exactly `x`, where `x` is a
/// boolean or an object (what a schema may be).
pub proof fn lemma_descriptor_form(raw: serde_json::Value, x: serde_json::Value)
    requires
        has_exactly(raw, set!["type"@, "function"@]),
        field_text(raw, "type"@) == Some(function_kind()),
        field_of(raw, "function"@) is Some,
        has_exactly(field_of(raw, "function"@)->Some_0, set!["name"@, "description"@, "parameters"@]),
        field_text(field_of(raw, "function"@)->Some_0, "name"@) is Some,
        field_text(field_of(raw, "function"@)->Some_0, "description"@) is Some,
        field_of(field_of(raw, "function"@)->Some_0, "parameters"@) == Some(x),
        is_schema_shaped(x),
    ensures
        normalized(raw) == x,
{
    reveal_strlit("name");
    reveal_strlit("type");
    reveal_strlit("function");
    assert("name"@[0] != "type"@[0]);
    assert("name"@[0] != "function"@[0]);
    assert(!has_field(raw, "name"@));
}

/// A payload that reads neither as a tool call nor as a descriptor is returned
/// unchanged.
pub proof fn lemma_identity_fallback(raw: serde_json::Value)
    requires
        tool_call_of(raw) is None,
        tool_info_of(raw) is None,
    ensures
        normalized(raw) == raw,
{
}

} // verus!
