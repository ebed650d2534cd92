//! Tool descriptors as advertised to the model, and the tool-call payloads that
//! come back, with their JSON encodings.
use vstd::prelude::*;
use crate::json::{
    empty_object, field_of, get_field, get_text, is_schema_shaped, schema_from_json,
    schema_json, schema_to_json, set_field, shape_of, string_value, text_of, JsonShape,
};

verus! {

/// The text of the string member `key` of `v`, if there is one.
pub open spec fn field_text(v: serde_json::Value, key: Seq<char>) -> Option<Seq<char>> {
    match field_of(v, key) {
        Some(x) => text_of(x),
        None => None,
    }
}

/// Whether `v` is an object whose members are exactly `keys`.
pub open spec fn has_exactly(v: serde_json::Value, keys: Set<Seq<char>>) -> bool {
    shape_of(v) is Object && shape_of(v)->Object_0.dom() == keys
}

/// The kind of a tool. Only functions exist.
#[derive(Clone, Copy, Debug, PartialEq, Eq, Structural)]
pub enum ToolType {
    Function,
}

/// What a tool is, apart from its kind.
pub struct FunctionInfoView {
    pub name: Seq<char>,
    pub description: Seq<char>,
    /// The JSON Schema document that describes the tool's parameters.
    pub parameters: serde_json::Value,
}

/// A tool descriptor: a function kind and what the function is.
pub struct ToolInfoView {
    pub function: FunctionInfoView,
}

/// A tool call: the function's name and the JSON value handed to it.
pub struct ToolCallView {
    pub name: Seq<char>,
    pub arguments: serde_json::Value,
}

/// The name, description and schema of one callable function.
#[derive(Clone, Debug)]
pub struct ToolFunctionInfo {
    pub name: String,
    pub description: String,
    pub parameters: schemars::Schema,
}

/// A descriptor of one tool, in the shape the model-serving protocol expects.
#[derive(Clone, Debug)]
pub struct ToolInfo {
    pub tool_type: ToolType,
    pub function: ToolFunctionInfo,
}

/// A call of one function as emitted by the model.
#[derive(Clone, Debug)]
pub struct ToolCallFunction {
    pub name: String,
    pub arguments: serde_json::Value,
}

/// One tool call of a model's reply.
#[derive(Clone, Debug)]
pub struct ToolCall {
    pub function: ToolCallFunction,
}

impl View for ToolFunctionInfo {
    type V = FunctionInfoView;

    open spec fn view(&self) -> FunctionInfoView {
        FunctionInfoView {
            name: self.name@,
            description: self.description@,
            parameters: schema_json(self.parameters),
        }
    }
}

impl View for ToolInfo {
    type V = ToolInfoView;

    open spec fn view(&self) -> ToolInfoView {
        ToolInfoView { function: self.function@ }
    }
}

impl View for ToolCallFunction {
    type V = ToolCallView;

    open spec fn view(&self) -> ToolCallView {
        ToolCallView { name: self.name@, arguments: self.arguments }
    }
}

/// The JSON text of the only tool kind.
pub open spec fn function_kind() -> Seq<char> {
    "function"@
}

/// How a function's description reads back from JSON: an object with a string
/// `name`, a string `description`, and `parameters` that is a boolean or an object.
/// Other members are ignored.
pub open spec fn function_info_of(v: serde_json::Value) -> Option<FunctionInfoView> {
    match (field_text(v, "name"@), field_text(v, "description"@), field_of(v, "parameters"@)) {
        (Some(n), Some(d), Some(p)) => if is_schema_shaped(p) {
            Some(FunctionInfoView { name: n, description: d, parameters: p })
        } else {
            None
        },
        _ => None,
    }
}

/// How a descriptor reads back from JSON: an object whose `type` is the string
/// `"function"` and whose `function` reads as a function's description.
pub open spec fn tool_info_of(v: serde_json::Value) -> Option<ToolInfoView> {
    if field_text(v, "type"@) == Some(function_kind()) {
        match field_of(v, "function"@) {
            Some(f) => match function_info_of(f) {
                Some(fi) => Some(ToolInfoView { function: fi }),
                None => None,
            },
            None => None,
        }
    } else {
        None
    }
}

/// How a tool call reads from JSON: an object with a string `name` and exactly one
/// of `arguments` or its alias `parameters`. Other members are ignored.
pub open spec fn tool_call_of(v: serde_json::Value) -> Option<ToolCallView> {
    match field_text(v, "name"@) {
        Some(n) => match (field_of(v, "arguments"@), field_of(v, "parameters"@)) {
            (Some(a), None) => Some(ToolCallView { name: n, arguments: a }),
            (None, Some(p)) => Some(ToolCallView { name: n, arguments: p }),
            _ => None,
        },
        None => None,
    }
}

/// Whether `v` is the JSON object `{"name", "description", "parameters"}` of `f`.
pub open spec fn encodes_function(v: serde_json::Value, f: FunctionInfoView) -> bool {
    &&& has_exactly(v, set!["name"@, "description"@, "parameters"@])
    &&& field_text(v, "name"@) == Some(f.name)
    &&& field_text(v, "description"@) == Some(f.description)
    &&& field_of(v, "parameters"@) == Some(f.parameters)
}

/// Whether `v` is the JSON object `{"type": "function", "function": ...}` of `t`.
pub open spec fn encodes_tool_info(v: serde_json::Value, t: ToolInfoView) -> bool {
    &&& has_exactly(v, set!["type"@, "function"@])
    &&& field_text(v, "type"@) == Some(function_kind())
    &&& field_of(v, "function"@) is Some
    &&& encodes_function(field_of(v, "function"@)->Some_0, t.function)
}

/// Whether `v` is the JSON object `{"name", "arguments"}` of the call `c`.
pub open spec fn encodes_tool_call(v: serde_json::Value, c: ToolCallView) -> bool {
    &&& has_exactly(v, set!["name"@, "arguments"@])
    &&& field_text(v, "name"@) == Some(c.name)
    &&& field_of(v, "arguments"@) == Some(c.arguments)
}

/// Whether `v` is the JSON object `{"function": {...}}` of the call `c`.
pub open spec fn encodes_call_envelope(v: serde_json::Value, c: ToolCallView) -> bool {
    &&& has_exactly(v, set!["function"@])
    &&& field_of(v, "function"@) is Some
    &&& encodes_tool_call(field_of(v, "function"@)->Some_0, c)
}

impl ToolType {
    /// The kind's name on the wire, in lower case.
    pub fn as_str(&self) -> (r: &'static str)
        ensures
            r@ == function_kind(),
    {
        "function"
    }

    /// The kind as a JSON string.
    pub fn to_value(&self) -> (r: serde_json::Value)
        ensures
            shape_of(r) == JsonShape::Str(function_kind()),
    {
        string_value(self.as_str().to_owned())
    }

    /// Reads a kind from JSON: only the string `"function"` is one.
    pub fn from_value(v: &serde_json::Value) -> (r: Option<ToolType>)
        ensures
            r is Some <==> text_of(*v) == Some(function_kind()),
    {
        match get_text(v) {
            Some(s) => {
                let kind = "function".to_owned();
                if s == kind {
                    Some(ToolType::Function)
                } else {
                    None
                }
            },
            None => None,
        }
    }
}

impl ToolFunctionInfo {
    /// A function description from a name, a description and a schema known only
    /// at run time.
    pub fn from_dynamic(name: String, description: String, parameters: schemars::Schema) -> (r:
        Self)
        ensures
            r.name == name,
            r.description == description,
            r.parameters == parameters,
    {
        ToolFunctionInfo { name, description, parameters }
    }

    /// The JSON object `{"name", "description", "parameters"}` of this function.
    pub fn to_value(&self) -> (r: serde_json::Value)
        ensures
            encodes_function(r, self@),
    {
        let mut v = empty_object();
        let n = string_value(self.name.clone());
        let d = string_value(self.description.clone());
        let p = schema_to_json(&self.parameters);
        set_field(&mut v, "name", n);
        set_field(&mut v, "description", d);
        set_field(&mut v, "parameters", p);
        proof {
            reveal_strlit("name");
            reveal_strlit("description");
            reveal_strlit("parameters");
            let m = shape_of(v)->Object_0;
            assert(m.dom() =~= set!["name"@, "description"@, "parameters"@]);
            assert("name"@[0] != "description"@[0]);
            assert("name"@[0] != "parameters"@[0]);
            assert("description"@ != "parameters"@);
            assert(m["name"@] == n);
            assert(m["description"@] == d);
            assert(m["parameters"@] == p);
        }
        v
    }

    /// Reads a function description from JSON.
    pub fn from_value(v: &serde_json::Value) -> (r: Option<ToolFunctionInfo>)
        ensures
            match r {
                Some(f) => function_info_of(*v) == Some(f@),
                None => function_info_of(*v) is None,
            },
    {
        let name = match get_field(v, "name") {
            Some(x) => get_text(&x),
            None => None,
        };
        let description = match get_field(v, "description") {
            Some(x) => get_text(&x),
            None => None,
        };
        let parameters = get_field(v, "parameters");
        match (name, description, parameters) {
            (Some(n), Some(d), Some(p)) => match schema_from_json(p) {
                Ok(s) => Some(ToolFunctionInfo { name: n, description: d, parameters: s }),
                Err(_) => None,
            },
            _ => None,
        }
    }
}

impl ToolInfo {
    /// A descriptor of a function tool from a name, a description and a schema
    /// known only at run time.
    pub fn from_dynamic(name: String, description: String, parameters: schemars::Schema) -> (r:
        Self)
        ensures
            r.tool_type == ToolType::Function,
            r.function.name == name,
            r.function.description == description,
            r.function.parameters == parameters,
    {
        ToolInfo {
            tool_type: ToolType::Function,
            function: ToolFunctionInfo::from_dynamic(name, description, parameters),
        }
    }

    /// The JSON object `{"type": "function", "function": {...}}` of this descriptor.
    pub fn to_value(&self) -> (r: serde_json::Value)
        ensures
            encodes_tool_info(r, self@),
    {
        let mut v = empty_object();
        let t = self.tool_type.to_value();
        let f = self.function.to_value();
        set_field(&mut v, "type", t);
        set_field(&mut v, "function", f);
        proof {
            reveal_strlit("type");
            reveal_strlit("function");
            let m = shape_of(v)->Object_0;
            assert(m.dom() =~= set!["type"@, "function"@]);
            assert("type"@[0] != "function"@[0]);
            assert(m["type"@] == t);
            assert(m["function"@] == f);
        }
        v
    }

    /// Reads a descriptor from JSON.
    pub fn from_value(v: &serde_json::Value) -> (r: Option<ToolInfo>)
        ensures
            match r {
                Some(t) => tool_info_of(*v) == Some(t@),
                None => tool_info_of(*v) is None,
            },
    {
        let kind = match get_field(v, "type") {
            Some(x) => ToolType::from_value(&x),
            None => None,
        };
        match kind {
            Some(tool_type) => match get_field(v, "function") {
                Some(f) => match ToolFunctionInfo::from_value(&f) {
                    Some(function) => Some(ToolInfo { tool_type, function }),
                    None => None,
                },
                None => None,
            },
            None => None,
        }
    }
}

impl ToolCallFunction {
    /// The JSON object `{"name", "arguments"}` of this call.
    pub fn to_value(&self) -> (r: serde_json::Value)
        ensures
            encodes_tool_call(r, self@),
    {
        let mut v = empty_object();
        let n = string_value(self.name.clone());
        let a = self.arguments.clone();
        set_field(&mut v, "name", n);
        set_field(&mut v, "arguments", a);
        proof {
            reveal_strlit("name");
            reveal_strlit("arguments");
            let m = shape_of(v)->Object_0;
            assert(m.dom() =~= set!["name"@, "arguments"@]);
            assert("name"@[0] != "arguments"@[0]);
            assert(m["name"@] == n);
            assert(m["arguments"@] == a);
        }
        v
    }

    /// Reads a tool call from JSON: the arguments may come as `arguments` or as
    /// `parameters`, but not as both.
    pub fn from_value(v: &serde_json::Value) -> (r: Option<ToolCallFunction>)
        ensures
            match r {
                Some(c) => tool_call_of(*v) == Some(c@),
                None => tool_call_of(*v) is None,
            },
    {
        let name = match get_field(v, "name") {
            Some(x) => get_text(&x),
            None => None,
        };
        match name {
            Some(n) => match (get_field(v, "arguments"), get_field(v, "parameters")) {
                (Some(a), None) => Some(ToolCallFunction { name: n, arguments: a }),
                (None, Some(p)) => Some(ToolCallFunction { name: n, arguments: p }),
                _ => None,
            },
            None => None,
        }
    }
}

impl ToolCall {
    /// The JSON object `{"function": {"name", "arguments"}}` of this call.
    pub fn to_value(&self) -> (r: serde_json::Value)
        ensures
            encodes_call_envelope(r, self.function@),
    {
        let mut v = empty_object();
        let f = self.function.to_value();
        set_field(&mut v, "function", f);
        proof {
            let m = shape_of(v)->Object_0;
            assert(m.dom() =~= set!["function"@]);
        }
        v
    }

    /// Reads one tool call of a reply from JSON: an object whose member `function`
    /// reads as a tool call.
    pub fn from_value(v: &serde_json::Value) -> (r: Option<ToolCall>)
        ensures
            match r {
                Some(c) => field_of(*v, "function"@) is Some && tool_call_of(
                    field_of(*v, "function"@)->Some_0,
                ) == Some(c.function@),
                None => field_of(*v, "function"@) is None || tool_call_of(
                    field_of(*v, "function"@)->Some_0,
                ) is None,
            },
    {
        match get_field(v, "function") {
            Some(f) => match ToolCallFunction::from_value(&f) {
                Some(function) => Some(ToolCall { function }),
                None => None,
            },
            None => None,
        }
    }
}

/// A tool call written as JSON reads back as the same call.
pub proof fn lemma_tool_call_round_trip(c: ToolCallFunction, v: serde_json::Value)
    requires
        encodes_tool_call(v, c@),
    ensures
        tool_call_of(v) == Some(c@),
{
    reveal_strlit("name");
    reveal_strlit("arguments");
    reveal_strlit("parameters");
    assert("parameters"@[0] != "name"@[0]);
    assert("parameters"@[0] != "arguments"@[0]);
}

/// A descriptor written as JSON reads back as the same descriptor: same name, same
/// description, same schema, and `type` the lower-case string `"function"`, where
/// the schema is a boolean or an object (as every schema built from JSON is).
pub proof fn lemma_descriptor_round_trip(t: ToolInfo, v: serde_json::Value)
    requires
        encodes_tool_info(v, t@),
        is_schema_shaped(schema_json(t.function.parameters)),
    ensures
        tool_info_of(v) == Some(t@),
        field_text(v, "type"@) == Some("function"@),
{
}

} // verus!
