use ollama_tools::descriptor::{ToolCall, ToolCallFunction, ToolFunctionInfo, ToolInfo, ToolType};
use schemars::Schema;
use serde_json::Value;

fn json(text: &str) -> Value {
    serde_json::from_str(text).unwrap()
}

fn schema(text: &str) -> Schema {
    Schema::try_from(json(text)).unwrap()
}

#[test]
fn test_tool_type_serializes_to_lowercase() {
    let tool_type = ToolType::Function;
    let json = serde_json::to_string(&tool_type.to_value()).unwrap();
    assert_eq!(json, "\"function\"");
}

#[test]
fn test_tool_type_deserializes_from_lowercase() {
    let value: Value = serde_json::from_str("\"function\"").unwrap();
    let tool_type = ToolType::from_value(&value);
    assert!(matches!(tool_type, Some(ToolType::Function)));
}

#[test]
fn test_tool_info_serializes_type_correctly() {
    let parameters = schema(r#"{"type": "object"}"#);
    let tool_info = ToolInfo {
        tool_type: ToolType::Function,
        function: ToolFunctionInfo {
            name: "test_tool".to_string(),
            description: "A test tool".to_string(),
            parameters,
        },
    };
    let json = serde_json::to_string(&tool_info.to_value()).unwrap();
    assert!(json.contains("\"type\":\"function\""));
}

#[test]
fn test_tool_info_matches_ollama_api_format() {
    let parameters = schema(
        r#"{
            "type": "object",
            "properties": {
                "city": {
                    "type": "string",
                    "description": "The city to get the weather for"
                }
            },
            "required": ["city"]
        }"#,
    );
    let tool_info = ToolInfo {
        tool_type: ToolType::Function,
        function: ToolFunctionInfo {
            name: "get_weather".to_string(),
            description: "Get the weather in a given city".to_string(),
            parameters,
        },
    };
    let json = tool_info.to_value();
    assert_eq!(json["type"], "function");
    assert_eq!(json["function"]["name"], "get_weather");
    assert_eq!(json["function"]["description"], "Get the weather in a given city");
}

#[test]
fn tool_type_as_str_is_lowercase() {
    assert_eq!(ToolType::Function.as_str(), "function");
}

#[test]
fn tool_type_rejects_other_spellings() {
    assert!(ToolType::from_value(&json("\"Function\"")).is_none());
    assert!(ToolType::from_value(&json("{\"function\": null}")).is_none());
    assert!(ToolType::from_value(&json("1")).is_none());
}

#[test]
fn descriptor_encodes_exact_envelope() {
    let info = ToolInfo::from_dynamic(
        "search".to_string(),
        "Web search".to_string(),
        schema(r#"{"type":"object","properties":{"query":{"type":"string"}}}"#),
    );
    let expected = json(
        r#"{"type":"function","function":{"name":"search","description":"Web search",
            "parameters":{"type":"object","properties":{"query":{"type":"string"}}}}}"#,
    );
    assert_eq!(info.to_value(), expected);
}

#[test]
fn descriptor_round_trip_through_text() {
    let info = ToolInfo::from_dynamic(
        "get_weather".to_string(),
        "Get the weather".to_string(),
        schema(r#"{"type":"object","required":["city"]}"#),
    );
    let text = serde_json::to_string(&info.to_value()).unwrap();
    let back = ToolInfo::from_value(&json(&text)).unwrap();
    assert!(matches!(back.tool_type, ToolType::Function));
    assert_eq!(back.function.name, "get_weather");
    assert_eq!(back.function.description, "Get the weather");
    assert_eq!(back.function.parameters, info.function.parameters);
    assert!(text.contains("\"type\":\"function\""));
}

#[test]
fn descriptor_with_boolean_schema_round_trips() {
    let info = ToolInfo::from_dynamic("t".to_string(), "d".to_string(), schema("true"));
    let back = ToolInfo::from_value(&info.to_value()).unwrap();
    assert_eq!(back.function.parameters.as_value(), &Value::Bool(true));
}

#[test]
fn descriptor_decode_failures() {
    // wrong kind
    assert!(ToolInfo::from_value(&json(
        r#"{"type":"Function","function":{"name":"a","description":"b","parameters":{}}}"#
    ))
    .is_none());
    // missing description
    assert!(ToolInfo::from_value(&json(
        r#"{"type":"function","function":{"name":"a","parameters":{}}}"#
    ))
    .is_none());
    // parameters that no schema can be
    assert!(ToolInfo::from_value(&json(
        r#"{"type":"function","function":{"name":"a","description":"b","parameters":[1]}}"#
    ))
    .is_none());
    // name that is no string
    assert!(ToolFunctionInfo::from_value(&json(
        r#"{"name":3,"description":"b","parameters":{}}"#
    ))
    .is_none());
}

#[test]
fn function_info_from_dynamic_keeps_fields() {
    let f = ToolFunctionInfo::from_dynamic("n".to_string(), "d".to_string(), schema("{}"));
    assert_eq!(f.name, "n");
    assert_eq!(f.description, "d");
    assert_eq!(f.to_value(), json(r#"{"name":"n","description":"d","parameters":{}}"#));
}

#[test]
fn tool_call_reads_arguments_or_alias() {
    let a = ToolCallFunction::from_value(&json(r#"{"name":"f","arguments":{"x":1}}"#)).unwrap();
    assert_eq!(a.name, "f");
    assert_eq!(a.arguments, json(r#"{"x":1}"#));
    let p = ToolCallFunction::from_value(&json(r#"{"name":"f","parameters":{"x":1}}"#)).unwrap();
    assert_eq!(p.arguments, a.arguments);
}

#[test]
fn tool_call_rejects_both_or_neither() {
    assert!(ToolCallFunction::from_value(&json(
        r#"{"name":"f","arguments":{},"parameters":{}}"#
    ))
    .is_none());
    assert!(ToolCallFunction::from_value(&json(r#"{"name":"f"}"#)).is_none());
    assert!(ToolCallFunction::from_value(&json(r#"{"arguments":{}}"#)).is_none());
    assert!(ToolCallFunction::from_value(&json(r#"{"name":null,"arguments":{}}"#)).is_none());
}

#[test]
fn tool_call_envelope_reads_function() {
    let c = ToolCall::from_value(&json(
        r#"{"function":{"name":"get_weather","arguments":{"city":"Tokyo"}}}"#,
    ))
    .unwrap();
    assert_eq!(c.function.name, "get_weather");
    assert_eq!(c.function.arguments, json(r#"{"city":"Tokyo"}"#));
    assert!(ToolCall::from_value(&json(r#"{"name":"x","arguments":{}}"#)).is_none());
}

#[test]
fn tool_call_encodes_and_reads_back() {
    let call = ToolCallFunction::from_value(&json(r#"{"name":"f","parameters":{"x":1}}"#)).unwrap();
    let v = call.to_value();
    assert_eq!(v, json(r#"{"name":"f","arguments":{"x":1}}"#));
    let back = ToolCallFunction::from_value(&v).unwrap();
    assert_eq!(back.name, "f");
    assert_eq!(back.arguments, json(r#"{"x":1}"#));
    let envelope = ToolCall { function: call.clone() }.to_value();
    assert_eq!(envelope, json(r#"{"function":{"name":"f","arguments":{"x":1}}}"#));
    assert!(format!("{:?}", call).contains("ToolCallFunction"));
}
