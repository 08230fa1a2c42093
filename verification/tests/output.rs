use context_engine::fences::{extract_json_block, strip_json_fences};
use context_engine::infer::{InferResponse, StopReason, TokenUsage, ToolCall};
use context_engine::message::Content;
use context_engine::output::{OutputError, OutputMode, OutputSchema, RETURN_RESULT_TOOL};
use context_engine::tool_exec::format_tool_result;
use serde_json::Value;

fn json(text: &str) -> Value {
    serde_json::from_str(text).unwrap()
}

fn tool_call_response(name: &str, id: &str, input: Value) -> InferResponse {
    InferResponse {
        content: Content { parts: vec![] },
        tool_calls: vec![ToolCall { id: id.to_string(), name: name.to_string(), input }],
        stop_reason: StopReason::ToolUse,
        usage: TokenUsage { input_tokens: 10, output_tokens: 5 },
        model: "test".to_string(),
        cost: None,
    }
}

fn text_response(text: &str) -> InferResponse {
    InferResponse {
        content: Content::text(text),
        tool_calls: vec![],
        stop_reason: StopReason::EndTurn,
        usage: TokenUsage { input_tokens: 10, output_tokens: 5 },
        model: "test".to_string(),
        cost: None,
    }
}

fn city_validator(value: &Value) -> Result<Value, String> {
    if value.get("name").and_then(|n| n.as_str()).is_none() {
        return Err("missing or invalid 'name' field".to_string());
    }
    if value.get("population").and_then(|p| p.as_u64()).is_none() {
        return Err("missing or invalid 'population' field".to_string());
    }
    Ok(value.clone())
}

fn identity(v: &Value) -> Result<Value, String> {
    Ok(v.clone())
}

#[test]
fn tool_call_schema_defaults() {
    let schema = OutputSchema::tool_call(json(r#"{"type": "object"}"#), identity);
    assert_eq!(schema.mode, OutputMode::ToolCall);
    assert_eq!(schema.max_retries, 3);
    assert_eq!(schema.tool_name, RETURN_RESULT_TOOL);
}

#[test]
fn text_json_schema_defaults() {
    let schema = OutputSchema::text_json(json(r#"{"type": "object"}"#), identity);
    assert_eq!(schema.mode, OutputMode::TextJson);
    assert_eq!(schema.max_retries, 3);
}

#[test]
fn builder_methods() {
    let schema = OutputSchema::tool_call(json("{}"), identity)
        .with_max_retries(5)
        .with_tool_name("custom_result".to_string());
    assert_eq!(schema.max_retries, 5);
    assert_eq!(schema.tool_name, "custom_result");
}

#[test]
fn tool_schema_generation() {
    let schema = OutputSchema::tool_call(
        json(r#"{"type": "object", "properties": {"name": {"type": "string"}}}"#),
        identity,
    );
    let ts = schema.tool_schema();
    assert_eq!(ts.name, "return_result");
    assert!(ts.description.contains("structured result"));
    assert_eq!(ts.input_schema["type"], "object");
    assert!(ts.input_schema["properties"]["result"].is_object());
    assert!(ts.input_schema["required"].as_array().unwrap().contains(&json("\"result\"")));
}

#[test]
fn extract_tool_call_success() {
    let schema = OutputSchema::tool_call(json("{}"), city_validator);
    let response = tool_call_response(
        "return_result",
        "call_1",
        json(r#"{"result": {"name": "Tokyo", "population": 13960000}}"#),
    );
    let value = schema.extract(&response).unwrap();
    assert_eq!(value["name"], "Tokyo");
    assert_eq!(value["population"], 13960000_u64);
}

#[test]
fn extract_tool_call_validation_failure() {
    let schema = OutputSchema::tool_call(json("{}"), city_validator);
    let response = tool_call_response("return_result", "call_1", json(r#"{"result": {"name": "Tokyo"}}"#));
    let err = schema.extract(&response).unwrap_err();
    assert!(matches!(err, OutputError::ValidationFailed { .. }));
    assert!(err.to_text().contains("population"));
}

#[test]
fn extract_tool_call_missing_result_field() {
    let schema = OutputSchema::tool_call(json("{}"), city_validator);
    let response = tool_call_response("return_result", "call_1", json(r#"{"name": "Tokyo", "population": 13960000}"#));
    let err = schema.extract(&response).unwrap_err();
    assert!(matches!(err, OutputError::ValidationFailed { .. }));
    assert!(err.to_text().contains("result"));
}

#[test]
fn extract_tool_call_wrong_tool_name() {
    let schema = OutputSchema::tool_call(json("{}"), city_validator);
    let response = tool_call_response("some_other_tool", "call_1", json("{}"));
    let err = schema.extract(&response).unwrap_err();
    assert!(matches!(err, OutputError::NoOutput));
}

#[test]
fn extract_tool_call_no_tool_calls() {
    let schema = OutputSchema::tool_call(json("{}"), city_validator);
    let response = text_response("The capital is Tokyo.");
    let err = schema.extract(&response).unwrap_err();
    assert!(matches!(err, OutputError::NoOutput));
}

#[test]
fn extract_tool_call_custom_tool_name() {
    let schema = OutputSchema::tool_call(json("{}"), identity).with_tool_name("submit".to_string());
    let response = tool_call_response("submit", "call_1", json(r#"{"result": "ok"}"#));
    assert!(schema.extract(&response).is_ok());
}

#[test]
fn extract_text_json_success() {
    let schema = OutputSchema::text_json(json("{}"), city_validator);
    let response = text_response(r#"{"name": "Tokyo", "population": 13960000}"#);
    let value = schema.extract(&response).unwrap();
    assert_eq!(value["name"], "Tokyo");
}

#[test]
fn extract_text_json_code_fence() {
    let schema = OutputSchema::text_json(json("{}"), city_validator);
    let response = text_response(
        "Here is the result:\n```json\n{\"name\": \"Tokyo\", \"population\": 13960000}\n```\nDone.",
    );
    let value = schema.extract(&response).unwrap();
    assert_eq!(value["name"], "Tokyo");
}

#[test]
fn extract_text_json_bare_code_fence() {
    let schema = OutputSchema::text_json(json("{}"), city_validator);
    let response = text_response("```\n{\"name\": \"Berlin\", \"population\": 3645000}\n```");
    let value = schema.extract(&response).unwrap();
    assert_eq!(value["name"], "Berlin");
}

#[test]
fn extract_text_json_validation_failure() {
    let schema = OutputSchema::text_json(json("{}"), city_validator);
    let response = text_response(r#"{"name": "Tokyo"}"#);
    let err = schema.extract(&response).unwrap_err();
    assert!(matches!(err, OutputError::ValidationFailed { .. }));
    assert!(err.to_text().contains("population"));
}

#[test]
fn extract_text_json_not_json() {
    let schema = OutputSchema::text_json(json("{}"), city_validator);
    let response = text_response("The capital of Japan is Tokyo.");
    let err = schema.extract(&response).unwrap_err();
    assert!(matches!(err, OutputError::ValidationFailed { .. }));
    assert!(err.to_text().contains("JSON parse error"));
}

#[test]
fn extract_text_json_no_text() {
    let schema = OutputSchema::text_json(json("{}"), city_validator);
    let response = text_response("");
    let err = schema.extract(&response).unwrap_err();
    assert!(matches!(err, OutputError::NoOutput));
}

#[test]
fn extract_json_block_with_json_tag() {
    let text = "text\n```json\n{\"a\": 1}\n```\nmore";
    assert_eq!(extract_json_block(text), Some("{\"a\": 1}"));
}

#[test]
fn extract_json_block_bare() {
    let text = "text\n```\n{\"a\": 1}\n```\nmore";
    assert_eq!(extract_json_block(text), Some("{\"a\": 1}"));
}

#[test]
fn extract_json_block_none() {
    assert_eq!(extract_json_block("no code fence here"), None);
}

#[test]
fn extract_json_block_empty() {
    let text = "```json\n```";
    assert_eq!(extract_json_block(text), None);
}

#[test]
fn extract_json_block_trims_whitespace() {
    let text = "```json\n  {\"a\": 1}  \n```";
    assert_eq!(extract_json_block(text), Some("{\"a\": 1}"));
}

#[test]
fn output_error_display() {
    assert_eq!(OutputError::NoOutput.to_text(), "model did not produce structured output");
    let err = OutputError::ValidationFailed { message: "bad field".into(), raw: None };
    assert_eq!(err.to_text(), "output validation failed: bad field");
}

#[test]
fn test_format_tool_result_string() {
    let value = Value::String("hello world".into());
    assert_eq!(format_tool_result(&value), "hello world");
}

#[test]
fn test_format_tool_result_json() {
    let value = json(r#"{"key": "value"}"#);
    let result = format_tool_result(&value);
    assert!(result.contains("key"));
    assert!(result.contains("value"));
}

#[test]
fn test_format_tool_result_null() {
    let value = Value::Null;
    assert_eq!(format_tool_result(&value), "null");
}


#[test]
fn stripped_and_extracted_json_is_trimmed() {
    assert_eq!(strip_json_fences("  ```json\n  {\"a\": 1}  \n```  "), "{\"a\": 1}");
    assert_eq!(strip_json_fences("```\n[1]\n"), "[1]");
    assert_eq!(extract_json_block("text ```json\n  {\"b\": 2}\n``` more"), Some("{\"b\": 2}"));
    assert_eq!(extract_json_block("```\n   \n```"), None);
}
