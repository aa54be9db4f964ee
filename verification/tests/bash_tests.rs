use zeroclaw_composio::json::{Json, JsonNumber};
use zeroclaw_composio::bash::{bash_params, BashHandler};
use zeroclaw_composio::jsonrpc::{JsonRpcError, JsonRpcResponse};

fn j(text: &str) -> Json {
    json_from_serde(&serde_json::from_str::<serde_json::Value>(text).unwrap())
}

#[test]
fn test_bash_handler_new() {
    let handler = BashHandler::new();
    assert!(std::mem::size_of_val(&handler) >= 0);
}

#[test]
fn test_extract_bash_result_from_content_text() {
    let result_data = j(r#"{"content": [{"text": "{\"exit_code\": 0, \"stdout\": \"Test output\", \"stderr\": \"\"}"}]}"#);
    let bash_result = BashHandler::extract_bash_result(&result_data).unwrap();
    assert_eq!(bash_result.exit_code, 0);
    assert_eq!(bash_result.stdout, "Test output");
    assert_eq!(bash_result.stderr, "");
}

#[test]
fn test_extract_bash_result_direct_format() {
    let result_data = j(r#"{"exit_code": 127, "stdout": "", "stderr": "command not found"}"#);
    let bash_result = BashHandler::extract_bash_result(&result_data).unwrap();
    assert_eq!(bash_result.exit_code, 127);
    assert_eq!(bash_result.stdout, "");
    assert_eq!(bash_result.stderr, "command not found");
}

#[test]
fn test_extract_bash_result_alternative_field_names() {
    let result_data = j(r#"{"exitCode": 2, "output": "Some output", "error_output": "Some error"}"#);
    let bash_result = BashHandler::extract_bash_result(&result_data).unwrap();
    assert_eq!(bash_result.exit_code, 2);
    assert_eq!(bash_result.stdout, "Some output");
    assert_eq!(bash_result.stderr, "Some error");
}

#[test]
fn test_extract_bash_result_plain_text() {
    let result_data = j(r#"{"content": [{"text": "Plain text output"}]}"#);
    let bash_result = BashHandler::extract_bash_result(&result_data).unwrap();
    assert_eq!(bash_result.exit_code, 0);
    assert_eq!(bash_result.stdout, "Plain text output");
    assert_eq!(bash_result.stderr, "");
}

#[test]
fn test_parse_bash_result_from_value_minimal() {
    let data = j("{}");
    let bash_result = BashHandler::parse_bash_result_from_value(&data).unwrap();
    assert_eq!(bash_result.exit_code, 0);
    assert_eq!(bash_result.stdout, "");
    assert_eq!(bash_result.stderr, "");
}

#[test]
fn test_parse_bash_result_from_value_complete() {
    let data = j(r#"{"exit_code": 42, "stdout": "Complete stdout", "stderr": "Complete stderr"}"#);
    let bash_result = BashHandler::parse_bash_result_from_value(&data).unwrap();
    assert_eq!(bash_result.exit_code, 42);
    assert_eq!(bash_result.stdout, "Complete stdout");
    assert_eq!(bash_result.stderr, "Complete stderr");
}

fn reply(result: Option<&str>, error: Option<(i64, &str)>) -> JsonRpcResponse {
    JsonRpcResponse {
        jsonrpc: "2.0".to_string(),
        id: 1,
        result: result.map(j),
        error: error.map(|(code, message)| JsonRpcError { code, message: message.to_string(), data: None }),
    }
}

#[test]
fn test_execute_bash_success() {
    let rpc = reply(Some(r#"{"content": [{"text": "{\"exit_code\": 0, \"stdout\": \"Hello, World!\\n\", \"stderr\": \"\"}"}]}"#), None);
    let result = BashHandler::tool_result_from_response(rpc).unwrap();
    assert!(result.success);
    assert_eq!(result.output, "Hello, World!\n");
    assert!(result.error.is_none());
}

#[test]
fn test_execute_bash_with_stderr() {
    let rpc = reply(Some(r#"{"content": [{"text": "{\"exit_code\": 0, \"stdout\": \"Output\\n\", \"stderr\": \"Warning: something\\n\"}"}]}"#), None);
    let result = BashHandler::tool_result_from_response(rpc).unwrap();
    assert!(result.success);
    assert!(result.output.contains("STDOUT:"));
    assert!(result.output.contains("STDERR:"));
    assert!(result.output.contains("Output"));
    assert!(result.output.contains("Warning: something"));
}

#[test]
fn test_execute_bash_failure() {
    let rpc = reply(Some(r#"{"content": [{"text": "{\"exit_code\": 1, \"stdout\": \"\", \"stderr\": \"command not found\\n\"}"}]}"#), None);
    let result = BashHandler::tool_result_from_response(rpc).unwrap();
    assert!(!result.success);
    assert!(result.output.contains("command not found"));
    assert_eq!(result.error, Some("Command exited with code 1".to_string()));
}

#[test]
fn test_execute_bash_jsonrpc_error() {
    let rpc = reply(None, Some((-32000, "Sandbox unavailable")));
    let result = BashHandler::tool_result_from_response(rpc).unwrap();
    assert!(!result.success);
    assert!(result.output.contains("Sandbox unavailable"));
    assert_eq!(result.error, Some("Sandbox unavailable".to_string()));
}

#[test]
fn test_execute_bash_plain_text_response() {
    let rpc = reply(Some(r#"{"content": [{"text": "Plain text output from command"}]}"#), None);
    let result = BashHandler::tool_result_from_response(rpc).unwrap();
    assert!(result.success);
    assert_eq!(result.output, "Plain text output from command");
}

fn json_from_serde(v: &serde_json::Value) -> Json {
    match v {
        serde_json::Value::Null => Json::Null,
        serde_json::Value::Bool(b) => Json::Bool(*b),
        serde_json::Value::Number(n) => Json::Number(JsonNumber { as_i64: n.as_i64(), text: n.to_string() }),
        serde_json::Value::String(s) => Json::Str(s.clone()),
        serde_json::Value::Array(a) => Json::Array(a.iter().map(json_from_serde).collect()),
        serde_json::Value::Object(o) => Json::Object(o.iter().map(|(k, x)| (k.clone(), json_from_serde(x))).collect()),
    }
}

#[test]
fn test_execute_bash_with_working_directory() {
    let params = json_to_serde_text(&bash_params("pwd", "user1", Some("/custom/path")));
    assert!(params.contains("/custom/path"));
    let rpc = reply(Some(r#"{"content": [{"text": "{\"exit_code\": 0, \"stdout\": \"/custom/path\\n\", \"stderr\": \"\"}"}]}"#), None);
    let result = BashHandler::tool_result_from_response(rpc).unwrap();
    assert!(result.success);
    assert!(result.output.contains("/custom/path"));
}

fn json_to_serde_text(j: &Json) -> String {
    match j {
        Json::Null => "null".to_string(),
        Json::Bool(b) => b.to_string(),
        Json::Number(n) => n.text.clone(),
        Json::Str(s) => serde_json::Value::String(s.clone()).to_string(),
        Json::Array(a) => format!("[{}]", a.iter().map(json_to_serde_text).collect::<Vec<_>>().join(",")),
        Json::Object(o) => format!(
            "{{{}}}",
            o.iter().map(|(k, x)| format!("{}:{}", serde_json::Value::String(k.clone()), json_to_serde_text(x))).collect::<Vec<_>>().join(",")
        ),
    }
}
