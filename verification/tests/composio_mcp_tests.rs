use zeroclaw_composio::json::{Json, JsonNumber};
use zeroclaw_composio::composio_mcp::{default_description, is_oauth_needed_message, toolkit_slug_candidates, ComposioMcpTool, McpTool};

fn j(text: &str) -> Json {
    json_from_serde(&serde_json::from_str::<serde_json::Value>(text).unwrap())
}

fn test_mcp_tool() -> McpTool {
    McpTool {
        name: "GMAIL_SEND_EMAIL".to_string(),
        description: Some("Send an email via Gmail".to_string()),
        input_schema: j(r#"{"type": "object", "properties": {"to": {"type": "string"}, "subject": {"type": "string"}, "body": {"type": "string"}}, "required": ["to", "subject", "body"]}"#),
    }
}

#[test]
fn composio_mcp_tool_has_correct_name() {
    let tool = ComposioMcpTool::new(test_mcp_tool());
    assert_eq!(tool.name(), "GMAIL_SEND_EMAIL");
    assert_eq!(tool.mcp_tool_name(), "GMAIL_SEND_EMAIL");
}

#[test]
fn composio_mcp_tool_has_description() {
    let tool = ComposioMcpTool::new(test_mcp_tool());
    assert_eq!(tool.description(), "Send an email via Gmail");
}

#[test]
fn composio_mcp_tool_has_schema() {
    let tool = ComposioMcpTool::new(test_mcp_tool());
    let schema = json_to_serde(&tool.parameters_schema());
    assert!(schema.is_object());
    assert!(schema["properties"]["to"].is_object());
    assert!(schema["properties"]["subject"].is_object());
    assert!(schema["properties"]["body"].is_object());
}

#[test]
fn composio_mcp_tool_uses_default_description_when_missing() {
    let mcp_tool = McpTool { name: "TEST_TOOL".to_string(), description: None, input_schema: j("{}") };
    let tool = ComposioMcpTool::new(mcp_tool);
    assert!(tool.description().contains("TEST_TOOL"));
    assert!(tool.description().contains("MCP"));
}

#[test]
fn is_oauth_needed_message_detects_common_patterns() {
    assert!(is_oauth_needed_message("Account disconnected"));
    assert!(is_oauth_needed_message("Not connected to Gmail"));
    assert!(is_oauth_needed_message("OAuth authorization required"));
    assert!(is_oauth_needed_message("Please connect your account"));
    assert!(is_oauth_needed_message("Authentication required"));
    assert!(is_oauth_needed_message("Permission denied - not authenticated"));
    assert!(is_oauth_needed_message("Unauthorized access"));
    assert!(!is_oauth_needed_message("Invalid parameters"));
    assert!(!is_oauth_needed_message("Rate limit exceeded"));
    assert!(!is_oauth_needed_message("Network error"));
}

#[test]
fn default_description_names_the_tool() {
    assert_eq!(default_description("X"), "Composio MCP tool: X (via MCP server)");
}

#[test]
fn slug_candidates_follow_the_name_formats() {
    assert_eq!(toolkit_slug_candidates("GMAIL_SEND_EMAIL")[0], "GMAIL");
    assert!(toolkit_slug_candidates("github-create-issue").contains(&"github".to_string()));
}

fn json_from_serde(v: &serde_json::Value) -> Json {
    match v {
        serde_json::Value::Null => Json::Null,
        serde_json::Value::Bool(b) => Json::Bool(*b),
        serde_json::Value::Number(n) => Json::Number(JsonNumber { as_i64: n.as_i64(), text: n.to_string() }),
        serde_json::Value::String(s) => Json::Str(s.clone()),
        serde_json::Value::Array(a) => Json::Array(a.iter().map(json_from_serde).collect()),
        serde_json::Value::Object(o) => Json::Object(o.iter().map(|(k, x)| (k.clone(), json_from_serde(x))).collect()),
    }
}

fn json_to_serde(j: &Json) -> serde_json::Value {
    match j {
        Json::Null => serde_json::Value::Null,
        Json::Bool(b) => serde_json::Value::Bool(*b),
        Json::Number(n) => serde_json::from_str(&n.text).unwrap_or(serde_json::Value::Null),
        Json::Str(s) => serde_json::Value::String(s.clone()),
        Json::Array(a) => serde_json::Value::Array(a.iter().map(json_to_serde).collect()),
        Json::Object(o) => serde_json::Value::Object(o.iter().map(|(k, x)| (k.clone(), json_to_serde(x))).collect()),
    }
}

#[test]
fn oauth_markers_are_read_from_lowercase_text() {
    assert!(zeroclaw_composio::composio_mcp::oauth_marker_in("user not connected"));
    assert!(!zeroclaw_composio::composio_mcp::oauth_marker_in("rate limited"));
}
