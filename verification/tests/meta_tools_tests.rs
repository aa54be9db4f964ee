use zeroclaw_composio::json::{Json, JsonNumber};
use zeroclaw_composio::jsonrpc::{JsonRpcError, JsonRpcResponse};
use zeroclaw_composio::meta_tools::{
    convert_mcp_response_to_tool_result, find_oauth_link, AuthRequired, ManageConnectionError, MetaToolsHandler,
};

fn j(text: &str) -> Json {
    json_from_serde(&serde_json::from_str::<serde_json::Value>(text).unwrap())
}

fn ok_reply(inner: &str) -> Result<JsonRpcResponse, String> {
    let quoted = serde_json::to_string(inner).unwrap();
    Ok(JsonRpcResponse {
        jsonrpc: "2.0".to_string(),
        id: 1,
        result: Some(j(&format!(r#"{{"content": [{{"text": {}}}]}}"#, quoted))),
        error: None,
    })
}

#[test]
fn oauth_link_is_found_in_instruction() {
    assert_eq!(
        find_oauth_link("Please visit https://connect.composio.dev/link/xyz to authorize"),
        Some("https://connect.composio.dev/link/xyz".to_string())
    );
    assert_eq!(find_oauth_link("nothing"), None);
}

#[test]
fn auth_required_message_names_toolkit_and_link() {
    let a = AuthRequired { toolkit: "gmail".to_string(), connect_link: "https://l".to_string(), expires_in: 600 };
    let m = a.message();
    assert!(m.contains("gmail"));
    assert!(m.contains("https://l"));
}

#[test]
fn rpc_error_fails_the_connection_check() {
    let mut h = MetaToolsHandler::new();
    let reply = Ok(JsonRpcResponse {
        jsonrpc: "2.0".to_string(),
        id: 1,
        result: None,
        error: Some(JsonRpcError { code: -1, message: "down".to_string(), data: None }),
    });
    match h.complete_manage_connection_at("gmail", "u", &reply, 0) {
        Err(ManageConnectionError::Failed(_)) => {},
        _ => panic!("expected a failure"),
    }
    assert!(h.cached_connection_at("gmail", "u", 0).is_none());
}

#[test]
fn executions_are_recorded_and_cleared() {
    let mut h = MetaToolsHandler::new();
    h.record_execution_at("T", true, 10, 5);
    h.record_execution_at("U", false, 0, 6);
    let hist = h.get_execution_history();
    assert_eq!(hist.len(), 2);
    assert_eq!(hist[0].tool_name, "T");
    assert!(!hist[1].success);
    h.clear_execution_history();
    assert!(h.get_execution_history().is_empty());
}

#[test]
fn history_keeps_the_last_hundred() {
    let mut h = MetaToolsHandler::new();
    for i in 0..105usize {
        h.record_execution_at(&format!("t{}", i), true, i, i as i64);
    }
    let hist = h.get_execution_history();
    assert_eq!(hist.len(), 100);
    assert_eq!(hist[0].tool_name, "t5");
}

#[test]
fn mcp_text_becomes_tool_output() {
    let r = convert_mcp_response_to_tool_result(&j(r#"{"content": [{"text": "plain"}]}"#));
    assert_eq!(r.output, "plain");
    let reply = ok_reply(r#"{"successful": true, "data": {"x": 1}}"#);
    let mut h = MetaToolsHandler::new();
    let t = h.complete_execute_tool_at("T", &reply, 1).unwrap();
    assert!(t.success);
    assert_eq!(h.get_execution_history().len(), 1);
}

#[test]
fn test_manage_connection_oauth_required() {
    let mut h = MetaToolsHandler::new();
    let reply = ok_reply(r#"{"data": {"results": {"gmail": {"instruction": "Please visit https://connect.composio.dev/link/abc123 to authenticate"}}}}"#);
    match h.complete_manage_connection_at("gmail", "user1", &reply, 0) {
        Err(ManageConnectionError::AuthRequired(a)) => {
            assert_eq!(a.toolkit, "gmail");
            assert!(a.connect_link.contains("connect.composio.dev"));
            assert_eq!(a.expires_in, 600);
        },
        _ => panic!("expected an authorization request"),
    }
}

#[test]
fn test_manage_connection_active_and_cached() {
    let mut h = MetaToolsHandler::new();
    let reply = ok_reply(r#"{"data": {"results": {"gmail": {"connected_account_id": "acc_456", "status": "active"}}}}"#);
    let info = h.complete_manage_connection_at("gmail", "user1", &reply, 1_000).unwrap();
    assert_eq!(info.toolkit, "gmail");
    assert_eq!(info.connected_account_id, "acc_456");
    assert_eq!(info.status, zeroclaw_composio::cache::ConnectionStatus::Active);
    assert_eq!(h.cached_connection_at("gmail", "user1", 1_001).unwrap().connected_account_id, "acc_456");
}

#[test]
fn test_manage_connection_cache_hit() {
    let mut h = MetaToolsHandler::new();
    let reply = ok_reply(r#"{"data": {"results": {"gmail": {"connected_account_id": "acc_123", "status": "active"}}}}"#);
    h.complete_manage_connection_at("gmail", "user1", &reply, 1_000).unwrap();
    let cached = h.cached_connection_at("gmail", "user1", 2_000).unwrap();
    assert_eq!(cached.toolkit, "gmail");
    assert_eq!(cached.connected_account_id, "acc_123");
    assert_eq!(cached.status, zeroclaw_composio::cache::ConnectionStatus::Active);
}

#[test]
fn test_manage_connection_multiple_oauth_link_formats() {
    let formats = [
        r#"{"data": {"results": {"gmail": {"instruction": "Visit https://connect.composio.dev/link/abc123 to authenticate"}}}}"#,
        r#"{"data": {"results": {"gmail": {"instruction": "Go to https://backend.composio.dev/oauth/xyz789"}}}}"#,
        r#"{"data": {"results": {"gmail": {"instruction": "Open https://app.composio.dev/auth/def456 in browser"}}}}"#,
    ];
    for f in formats {
        let mut h = MetaToolsHandler::new();
        match h.complete_manage_connection_at("gmail", "user1", &ok_reply(f), 0) {
            Err(ManageConnectionError::AuthRequired(a)) => assert!(a.connect_link.starts_with("https://")),
            _ => panic!("expected an authorization request"),
        }
    }
}

#[test]
fn test_execute_tool_success() {
    let mut h = MetaToolsHandler::new();
    let reply = ok_reply(r#"{"success": true, "output": "Email sent successfully", "data": {"message_id": "msg_123"}}"#);
    let r = h.complete_execute_tool_at("GMAIL_SEND_EMAIL", &reply, 0).unwrap();
    assert!(r.success);
    assert!(r.output.contains("Email sent successfully"));
    assert!(r.error.is_none());
    let hist = h.get_execution_history();
    assert_eq!(hist.len(), 1);
    assert_eq!(hist[0].tool_name, "GMAIL_SEND_EMAIL");
    assert!(hist[0].success);
}

#[test]
fn test_execute_tool_failure() {
    let mut h = MetaToolsHandler::new();
    let reply = ok_reply(r#"{"success": false, "error": "Invalid email address"}"#);
    let r = h.complete_execute_tool_at("GMAIL_SEND_EMAIL", &reply, 0).unwrap();
    assert!(!r.success);
    assert_eq!(r.error, Some("Invalid email address".to_string()));
    let hist = h.get_execution_history();
    assert_eq!(hist.len(), 1);
    assert!(!hist[0].success);
}

#[test]
fn test_execute_tool_jsonrpc_error() {
    let mut h = MetaToolsHandler::new();
    let reply = Ok(JsonRpcResponse {
        jsonrpc: "2.0".to_string(),
        id: 1,
        result: None,
        error: Some(JsonRpcError { code: -32600, message: "Invalid request".to_string(), data: None }),
    });
    let r = h.complete_execute_tool_at("GMAIL_SEND_EMAIL", &reply, 0).unwrap();
    assert!(!r.success);
    assert!(r.output.contains("Invalid request"));
    assert_eq!(r.error, Some("Invalid request".to_string()));
    let hist = h.get_execution_history();
    assert_eq!(hist.len(), 1);
    assert!(!hist[0].success);
}

#[test]
fn test_execute_tool_plain_text_response() {
    let mut h = MetaToolsHandler::new();
    let r = h.complete_execute_tool_at("SOME_TOOL", &ok_reply("Plain text response from tool"), 0).unwrap();
    assert!(r.success);
    assert_eq!(r.output, "Plain text response from tool");
    assert!(r.error.is_none());
}

#[test]
fn test_execute_tool_with_result_field() {
    let mut h = MetaToolsHandler::new();
    let r = h.complete_execute_tool_at("TEST_TOOL", &ok_reply(r#"{"success": true, "result": "Operation completed"}"#), 0).unwrap();
    assert!(r.success);
    assert_eq!(r.output, "Operation completed");
}

#[test]
fn test_execute_tool_with_error_message_field() {
    let mut h = MetaToolsHandler::new();
    let reply = ok_reply(r#"{"success": false, "error_message": "Operation failed", "output": "Details"}"#);
    let r = h.complete_execute_tool_at("TEST_TOOL", &reply, 0).unwrap();
    assert!(!r.success);
    assert_eq!(r.error, Some("Operation failed".to_string()));
}

#[test]
fn test_execution_history_rolling_window() {
    let mut h = MetaToolsHandler::new();
    for i in 0..150 {
        h.record_execution(&format!("tool_{}", i), true, 100);
    }
    let hist = h.get_execution_history();
    assert_eq!(hist.len(), 100);
    assert_eq!(hist[0].tool_name, "tool_50");
    assert_eq!(hist[99].tool_name, "tool_149");
}

#[test]
fn test_execution_history_clear() {
    let mut h = MetaToolsHandler::new();
    h.record_execution("tool_1", true, 100);
    h.record_execution("tool_2", false, 50);
    assert_eq!(h.get_execution_history().len(), 2);
    h.clear_execution_history();
    assert_eq!(h.get_execution_history().len(), 0);
}

#[test]
fn test_convert_mcp_response_various_formats() {
    let r1 = convert_mcp_response_to_tool_result(&j(r#"{"content": [{"text": "{\"success\": true, \"output\": \"Result 1\"}"}]}"#));
    assert!(r1.success);
    assert_eq!(r1.output, "Result 1");
    let r2 = convert_mcp_response_to_tool_result(&j(r#"{"success": false, "error": "Something went wrong", "output": "Error details"}"#));
    assert!(!r2.success);
    assert_eq!(r2.output, "Error details");
    assert_eq!(r2.error, Some("Something went wrong".to_string()));
    let r3 = convert_mcp_response_to_tool_result(&j(r#"{"data": {"items": [1, 2, 3], "count": 3}}"#));
    assert!(r3.success);
    assert!(r3.output.contains("items"));
    assert!(r3.output.contains("count"));
}

#[test]
fn test_auth_required_display() {
    let a = AuthRequired { toolkit: "gmail".to_string(), connect_link: "https://connect.composio.dev/link/abc123".to_string(), expires_in: 600 };
    let display = a.message();
    assert!(display.contains("gmail"));
    assert!(display.contains("https://connect.composio.dev/link/abc123"));
    assert!(display.contains("600"));
}

fn json_from_serde(v: &serde_json::Value) -> Json {
    match v {
        serde_json::Value::Null => Json::Null,
        serde_json::Value::Bool(b) => Json::Bool(*b),
        serde_json::Value::Number(n) => Json::Number(JsonNumber { as_i64: n.as_i64(), text: n.to_string() }),
        serde_json::Value::String(s) => Json::Str(s.clone()),
        serde_json::Value::Array(a) => Json::Array(a.iter().map(json_from_serde).collect()),
        serde_json::Value::Object(o) => Json::Object(o.iter().map(|(k, x)| (k.clone(), json_from_serde(x))).collect()),
    }
}

#[test]
fn connection_checked_now_is_cached() {
    let mut h = MetaToolsHandler::new();
    let reply = ok_reply(r#"{"data": {"results": {"gmail": {"connected_account_id": "acc_now", "status": "active"}}}}"#);
    let info = h.complete_manage_connection("gmail", "user1", &reply).unwrap();
    assert_eq!(info.connected_account_id, "acc_now");
    assert_eq!(h.cached_connection_at("gmail", "user1", info.created_at + 1).unwrap().connected_account_id, "acc_now");
    let oauth = ok_reply(r#"{"data": {"results": {"slack": {"instruction": "Visit https://connect.composio.dev/link/abc"}}}}"#);
    assert!(h.complete_manage_connection("slack", "user1", &oauth).is_err());
    assert!(h.cached_connection_at("slack", "user1", info.created_at + 1).is_none());
}
