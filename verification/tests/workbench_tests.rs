use zeroclaw_composio::json::{Json, JsonNumber};
use zeroclaw_composio::jsonrpc::{JsonRpcError, JsonRpcResponse};
use zeroclaw_composio::tool_result::ToolResult;
use zeroclaw_composio::workbench::{SessionFailure, SessionStep, WorkbenchExecution};
use zeroclaw_composio::workbench::{
    extract_session_id, extract_workbench_output, finalize_workbench_output, summarize_workbench_output, WorkbenchHandler,
    WorkbenchState,
};

fn j(text: &str) -> Json {
    json_from_serde(&serde_json::from_str::<serde_json::Value>(text).unwrap())
}

#[test]
fn test_workbench_state_new() {
    let state = WorkbenchState::new("user1".to_string());
    assert!(state.session_id.is_none());
    assert_eq!(state.user_id, "user1");
    assert!(state.files.is_empty());
    assert!(state.last_output.is_none());
    assert!(state.created_at.is_none());
    assert!(state.last_accessed_at.is_none());
}

#[test]
fn test_workbench_state_is_expired() {
    let mut state = WorkbenchState::new("user1".to_string());
    assert!(!state.is_expired(1));
    state.last_accessed_at = Some(now_millis());
    assert!(!state.is_expired(1));
    state.last_accessed_at = Some(now_millis() - 2 * 3_600_000);
    assert!(state.is_expired(1));
}

#[test]
fn test_workbench_state_touch() {
    let mut state = WorkbenchState::new("user1".to_string());
    assert!(state.last_accessed_at.is_none());
    state.touch_at(1_000);
    assert!(state.last_accessed_at.is_some());
    let first_access = state.last_accessed_at.unwrap();
    state.touch_at(1_010);
    let second_access = state.last_accessed_at.unwrap();
    assert!(second_access > first_access);
}

#[test]
fn test_workbench_state_reset() {
    let mut state = WorkbenchState::new("user1".to_string());
    state.session_id = Some("session_123".to_string());
    state.files.insert("file1.txt".to_string(), "content".to_string());
    state.last_output = Some("output".to_string());
    state.created_at = Some(now_millis());
    state.last_accessed_at = Some(now_millis());
    state.reset();
    assert!(state.session_id.is_none());
    assert!(state.files.is_empty());
    assert!(state.last_output.is_none());
    assert!(state.created_at.is_none());
    assert!(state.last_accessed_at.is_none());
}

#[test]
fn test_extract_workbench_output_from_content_text() {
    let result_data = j(r#"{"content": [{"text": "{\"output\": \"Test output from Workbench\"}"}]}"#);
    assert_eq!(extract_workbench_output(&result_data), "Test output from Workbench");
}

#[test]
fn test_extract_workbench_output_plain_text() {
    let result_data = j(r#"{"content": [{"text": "Plain text output"}]}"#);
    assert_eq!(extract_workbench_output(&result_data), "Plain text output");
}

#[test]
fn test_extract_workbench_output_direct_result() {
    let result_data = j(r#"{"output": "Direct result output"}"#);
    assert_eq!(extract_workbench_output(&result_data), "Direct result output");
}

#[test]
fn test_summarize_output_small() {
    let small_output = "Short output";
    let summary = summarize_workbench_output(small_output);
    assert_eq!(summary, small_output);
}

#[test]
fn test_summarize_output_large() {
    let large_output = "x".repeat(20000);
    let summary = summarize_workbench_output(&large_output);
    assert!(summary.len() < large_output.len());
    assert!(summary.contains("Output truncated"));
    assert!(summary.starts_with("xxx"));
    assert!(summary.ends_with("xxx"));
}

#[test]
fn summary_counts_omitted_bytes() {
    let large_output = "y".repeat(12001);
    let summary = summarize_workbench_output(&large_output);
    assert!(summary.contains("[Output truncated: 1 chars omitted]"));
}

#[test]
fn large_output_gets_metadata() {
    let out = "z".repeat(20000);
    let r = finalize_workbench_output(out, "wb_1");
    assert!(r.success);
    assert!(r.output.ends_with("[Workbench Metadata: session_id=wb_1, output_size=20000 bytes, full_output_available=true]"));
}

#[test]
fn session_id_is_read_from_reply() {
    let data = j(r#"{"content": [{"text": "{\"session_id\": \"abc\"}"}]}"#);
    assert_eq!(extract_session_id(&data), "abc");
}

#[test]
fn session_id_is_generated_when_absent() {
    let data = j(r#"{"content": [{"text": "{}"}]}"#);
    let id = extract_session_id(&data);
    assert!(id.starts_with("wb_"));
    assert!(id.len() > 3);
}

#[test]
fn handler_keeps_sessions_per_user() {
    let mut h = WorkbenchHandler::new(10, 24);
    let s = h.get_or_create_session_state("alice");
    assert_eq!(s.user_id, "alice");
    assert!(h.get_state("alice").is_some());
    assert!(h.get_state("bob").is_none());
    h.clear_session("alice");
    assert!(h.get_state("alice").is_none());
}


fn reply_text(text: &str) -> Result<JsonRpcResponse, String> {
    let quoted = serde_json::to_string(text).unwrap();
    let result = j(&format!(r#"{{"content": [{{"text": {}}}]}}"#, quoted));
    Ok(JsonRpcResponse { jsonrpc: "2.0".to_string(), id: 1, result: Some(result), error: None })
}

fn open(h: &mut WorkbenchHandler, user: &str, init: &Result<JsonRpcResponse, String>, now: i64) -> Result<String, SessionFailure> {
    match h.begin_workbench_session_at(user, now) {
        SessionStep::Reuse(id) => Ok(id),
        SessionStep::Create(pending) => h.finish_workbench_session_at(user, pending, init, now),
    }
}

fn ensure(h: &mut WorkbenchHandler, user: &str, init: &Result<JsonRpcResponse, String>, now: i64) -> Result<String, String> {
    open(h, user, init, now).map_err(|f| f.message())
}

fn run(
    h: &mut WorkbenchHandler,
    user: &str,
    init: &Result<JsonRpcResponse, String>,
    exec: &Result<JsonRpcResponse, String>,
    now: i64,
) -> Result<ToolResult, String> {
    let session_id = match open(h, user, init, now) {
        Ok(id) => id,
        Err(failure) => return failure.run_outcome(),
    };
    match h.complete_execute_via_workbench_at(user, exec, now)? {
        WorkbenchExecution::Failed(r) => Ok(r),
        WorkbenchExecution::Output(o) => Ok(finalize_workbench_output(o, &session_id)),
    }
}

fn live_state(user: &str, session: &str, at: i64) -> WorkbenchState {
    let mut state = WorkbenchState::new(user.to_string());
    state.session_id = Some(session.to_string());
    state.created_at = Some(at);
    state.last_accessed_at = Some(at);
    state
}

const HOUR: i64 = 3_600_000;

#[test]
fn test_workbench_handler_new() {
    let h = WorkbenchHandler::new(10, 1);
    assert!(h.get_all_sessions().is_empty());
}

#[test]
fn test_workbench_handler_clear_sessions() {
    let mut h = WorkbenchHandler::new(10, 1);
    h.update_session_state("user1", WorkbenchState::new("user1".to_string()));
    h.update_session_state("user2", WorkbenchState::new("user2".to_string()));
    assert_eq!(h.get_all_sessions().len(), 2);
    h.clear_all_sessions();
    assert!(h.get_all_sessions().is_empty());
}

#[test]
fn test_ensure_workbench_session_creates_new() {
    let mut h = WorkbenchHandler::new(10, 1);
    let init = reply_text(r#"{"session_id": "wb_test_123", "output": "Workbench session initialized"}"#);
    assert_eq!(ensure(&mut h, "user1", &init, 10 * HOUR).unwrap(), "wb_test_123");
    let state = h.get_state("user1").unwrap();
    assert_eq!(state.session_id, Some("wb_test_123".to_string()));
    assert_eq!(state.user_id, "user1");
    assert!(state.created_at.is_some());
    assert!(state.last_accessed_at.is_some());
    assert!(state.last_output.is_some());
}

#[test]
fn test_ensure_workbench_session_reuses_existing() {
    let mut h = WorkbenchHandler::new(10, 1);
    h.update_session_state("user1", live_state("user1", "wb_existing_456", 10 * HOUR));
    let unused = reply_text("{}");
    assert_eq!(ensure(&mut h, "user1", &unused, 10 * HOUR + 1).unwrap(), "wb_existing_456");
}

#[test]
fn test_ensure_workbench_session_recreates_expired() {
    let mut h = WorkbenchHandler::new(10, 1);
    h.update_session_state("user1", live_state("user1", "wb_expired_789", 8 * HOUR));
    let init = reply_text(r#"{"session_id": "wb_new_999", "output": "Workbench session initialized"}"#);
    assert_eq!(ensure(&mut h, "user1", &init, 10 * HOUR).unwrap(), "wb_new_999");
    assert_eq!(h.get_state("user1").unwrap().session_id, Some("wb_new_999".to_string()));
}

#[test]
fn test_extract_session_id_from_content_text() {
    assert_eq!(extract_session_id(&j(r#"{"content": [{"text": "{\"session_id\": \"wb_content_123\"}"}]}"#)), "wb_content_123");
}

#[test]
fn test_extract_session_id_from_direct_result() {
    assert_eq!(extract_session_id(&j(r#"{"session_id": "wb_direct_456"}"#)), "wb_direct_456");
}

#[test]
fn generated_session_ids_are_wb_and_a_v4_uuid() {
    let id = extract_session_id(&j(r#"{"output": "no id here"}"#));
    assert_eq!(id.len(), 39);
    let u: Vec<char> = id[3..].chars().collect();
    for (i, c) in u.iter().enumerate() {
        if [8, 13, 18, 23].contains(&i) {
            assert_eq!(*c, '-');
        } else {
            assert!(c.is_ascii_digit() || ('a'..='f').contains(c));
        }
    }
    assert_eq!(u[14], '4');
    assert!(['8', '9', 'a', 'b'].contains(&u[19]));
}

#[test]
fn test_extract_session_id_generates_if_missing() {
    assert!(extract_session_id(&j(r#"{"output": "Some output without session_id"}"#)).starts_with("wb_"));
}

#[test]
fn test_execute_via_workbench_success() {
    let mut h = WorkbenchHandler::new(10, 1);
    let init = reply_text(r#"{"session_id": "wb_exec_123", "output": "Workbench session initialized"}"#);
    let exec = reply_text(r#"{"output": "Execution result: 42"}"#);
    let r = run(&mut h, "user1", &init, &exec, 10 * HOUR).unwrap();
    assert!(r.success);
    assert!(r.output.contains("42"));
    assert!(r.error.is_none());
    assert!(h.get_state("user1").unwrap().last_output.is_some());
}

#[test]
fn test_execute_via_workbench_with_existing_session() {
    let mut h = WorkbenchHandler::new(10, 1);
    h.update_session_state("user1", live_state("user1", "wb_existing_789", 10 * HOUR));
    let exec = reply_text(r#"{"output": "Using existing session"}"#);
    let r = run(&mut h, "user1", &exec, &exec, 10 * HOUR + 5).unwrap();
    assert!(r.success);
    assert!(r.output.contains("existing session"));
}

#[test]
fn test_execute_via_workbench_error() {
    let mut h = WorkbenchHandler::new(10, 1);
    let error = Ok(JsonRpcResponse {
        jsonrpc: "2.0".to_string(),
        id: 1,
        result: None,
        error: Some(JsonRpcError { code: -32000, message: "Python execution error: NameError".to_string(), data: None }),
    });
    let r = run(&mut h, "user1", &error, &error, 10 * HOUR).unwrap();
    assert!(!r.success);
    assert!(r.output.contains("Python execution error"));
    assert!(r.error.is_some());
}

#[test]
fn test_session_isolation_per_user() {
    let mut h = WorkbenchHandler::new(10, 1);
    let init = reply_text(r#"{"session_id": "wb_session", "output": "Initialized"}"#);
    let session1 = ensure(&mut h, "user1", &init, 10 * HOUR).unwrap();
    let session2 = ensure(&mut h, "user2", &init, 10 * HOUR + 1).unwrap();
    let state1 = h.get_state("user1").unwrap();
    let state2 = h.get_state("user2").unwrap();
    assert_eq!(state1.user_id, "user1");
    assert_eq!(state2.user_id, "user2");
    assert_ne!(session1, session2);
}

#[test]
fn distinct_session_ids_are_padded_past_every_other_id() {
    let mut h = WorkbenchHandler::new(10, 1);
    h.update_session_state("user1", live_state("user1", "wb_session", 10 * HOUR));
    h.update_session_state("user2", live_state("user2", "wb_session_long", 10 * HOUR));
    let init = reply_text(r#"{"session_id": "wb_session"}"#);
    let id = ensure(&mut h, "user3", &init, 10 * HOUR).unwrap();
    assert_eq!(id, "wb_session______");
    let own = ensure(&mut h, "user4", &reply_text(r#"{"session_id": "wb_fresh"}"#), 10 * HOUR).unwrap();
    assert_eq!(own, "wb_fresh");
}

#[test]
fn session_setup_errors_are_reported() {
    let mut h = WorkbenchHandler::new(10, 1);
    let error = Ok(JsonRpcResponse {
        jsonrpc: "2.0".to_string(),
        id: 1,
        result: None,
        error: Some(JsonRpcError { code: -32000, message: "boom".to_string(), data: None }),
    });
    assert_eq!(ensure(&mut h, "user1", &error, 10 * HOUR), Err("Failed to create Workbench session: boom (code: -32000)".to_string()));
    assert_eq!(ensure(&mut h, "user1", &Err("down".to_string()), 10 * HOUR), Err("Failed to initialize Workbench session".to_string()));
    let r = run(&mut h, "user1", &error, &error, 10 * HOUR).unwrap();
    assert_eq!(r.output, "Workbench execution failed: boom");
    assert_eq!(r.error, Some("boom".to_string()));
    assert!(run(&mut h, "user1", &Err("down".to_string()), &error, 10 * HOUR).is_err());
    assert!(h.get_state("user1").map(|s| s.session_id.is_none()).unwrap_or(true));
}

#[test]
fn test_lru_eviction_when_max_sessions_reached() {
    let mut h = WorkbenchHandler::new(3, 1);
    let init = reply_text(r#"{"session_id": "wb_session", "output": "Initialized"}"#);
    ensure(&mut h, "user1", &init, 10 * HOUR).unwrap();
    ensure(&mut h, "user2", &init, 10 * HOUR + 10).unwrap();
    ensure(&mut h, "user3", &init, 10 * HOUR + 20).unwrap();
    assert_eq!(h.get_all_sessions().len(), 3);
    ensure(&mut h, "user4", &init, 10 * HOUR + 30).unwrap();
    let sessions = h.get_all_sessions();
    let users: Vec<&str> = sessions.iter().map(|(k, _)| k.as_str()).collect();
    assert_eq!(sessions.len(), 3);
    assert!(users.contains(&"user2"));
    assert!(users.contains(&"user3"));
    assert!(users.contains(&"user4"));
    assert!(!users.contains(&"user1"));
}

#[test]
fn test_session_cleanup_expired_sessions() {
    let mut h = WorkbenchHandler::new(10, 1);
    h.update_session_state("user_expired", live_state("user_expired", "wb_expired", 8 * HOUR));
    h.update_session_state("user_active", live_state("user_active", "wb_active", 10 * HOUR));
    assert_eq!(h.get_all_sessions().len(), 2);
    h.cleanup_expired_at(10 * HOUR);
    let sessions = h.get_all_sessions();
    assert_eq!(sessions.len(), 1);
    assert_eq!(sessions[0].0, "user_active");
}

#[test]
fn test_multi_step_workbench_operations() {
    let mut h = WorkbenchHandler::new(10, 1);
    let init = reply_text(r#"{"session_id": "wb_multi_step", "output": "Initialized"}"#);
    let r1 = run(&mut h, "user1", &init, &reply_text(r#"{"output": "Step 1 completed"}"#), 10 * HOUR).unwrap();
    assert!(r1.success);
    assert!(r1.output.contains("Step 1 completed"));
    let r2 = run(&mut h, "user1", &init, &reply_text(r#"{"output": "Step 2 completed"}"#), 10 * HOUR + 1).unwrap();
    assert!(r2.success);
    assert!(r2.output.contains("Step 2 completed"));
    let state = h.get_state("user1").unwrap();
    assert_eq!(state.session_id, Some("wb_multi_step".to_string()));
    assert!(state.last_output.is_some());
}

#[test]
fn test_session_touch_updates_last_accessed() {
    let mut h = WorkbenchHandler::new(10, 1);
    let mut state = live_state("user1", "wb_test", 10 * HOUR);
    state.last_accessed_at = Some(10 * HOUR - 30 * 60_000);
    h.update_session_state("user1", state);
    let initial = h.get_state("user1").unwrap().last_accessed_at.unwrap();
    let exec = reply_text(r#"{"output": "Test output"}"#);
    run(&mut h, "user1", &exec, &exec, 10 * HOUR + 10).unwrap();
    let updated = h.get_state("user1").unwrap().last_accessed_at.unwrap();
    assert!(updated > initial);
}

fn now_millis() -> i64 {
    chrono::Utc::now().timestamp_millis()
}

fn json_from_serde(v: &serde_json::Value) -> Json {
    match v {
        serde_json::Value::Null => Json::Null,
        serde_json::Value::Bool(b) => Json::Bool(*b),
        serde_json::Value::Number(n) => Json::Number(JsonNumber { as_i64: n.as_i64(), text: n.to_string() }),
        serde_json::Value::String(s) => Json::Str(s.clone()),
        serde_json::Value::Array(a) => Json::Array(a.iter().map(json_from_serde).collect()),
        serde_json::Value::Object(o) => Json::Object(o.iter().map(|(k, x)| (k.clone(), json_from_serde(x))).collect()),
    }
}

#[test]
fn session_persists_until_the_timeout() {
    let mut h = WorkbenchHandler::new(10, 1);
    let init = reply_text(r#"{"session_id": "wb_keep", "output": "Initialized"}"#);
    assert_eq!(ensure(&mut h, "user1", &init, 0).unwrap(), "wb_keep");
    let other = reply_text(r#"{"session_id": "wb_other", "output": "Initialized"}"#);
    assert_eq!(ensure(&mut h, "user1", &other, HOUR - 1).unwrap(), "wb_keep");
    assert_eq!(ensure(&mut h, "user1", &other, 3 * HOUR).unwrap(), "wb_other");
}
