use zeroclaw_composio::json::{Json, JsonNumber};
use zeroclaw_composio::observability::{sanitize_context, ComposioLogger, ExecutionLog, LatencyCollector, LogLevel};

fn j(text: &str) -> Json {
    json_from_serde(&serde_json::from_str::<serde_json::Value>(text).unwrap())
}

#[test]
fn test_log_level_filtering() {
    assert!(LogLevel::Error.should_log(LogLevel::Error));
    assert!(LogLevel::Error.should_log(LogLevel::Info));
    assert!(LogLevel::Error.should_log(LogLevel::Trace));
    assert!(!LogLevel::Trace.should_log(LogLevel::Error));
    assert!(!LogLevel::Debug.should_log(LogLevel::Info));
    assert!(LogLevel::Info.should_log(LogLevel::Info));
}

#[test]
fn test_sanitize_context_removes_api_keys() {
    let context = j(r#"{"api_key": "secret123", "user_id": "user_1", "data": "safe_data"}"#);
    let sanitized = json_to_serde(&sanitize_context(&context));
    assert_eq!(sanitized["api_key"], "[REDACTED]");
    assert_eq!(sanitized["user_id"], "user_1");
    assert_eq!(sanitized["data"], "safe_data");
}

#[test]
fn test_sanitize_context_removes_tokens() {
    let context = j(r#"{"access_token": "token123", "refresh_token": "refresh456", "bearer": "bearer789", "safe_field": "safe_value"}"#);
    let sanitized = json_to_serde(&sanitize_context(&context));
    assert_eq!(sanitized["access_token"], "[REDACTED]");
    assert_eq!(sanitized["refresh_token"], "[REDACTED]");
    assert_eq!(sanitized["bearer"], "[REDACTED]");
    assert_eq!(sanitized["safe_field"], "safe_value");
}

#[test]
fn test_sanitize_context_nested_objects() {
    let context = j(r#"{"outer": {"api_key": "secret", "inner": {"token": "token123", "safe": "value"}}, "safe_top": "safe"}"#);
    let sanitized = json_to_serde(&sanitize_context(&context));
    assert_eq!(sanitized["outer"]["api_key"], "[REDACTED]");
    assert_eq!(sanitized["outer"]["inner"]["token"], "[REDACTED]");
    assert_eq!(sanitized["outer"]["inner"]["safe"], "value");
    assert_eq!(sanitized["safe_top"], "safe");
}

#[test]
fn test_sanitize_context_arrays() {
    let context = j(r#"[{"api_key": "secret1", "data": "safe1"}, {"token": "secret2", "data": "safe2"}]"#);
    let sanitized = json_to_serde(&sanitize_context(&context));
    assert_eq!(sanitized[0]["api_key"], "[REDACTED]");
    assert_eq!(sanitized[0]["data"], "safe1");
    assert_eq!(sanitized[1]["token"], "[REDACTED]");
    assert_eq!(sanitized[1]["data"], "safe2");
}

#[test]
fn test_execution_log_builder() {
    let log = ExecutionLog::new(LogLevel::Info, "composio.test".to_string(), "test_event".to_string(), "user_123".to_string(), true)
        .with_tool_name("test_tool".to_string())
        .with_duration(150)
        .with_context(&j(r#"{"key": "value"}"#));
    assert_eq!(log.level, LogLevel::Info);
    assert_eq!(log.component, "composio.test");
    assert_eq!(log.event, "test_event");
    assert_eq!(log.user_id, "user_123");
    assert_eq!(log.tool_name, Some("test_tool".to_string()));
    assert_eq!(log.duration_ms, Some(150));
    assert!(log.success);
    assert!(log.context.is_some());
}

#[test]
fn test_composio_logger_tool_execution() {
    let mut logger = ComposioLogger::new(LogLevel::Info);
    let log = logger.log_tool_execution(
        "user_1".to_string(),
        "gmail_send_email".to_string(),
        200,
        true,
        Some(&j(r#"{"recipient": "test@example.com"}"#)),
    );
    assert_eq!(log.duration_ms, Some(200));
    assert_eq!(logger.metric_counts().tool_executions, 1);
}

#[test]
fn test_composio_logger_oauth_connection() {
    let mut logger = ComposioLogger::new(LogLevel::Info);
    let log = logger.log_oauth_connection("user_1".to_string(), "gmail".to_string(), true, Some(&j(r#"{"mode": "cli_auto_open"}"#)));
    assert!(log.success);
    assert_eq!(logger.metric_counts().oauth_connections, 1);
}

#[test]
fn test_composio_logger_cache_operation() {
    let mut logger = ComposioLogger::new(LogLevel::Debug);
    let hit = logger.log_cache_operation("user_1".to_string(), "tool_schema", true);
    let miss = logger.log_cache_operation("user_1".to_string(), "connection", false);
    assert_eq!(hit.event, "cache_hit");
    assert_eq!(miss.event, "cache_miss");
    assert_eq!(logger.metric_counts().cache_hits, 1);
    assert_eq!(logger.metric_counts().cache_misses, 1);
}

#[test]
fn test_composio_logger_security_check() {
    let logger = ComposioLogger::new(LogLevel::Debug);
    let allowed = logger.log_security_check("user_1".to_string(), "gmail_send_email", true, None);
    let denied = logger.log_security_check("user_1".to_string(), "blocked_tool", false, Some("toolkit not in allowlist".to_string()));
    assert!(allowed.success);
    assert!(!denied.success);
}

#[test]
fn test_composio_logger_error() {
    let mut logger = ComposioLogger::new(LogLevel::Error);
    let log = logger.log_error(
        "user_1".to_string(),
        "composio.mcp_client".to_string(),
        "connection timeout",
        Some(&j(r#"{"url": "https://mcp.example.com"}"#)),
    );
    assert_eq!(log.level, LogLevel::Error);
    assert!(!log.success);
}

#[test]
fn errors_pass_every_filter() {
    for f in [LogLevel::Error, LogLevel::Warn, LogLevel::Info, LogLevel::Debug, LogLevel::Trace] {
        assert!(LogLevel::Error.should_log(f));
    }
}

#[test]
fn latency_window_keeps_the_latest_samples() {
    let mut c = LatencyCollector::new(3);
    for v in [5u64, 1, 4, 2] {
        c.record(v);
    }
    assert_eq!(c.len(), 3);
    assert_eq!(c.sorted(), vec![1, 2, 4]);
}

fn json_from_serde(v: &serde_json::Value) -> Json {
    match v {
        serde_json::Value::Null => Json::Null,
        serde_json::Value::Bool(b) => Json::Bool(*b),
        serde_json::Value::Number(n) => Json::Number(JsonNumber { as_i64: n.as_i64(), text: n.to_string() }),
        serde_json::Value::String(s) => Json::Str(s.clone()),
        serde_json::Value::Array(a) => Json::Array(a.iter().map(json_from_serde).collect()),
        serde_json::Value::Object(o) => Json::Object(o.iter().map(|(k, x)| (k.clone(), json_from_serde(x))).collect()),
    }
}

fn json_to_serde(j: &Json) -> serde_json::Value {
    match j {
        Json::Null => serde_json::Value::Null,
        Json::Bool(b) => serde_json::Value::Bool(*b),
        Json::Number(n) => serde_json::from_str(&n.text).unwrap_or(serde_json::Value::Null),
        Json::Str(s) => serde_json::Value::String(s.clone()),
        Json::Array(a) => serde_json::Value::Array(a.iter().map(json_to_serde).collect()),
        Json::Object(o) => serde_json::Value::Object(o.iter().map(|(k, x)| (k.clone(), json_to_serde(x))).collect()),
    }
}

#[test]
fn sensitive_patterns_are_read_from_lowercase_text() {
    assert!(zeroclaw_composio::observability::sensitive_pattern_in("x_api_key"));
    assert!(!zeroclaw_composio::observability::sensitive_pattern_in("username"));
}

#[test]
fn sanitizing_twice_is_sanitizing_once() {
    let context = j(r#"{"api_key": "k", "nested": {"token": "t", "list": [{"password": "p", "ok": 1}]}, "plain": "x"}"#);
    let once = sanitize_context(&context);
    let twice = sanitize_context(&once);
    assert_eq!(json_to_serde(&once), json_to_serde(&twice));
    assert_eq!(json_to_serde(&once)["nested"]["list"][0]["password"], "[REDACTED]");
    assert_eq!(json_to_serde(&once)["nested"]["list"][0]["ok"], 1);
}
