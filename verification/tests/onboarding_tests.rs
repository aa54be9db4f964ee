use zeroclaw_composio::json::{Json, JsonNumber};
use zeroclaw_composio::onboarding::{connect_link_from_reply, connection_from_reply, extract_link_from_parsed};
use zeroclaw_composio::cache::{ConnectionInfo, ConnectionStatus};
use zeroclaw_composio::onboarding::{
    after_callback, callback_step, callback_url, extract_connect_link_from_response, extract_link_from_text, parse_connection_info,
    poll_step, redirected_link, AfterCallback, CallbackDecision, OAuthFlow, OnboardingHandler, OnboardingMode, PollDecision,
};

fn j(text: &str) -> Json {
    json_from_serde(&serde_json::from_str::<serde_json::Value>(text).unwrap())
}

fn info() -> ConnectionInfo {
    ConnectionInfo { toolkit: "gmail".to_string(), connected_account_id: "acc".to_string(), status: ConnectionStatus::Active, created_at: 0 }
}

#[test]
fn link_is_found_in_text() {
    assert_eq!(
        extract_link_from_text("Open https://connect.composio.dev/link/abc to connect"),
        Some("https://connect.composio.dev/link/abc".to_string())
    );
    assert_eq!(extract_link_from_text("no link"), None);
}

#[test]
fn connect_link_missing_is_an_error() {
    let resp = j(r#"{"content": [{"text": "nothing"}]}"#);
    assert!(extract_connect_link_from_response(&resp, "gmail").is_err());
}

#[test]
fn polling_waits_reports_and_times_out() {
    assert!(matches!(poll_step(1, Ok(None)), PollDecision::Wait { progress: None }));
    assert!(matches!(poll_step(6, Ok(None)), PollDecision::Wait { progress: Some((1, 9)) }));
    assert!(matches!(poll_step(3, Ok(Some(info()))), PollDecision::Completed(_)));
    match poll_step(60, Err("x".to_string())) {
        PollDecision::TimedOut(OAuthFlow::Failed { error }) => assert_eq!(error, "OAuth authentication timed out after 10 minutes"),
        _ => panic!("expected a timeout"),
    }
}

#[test]
fn callback_waits_ten_minutes() {
    assert!(matches!(callback_step(0, true), CallbackDecision::CheckConnection));
    assert!(matches!(callback_step(1_000, false), CallbackDecision::Wait));
    assert!(matches!(callback_step(600_000, false), CallbackDecision::TimedOut(_)));
    assert!(matches!(after_callback(Ok(None)), AfterCallback::Poll));
    assert!(matches!(after_callback(Ok(Some(info()))), AfterCallback::Done(OAuthFlow::Completed(_))));
}

#[test]
fn callback_url_and_redirect() {
    assert_eq!(callback_url(8080), "http://localhost:8080/callback");
    assert_eq!(
        redirected_link("https://a/b", "http://localhost:8080/callback"),
        "https://a/b?redirect_uri=http%3A%2F%2Flocalhost%3A8080%2Fcallback"
    );
    assert_eq!(redirected_link("https://a/b?x=1", "c"), "https://a/b?x=1&redirect_uri=c");
}

#[test]
fn handler_keeps_mode_and_user() {
    let h = OnboardingHandler::new(OnboardingMode::WebCallback, "user_9".to_string());
    assert_eq!(h.mode(), OnboardingMode::WebCallback);
    assert_eq!(h.effective_user_id(), "user_9");
}

#[test]
fn connection_info_is_read_for_the_toolkit() {
    let data = j(r#"{"data": {"results": {"gmail": {"status": "active", "connected_account_id": "ca_1"}}}}"#);
    let parsed = parse_connection_info(&data, "gmail", 5).unwrap();
    assert_eq!(parsed.connected_account_id, "ca_1");
    assert_eq!(parsed.status, ConnectionStatus::Active);
    assert_eq!(parsed.created_at, 5);
    let pending = j(r#"{"data": {"results": {"gmail": {"redirect_url": "https://x"}}}}"#);
    assert!(parse_connection_info(&pending, "gmail", 5).is_none());
}

fn reply(text: &str) -> Result<Json, String> {
    let quoted = serde_json::to_string(text).unwrap();
    Ok(j(&format!(r#"{{"result": {{"content": [{{"text": {}}}]}}}}"#, quoted)))
}

#[test]
fn test_generate_connect_link_success() {
    let r = reply(r#"{"data": {"results": {"gmail": {"instruction": "Please visit https://connect.composio.dev/link/test123 to authenticate"}}}}"#);
    let now = 1_700_000_000_000;
    let link = connect_link_from_reply(&r, "gmail", now).unwrap();
    assert_eq!(link.toolkit, "gmail");
    assert!(link.url.contains("connect.composio.dev"));
    assert!(link.expires_at > now);
}

#[test]
fn test_check_connection_active() {
    let r = reply(r#"{"data": {"results": {"gmail": {"connected_account_id": "acc_123", "status": "active"}}}}"#);
    let found = connection_from_reply(&r, "gmail", 0).unwrap();
    let found = found.unwrap();
    assert_eq!(found.toolkit, "gmail");
    assert_eq!(found.connected_account_id, "acc_123");
}

#[test]
fn test_check_connection_oauth_required() {
    let r = reply(r#"{"data": {"results": {"gmail": {"instruction": "OAuth required"}}}}"#);
    assert!(connection_from_reply(&r, "gmail", 0).unwrap().is_none());
}

#[test]
fn test_initiate_oauth_web_callback_mode() {
    let r = reply(r#"{"data": {"results": {"gmail": {"redirect_url": "https://connect.composio.dev/link/test456"}}}}"#);
    let now = 1_700_000_000_000;
    let link = connect_link_from_reply(&r, "gmail", now).unwrap();
    let h = OnboardingHandler::new(OnboardingMode::WebCallback, "test_user".to_string());
    match h.handle_web_callback(&link) {
        OAuthFlow::Pending { connect_link, expires_at } => {
            assert!(connect_link.contains("connect.composio.dev"));
            assert!(expires_at > now);
        },
        _ => panic!("Expected Pending status for WebCallback mode"),
    }
}

#[test]
fn test_extract_link_from_text_various_formats() {
    assert_eq!(
        extract_link_from_text("Please visit https://connect.composio.dev/link/abc123 to authenticate"),
        Some("https://connect.composio.dev/link/abc123".to_string())
    );
    assert_eq!(
        extract_link_from_text("OAuth URL: https://backend.composio.dev/oauth/xyz789\nExpires in 10 minutes"),
        Some("https://backend.composio.dev/oauth/xyz789".to_string())
    );
    let link3 = extract_link_from_text("Go to https://app.composio.dev/connect?token=def456");
    assert!(link3.unwrap().starts_with("https://app.composio.dev/"));
    assert!(extract_link_from_text("No OAuth link here").is_none());
}

#[test]
fn test_extract_link_from_parsed_various_formats() {
    let data1 = j(r#"{"data": {"results": {"gmail": {"instruction": "Visit https://connect.composio.dev/link/test1"}}}}"#);
    assert!(extract_link_from_parsed(&data1, "gmail").unwrap().contains("connect.composio.dev"));
    let data2 = j(r#"{"data": {"results": {"slack": {"redirect_url": "https://backend.composio.dev/oauth/test2"}}}}"#);
    assert_eq!(extract_link_from_parsed(&data2, "slack"), Some("https://backend.composio.dev/oauth/test2".to_string()));
    let data3 = j(r#"{"redirect_url": "https://app.composio.dev/test3"}"#);
    assert_eq!(extract_link_from_parsed(&data3, "github"), Some("https://app.composio.dev/test3".to_string()));
    let data4 = j(r#"{"data": {"results": {"notion": {"status": "active"}}}}"#);
    assert!(extract_link_from_parsed(&data4, "notion").is_none());
}

#[test]
fn test_parse_connection_info_various_statuses() {
    let data1 = j(r#"{"data": {"results": {"gmail": {"connected_account_id": "acc_active", "status": "active"}}}}"#);
    let conn1 = parse_connection_info(&data1, "gmail", 0).unwrap();
    assert_eq!(conn1.connected_account_id, "acc_active");
    assert!(matches!(conn1.status, ConnectionStatus::Active));
    let data2 = j(r#"{"data": {"results": {"slack": {"connected_account_id": "acc_expired", "status": "expired"}}}}"#);
    assert!(matches!(parse_connection_info(&data2, "slack", 0).unwrap().status, ConnectionStatus::Expired));
    let data3 = j(r#"{"data": {"results": {"github": {"connected_account_id": "acc_revoked", "status": "revoked"}}}}"#);
    assert!(matches!(parse_connection_info(&data3, "github", 0).unwrap().status, ConnectionStatus::Revoked));
    let data4 = j(r#"{"data": {"results": {"notion": {"instruction": "OAuth required"}}}}"#);
    assert!(parse_connection_info(&data4, "notion", 0).is_none());
    let data5 = j(r#"{"data": {"results": {"dropbox": {"redirect_url": "https://connect.composio.dev/link/test"}}}}"#);
    assert!(parse_connection_info(&data5, "dropbox", 0).is_none());
}

#[test]
fn test_connect_link_expiry_time() {
    let r = reply(r#"{"data": {"results": {"gmail": {"redirect_url": "https://connect.composio.dev/link/expiry_test"}}}}"#);
    let now = 1_700_000_000_000;
    let link = connect_link_from_reply(&r, "gmail", now).unwrap();
    assert_eq!(link.expires_at, now + 10 * 60 * 1000);
}

#[test]
fn test_effective_user_id_prefers_user_id() {
    let h = OnboardingHandler::new(OnboardingMode::WebCallback, "modern_user".to_string());
    assert_eq!(h.effective_user_id(), "modern_user");
}

fn json_from_serde(v: &serde_json::Value) -> Json {
    match v {
        serde_json::Value::Null => Json::Null,
        serde_json::Value::Bool(b) => Json::Bool(*b),
        serde_json::Value::Number(n) => Json::Number(JsonNumber { as_i64: n.as_i64(), text: n.to_string() }),
        serde_json::Value::String(s) => Json::Str(s.clone()),
        serde_json::Value::Array(a) => Json::Array(a.iter().map(json_from_serde).collect()),
        serde_json::Value::Object(o) => Json::Object(o.iter().map(|(k, x)| (k.clone(), json_from_serde(x))).collect()),
    }
}
