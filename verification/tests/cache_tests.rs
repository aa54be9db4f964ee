use zeroclaw_composio::json::{Json, JsonNumber};
use zeroclaw_composio::cache::{make_cache_key, ConnectionCache, ConnectionInfo, ConnectionStatus, ToolListCache, ToolSchemaCache};

fn j(text: &str) -> Json {
    json_from_serde(&serde_json::from_str::<serde_json::Value>(text).unwrap())
}

fn info(toolkit: &str, id: &str) -> ConnectionInfo {
    ConnectionInfo { toolkit: toolkit.to_string(), connected_account_id: id.to_string(), status: ConnectionStatus::Active, created_at: 0 }
}

#[test]
fn connection_is_read_back_until_it_expires() {
    let mut cache = ConnectionCache::new(100);
    cache.insert_at("gmail", "user1", info("gmail", "acc_123"), 3_600_000, 1_000);
    assert_eq!(cache.get_at("gmail", "user1", 2_000).unwrap().connected_account_id, "acc_123");
    assert!(cache.get_at("gmail", "user1", 1_000 + 3_600_000).is_none());
    assert!(cache.get_at("gmail", "user2", 2_000).is_none());
}

#[test]
fn cache_test_connection_cache_eviction() {
    let mut cache = ConnectionCache::new(3);
    for i in 0..4i64 {
        let name = format!("toolkit_{}", i);
        cache.insert_at(&name, "user1", info(&name, &format!("acc_{}", i)), 3_600_000, 1_000 + i);
    }
    assert!(cache.get_at("toolkit_0", "user1", 2_000).is_none());
    assert!(cache.get_at("toolkit_3", "user1", 2_000).is_some());
}

#[test]
fn removing_and_clearing_a_user() {
    let mut cache = ConnectionCache::new(10);
    cache.insert_at("gmail", "u1", info("gmail", "a"), 60_000, 0);
    cache.insert_at("slack", "u1", info("slack", "b"), 60_000, 0);
    cache.insert_at("gmail", "u2", info("gmail", "c"), 60_000, 0);
    cache.remove("gmail", "u1");
    assert!(cache.get_at("gmail", "u1", 1).is_none());
    cache.clear_user("u1");
    assert!(cache.get_at("slack", "u1", 1).is_none());
    assert!(cache.get_at("gmail", "u2", 1).is_some());
}

#[test]
fn schema_cache_returns_the_schema() {
    let mut cache = ToolSchemaCache::new();
    let schema = j(r#"{"type": "object", "properties": {"query": {"type": "string"}}}"#);
    cache.insert_at("GMAIL_SEND_EMAIL", schema, 3_600_000, 0);
    let cached = cache.get_at("GMAIL_SEND_EMAIL", 10).unwrap();
    assert_eq!(json_to_serde(&cached)["properties"]["query"]["type"], "string");
}

#[test]
fn tool_list_cache_returns_the_list() {
    let mut cache = ToolListCache::new();
    let tools = vec!["GMAIL_SEND_EMAIL".to_string(), "SLACK_SEND_MESSAGE".to_string()];
    cache.insert_at(tools.clone(), 3_600_000, 0);
    assert_eq!(cache.get_at(10), Some(tools));
    assert_eq!(cache.get_at(3_600_000), None);
}

#[test]
fn cache_keys_name_user_and_toolkit() {
    assert_eq!(make_cache_key("gmail", "u1"), "gmail::u1");
}

#[test]
fn test_connection_cache_basic() {
    let mut cache = ConnectionCache::new(100);
    cache.insert("gmail", "user1", info("gmail", "acc_123"), 3_600_000);
    let cached = cache.get("gmail", "user1");
    assert!(cached.is_some());
    assert_eq!(cached.unwrap().connected_account_id, "acc_123");
}

#[test]
fn test_connection_cache_expiry() {
    let mut cache = ConnectionCache::new(100);
    cache.insert_at("gmail", "user1", info("gmail", "acc_123"), 1, 1_000);
    assert!(cache.get_at("gmail", "user1", 1_010).is_none());
}

#[test]
fn test_tool_schema_cache() {
    let mut cache = ToolSchemaCache::new();
    let schema = r#"{"type": "object", "properties": {"query": {"type": "string"}}}"#;
    cache.insert("GMAIL_SEND_EMAIL", j(schema), 3_600_000);
    let cached = cache.get("GMAIL_SEND_EMAIL");
    assert!(cached.is_some());
    assert_eq!(json_to_serde(&cached.unwrap()), serde_json::from_str::<serde_json::Value>(schema).unwrap());
}

#[test]
fn test_tool_list_cache() {
    let mut cache = ToolListCache::new();
    let tools = vec!["GMAIL_SEND_EMAIL".to_string(), "SLACK_SEND_MESSAGE".to_string()];
    cache.insert(tools.clone(), 3_600_000);
    let cached = cache.get();
    assert!(cached.is_some());
    assert_eq!(cached.unwrap(), tools);
}

#[test]
fn test_connection_cache_ttl_expiry() {
    let mut cache = ConnectionCache::new(100);
    cache.insert_at("gmail", "user1", info("gmail", "acc_123"), 10, 1_000);
    assert!(cache.get_at("gmail", "user1", 1_000).is_some());
    assert!(cache.get_at("gmail", "user1", 1_020).is_none());
}

#[test]
fn test_connection_cache_remove() {
    let mut cache = ConnectionCache::new(100);
    cache.insert("gmail", "user1", info("gmail", "acc_123"), 3_600_000);
    assert!(cache.get("gmail", "user1").is_some());
    cache.remove("gmail", "user1");
    assert!(cache.get("gmail", "user1").is_none());
}

#[test]
fn test_connection_cache_clear_user() {
    let mut cache = ConnectionCache::new(100);
    for toolkit in ["gmail", "slack", "github"] {
        cache.insert(toolkit, "user1", info(toolkit, &format!("acc_{}", toolkit)), 3_600_000);
    }
    cache.insert("gmail", "user2", info("gmail", "acc_user2"), 3_600_000);
    cache.clear_user("user1");
    assert!(cache.get("gmail", "user1").is_none());
    assert!(cache.get("slack", "user1").is_none());
    assert!(cache.get("github", "user1").is_none());
    assert!(cache.get("gmail", "user2").is_some());
}

#[test]
fn meta_tools_test_connection_cache_eviction() {
    let mut cache = ConnectionCache::new(100);
    for i in 0..101i64 {
        let name = format!("toolkit_{}", i);
        cache.insert_at(&name, "user1", info(&name, &format!("acc_{}", i)), 3_600_000, 1_000 + i);
    }
    assert!(cache.get_at("toolkit_0", "user1", 2_000).is_none());
    assert!(cache.get_at("toolkit_100", "user1", 2_000).is_some());
}

fn json_from_serde(v: &serde_json::Value) -> Json {
    match v {
        serde_json::Value::Null => Json::Null,
        serde_json::Value::Bool(b) => Json::Bool(*b),
        serde_json::Value::Number(n) => Json::Number(JsonNumber { as_i64: n.as_i64(), text: n.to_string() }),
        serde_json::Value::String(s) => Json::Str(s.clone()),
        serde_json::Value::Array(a) => Json::Array(a.iter().map(json_from_serde).collect()),
        serde_json::Value::Object(o) => Json::Object(o.iter().map(|(k, x)| (k.clone(), json_from_serde(x))).collect()),
    }
}

fn json_to_serde(j: &Json) -> serde_json::Value {
    match j {
        Json::Null => serde_json::Value::Null,
        Json::Bool(b) => serde_json::Value::Bool(*b),
        Json::Number(n) => serde_json::from_str(&n.text).unwrap_or(serde_json::Value::Null),
        Json::Str(s) => serde_json::Value::String(s.clone()),
        Json::Array(a) => serde_json::Value::Array(a.iter().map(json_to_serde).collect()),
        Json::Object(o) => serde_json::Value::Object(o.iter().map(|(k, x)| (k.clone(), json_to_serde(x))).collect()),
    }
}

#[test]
fn a_user_never_holds_more_than_the_limit() {
    let mut cache = ConnectionCache::new(2);
    for i in 0..5i64 {
        let name = format!("toolkit_{}", i);
        cache.insert_at(&name, "user1", info(&name, "acc"), 3_600_000, i);
    }
    let held = (0..5).filter(|i| cache.get_at(&format!("toolkit_{}", i), "user1", 10).is_some()).count();
    assert_eq!(held, 2);
    assert!(cache.get_at("toolkit_4", "user1", 10).is_some());
    assert!(cache.get_at("toolkit_3", "user1", 10).is_some());
}

#[test]
fn a_zero_limit_keeps_one_connection_per_user() {
    let mut cache = ConnectionCache::new(0);
    cache.insert_at("gmail", "user1", info("gmail", "a"), 60_000, 0);
    cache.insert_at("slack", "user1", info("slack", "b"), 60_000, 1);
    cache.insert_at("gmail", "user2", info("gmail", "c"), 60_000, 2);
    assert!(cache.get_at("gmail", "user1", 10).is_none());
    assert_eq!(cache.get_at("slack", "user1", 10).unwrap().connected_account_id, "b");
    assert_eq!(cache.get_at("gmail", "user2", 10).unwrap().connected_account_id, "c");
}

#[test]
fn every_user_stays_within_the_limit() {
    let mut cache = ConnectionCache::new(2);
    for i in 0..5i64 {
        for user in ["u1", "u2"] {
            let name = format!("tk{}", i);
            cache.insert_at(&name, user, info(&name, "a"), 60_000, i);
        }
    }
    for user in ["u1", "u2"] {
        let held = (0..5).filter(|i| cache.get_at(&format!("tk{}", i), user, 10).is_some()).count();
        assert_eq!(held, 2);
    }
}
