use zeroclaw_composio::json::{Json, JsonNumber};
use zeroclaw_composio::composio_meta::{meta_parameters_schema, META_DESCRIPTION};
use zeroclaw_composio::composio_meta::{schema_source, SchemaSource, ToolCacheEntry};
use zeroclaw_composio::composio_meta::{
    arguments_missing, connection_step, execution_from_data, meta_extract_arguments, meta_search_params, parse_meta_search,
    schema_from_data, session_id_from, session_init_params, ConnectionStep, MetaState,
};

fn j(text: &str) -> Json {
    json_from_serde(&serde_json::from_str::<serde_json::Value>(text).unwrap())
}

#[test]
fn session_lives_thirty_minutes() {
    let mut s = MetaState::new();
    assert_eq!(s.valid_session_at(0), None);
    s.start_session_at("sess".to_string(), 1_000);
    assert_eq!(s.valid_session_at(1_000 + 1_799_999), Some("sess".to_string()));
    assert_eq!(s.valid_session_at(1_000 + 1_800_000), None);
}

#[test]
fn schema_cache_lives_an_hour() {
    let mut s = MetaState::new();
    s.cache_schema_at("T", j(r#"{"type": "object"}"#), 0);
    assert!(s.cached_schema_at("T", 3_599_999).is_some());
    assert!(s.cached_schema_at("T", 3_600_000).is_none());
    assert!(s.cached_schema_at("U", 0).is_none());
    s.cache_schema_at("T", j(r#"{"type": "string"}"#), 10);
    assert_eq!(json_to_serde(&s.cached_schema_at("T", 20).unwrap())["type"], "string");
}

#[test]
fn session_id_comes_from_the_data() {
    assert_eq!(session_id_from(Some(&j(r#"{"session_id": "s1"}"#))), Ok("s1".to_string()));
    assert_eq!(session_id_from(None), Err("No session_id in COMPOSIO_SEARCH_TOOLS response".to_string()));
    let p = json_to_serde(&session_init_params());
    assert_eq!(p["queries"][0]["use_case"], "initialize session");
    let q = json_to_serde(&meta_search_params("list files", "s1"));
    assert_eq!(q["session"]["id"], "s1");
}

#[test]
fn search_lists_tools_per_toolkit() {
    let data = j(r#"{"toolkits": [{"toolkit": "dropbox", "tools": [{"tool_slug": "DROPBOX_LIST_FOLDER", "description": "List", "schemaRef": "r1"}, {"description": "no slug"}]}, {"tools": [{"tool_slug": "X_Y"}]}]}"#);
    let tools = parse_meta_search(Some(&data), 5).unwrap();
    assert_eq!(tools.len(), 2);
    assert_eq!(tools[0].tool_slug, "DROPBOX_LIST_FOLDER");
    assert_eq!(tools[0].toolkit, "dropbox");
    assert_eq!(tools[0].schema_ref, Some("r1".to_string()));
    assert_eq!(tools[1].toolkit, "unknown");
    assert_eq!(tools[1].description, "");
    assert!(parse_meta_search(None, 0).is_err());
}

#[test]
fn schema_and_result_are_read_from_data() {
    let d = j(r#"{"schemas": [{"input_schema": {"type": "object"}}]}"#);
    assert_eq!(json_to_serde(&schema_from_data(Some(&d)).unwrap())["type"], "object");
    assert_eq!(schema_from_data(None).unwrap_err(), "No schema in response");
    let ok = j(r#"{"results": [{"data": 1}]}"#);
    assert_eq!(json_to_serde(&execution_from_data(Some(&ok)).unwrap())["data"], 1);
    let failed = j(r#"{"results": [{"error": null}]}"#);
    assert_eq!(execution_from_data(Some(&failed)).unwrap_err(), "Tool execution failed: Unknown error");
}

#[test]
fn redirect_url_calls_for_authorization() {
    let d = j(r#"{"redirect_url": "https://auth"}"#);
    match connection_step("gmail", Some(&d), false) {
        ConnectionStep::Authorize(m) => {
            assert!(m.starts_with("OAuth authorization required for GMAIL."));
            assert!(m.contains("https://auth"));
        },
        other => panic!("unexpected {:?}", other),
    }
    assert!(matches!(connection_step("gmail", Some(&d), true), ConnectionStep::Onboard));
    assert!(matches!(connection_step("gmail", None, false), ConnectionStep::Connected));
}

#[test]
fn simple_patterns_give_arguments() {
    let list = json_to_serde(&meta_extract_arguments("list my Dropbox folder /Documents please", "DROPBOX_LIST_FOLDER", &j("{}")));
    assert_eq!(list["path"], "/Documents");
    assert_eq!(list["recursive"], false);
    assert_eq!(list["limit"], 2000);
    let root = json_to_serde(&meta_extract_arguments("list my folder", "DROPBOX_LIST_FOLDER", &j("{}")));
    assert_eq!(root["path"], "");
    let mail = json_to_serde(&meta_extract_arguments("send email to john@example.com subject \"Hi\"", "GMAIL_SEND_EMAIL", &j("{}")));
    assert_eq!(mail["to"], "john@example.com");
    assert_eq!(mail["subject"], "Hi");
    let gh = json_to_serde(&meta_extract_arguments("create issue in repo my-repo", "GITHUB_CREATE_ISSUE", &j("{}")));
    assert_eq!(gh["repo"], "my-repo");
    let defaults = meta_extract_arguments("whatever", "X", &j(r#"{"properties": {"a": {"default": 3}, "b": {}}}"#));
    assert_eq!(json_to_serde(&defaults)["a"], 3);
    let none = meta_extract_arguments("whatever", "X", &j("{}"));
    assert!(arguments_missing(&none));
    assert!(!arguments_missing(&defaults));
}

#[test]
fn schema_source_prefers_the_inline_schema() {
    let entry = |schema: Option<Json>, schema_ref: Option<&str>| ToolCacheEntry {
        tool_slug: "T".to_string(),
        description: String::new(),
        input_schema: schema,
        schema_ref: schema_ref.map(|s| s.to_string()),
        toolkit: "t".to_string(),
        cached_at: 0,
    };
    match schema_source(&entry(Some(j(r#"{"type": "object"}"#)), Some("ref"))) {
        SchemaSource::Inline(s) => assert_eq!(json_to_serde(&s)["type"], "object"),
        other => panic!("unexpected {:?}", other),
    }
    assert!(matches!(schema_source(&entry(None, Some("ref"))), SchemaSource::Fetch));
    assert!(matches!(schema_source(&entry(None, None)), SchemaSource::Empty));
}

#[test]
fn meta_schema_requires_the_query() {
    let v = json_to_serde(&meta_parameters_schema());
    assert!(META_DESCRIPTION.contains("Composio"));
    assert_eq!(v["required"][0], "query");
    assert_eq!(v["properties"]["query"]["type"], "string");
    assert_eq!(v["properties"]["arguments"]["type"], "object");
    assert_eq!(v["properties"]["arguments"]["additionalProperties"], true);
}

fn json_from_serde(v: &serde_json::Value) -> Json {
    match v {
        serde_json::Value::Null => Json::Null,
        serde_json::Value::Bool(b) => Json::Bool(*b),
        serde_json::Value::Number(n) => Json::Number(JsonNumber { as_i64: n.as_i64(), text: n.to_string() }),
        serde_json::Value::String(s) => Json::Str(s.clone()),
        serde_json::Value::Array(a) => Json::Array(a.iter().map(json_from_serde).collect()),
        serde_json::Value::Object(o) => Json::Object(o.iter().map(|(k, x)| (k.clone(), json_from_serde(x))).collect()),
    }
}

fn json_to_serde(j: &Json) -> serde_json::Value {
    match j {
        Json::Null => serde_json::Value::Null,
        Json::Bool(b) => serde_json::Value::Bool(*b),
        Json::Number(n) => serde_json::from_str(&n.text).unwrap_or(serde_json::Value::Null),
        Json::Str(s) => serde_json::Value::String(s.clone()),
        Json::Array(a) => serde_json::Value::Array(a.iter().map(json_to_serde).collect()),
        Json::Object(o) => serde_json::Value::Object(o.iter().map(|(k, x)| (k.clone(), json_to_serde(x))).collect()),
    }
}
