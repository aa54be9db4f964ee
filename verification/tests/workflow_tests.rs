use zeroclaw_composio::composio_meta::ToolCacheEntry;
use zeroclaw_composio::composio_nl::{ConnectionStatus, DiscoveredTool};
use zeroclaw_composio::json::{Json, JsonNumber};
use zeroclaw_composio::meta_workflow::{meta_execute_step, MetaAction, MetaEvent, MetaRun};
use zeroclaw_composio::nl_workflow::{nl_execute_step, NlAction, NlEvent, NlRun};

fn json_from_serde(v: &serde_json::Value) -> Json {
    match v {
        serde_json::Value::Null => Json::Null,
        serde_json::Value::Bool(b) => Json::Bool(*b),
        serde_json::Value::Number(n) => Json::Number(JsonNumber { as_i64: n.as_i64(), text: n.to_string() }),
        serde_json::Value::String(s) => Json::Str(s.clone()),
        serde_json::Value::Array(a) => Json::Array(a.iter().map(json_from_serde).collect()),
        serde_json::Value::Object(o) => Json::Object(o.iter().map(|(k, x)| (k.clone(), json_from_serde(x))).collect()),
    }
}

fn json_to_serde(j: &Json) -> serde_json::Value {
    match j {
        Json::Null => serde_json::Value::Null,
        Json::Bool(b) => serde_json::Value::Bool(*b),
        Json::Number(n) => serde_json::from_str(&n.text).unwrap_or(serde_json::Value::Null),
        Json::Str(s) => serde_json::Value::String(s.clone()),
        Json::Array(a) => serde_json::Value::Array(a.iter().map(json_to_serde).collect()),
        Json::Object(o) => serde_json::Value::Object(o.iter().map(|(k, x)| (k.clone(), json_to_serde(x))).collect()),
    }
}

fn j(text: &str) -> Json {
    json_from_serde(&serde_json::from_str::<serde_json::Value>(text).unwrap())
}

fn gmail_tool() -> DiscoveredTool {
    DiscoveredTool {
        tool_slug: "GMAIL_SEND_EMAIL".to_string(),
        description: "Send an email".to_string(),
        toolkit: "gmail".to_string(),
        use_case: "send email".to_string(),
        input_schema: None,
        schema_ref: None,
    }
}

fn nl_start(args: &str, policy: bool) -> (NlRun, NlAction) {
    nl_execute_step(NlRun::Start, NlEvent::Start { allowed: Ok(()), args: j(args), toolkit_policy: policy })
}

#[test]
fn nl_run_refused_by_policy_finishes_with_the_refusal() {
    let (run, action) = nl_execute_step(NlRun::Start, NlEvent::Start { allowed: Err("blocked".to_string()), args: j("{}"), toolkit_policy: false });
    assert!(matches!(run, NlRun::Done));
    match action {
        NlAction::Finish(r) => {
            assert!(!r.success);
            assert_eq!(r.output, "");
            assert_eq!(r.error, Some("blocked".to_string()));
        },
        _ => panic!("expected a finished run"),
    }
}

#[test]
fn nl_run_without_query_fails() {
    match nl_start(r#"{"arguments": {}}"#, false).1 {
        NlAction::Fail(e) => assert_eq!(e, "Missing 'query' parameter"),
        _ => panic!("expected a failure"),
    }
}

#[test]
fn nl_run_sends_office_edits_to_the_workbench() {
    match nl_start(r#"{"query": "edit report.xlsx and add a row"}"#, false).1 {
        NlAction::RunOfficeWorkbench(q) => assert_eq!(q, "edit report.xlsx and add a row"),
        _ => panic!("expected the workbench"),
    }
}

#[test]
fn nl_run_full_workflow_merges_provided_arguments() {
    let (run, action) = nl_start(r#"{"query": "send email to bob", "arguments": {"to": "alice@example.com"}, "user_id": "u7"}"#, true);
    match action {
        NlAction::Search(q) => assert_eq!(q, "send email to bob"),
        _ => panic!("expected a search"),
    }
    let (run, action) = nl_execute_step(run, NlEvent::Searched(Ok(vec![gmail_tool()])));
    match action {
        NlAction::CheckToolkit(toolkit, user) => {
            assert_eq!(toolkit, "gmail");
            assert_eq!(user, "u7");
        },
        _ => panic!("expected the toolkit policy"),
    }
    let (run, action) = nl_execute_step(run, NlEvent::ToolkitChecked(Ok(())));
    match action {
        NlAction::CheckConnection(toolkit) => assert_eq!(toolkit, "gmail"),
        _ => panic!("expected a connection check"),
    }
    let (run, action) = nl_execute_step(run, NlEvent::Connection(Ok(ConnectionStatus::Connected)));
    match action {
        NlAction::Extract(q, tool) => {
            assert_eq!(q, "send email to bob");
            assert_eq!(tool.tool_slug, "GMAIL_SEND_EMAIL");
        },
        _ => panic!("expected an extraction"),
    }
    let (run, action) = nl_execute_step(run, NlEvent::Extracted(j(r#"{"to": "bob@example.com", "subject": "hi"}"#)));
    match action {
        NlAction::Execute(slug, arguments) => {
            assert_eq!(slug, "GMAIL_SEND_EMAIL");
            assert_eq!(json_to_serde(&arguments), serde_json::from_str::<serde_json::Value>(r#"{"to": "alice@example.com", "subject": "hi"}"#).unwrap());
        },
        _ => panic!("expected an execution"),
    }
    let (run, action) = nl_execute_step(run, NlEvent::Executed(Ok(j(r#"{"ok": true}"#))));
    assert!(matches!(run, NlRun::Done));
    match action {
        NlAction::Finish(r) => {
            assert!(r.success);
            assert_eq!(r.output, "{\n  \"ok\": true\n}");
            assert!(r.error.is_none());
        },
        _ => panic!("expected a finished run"),
    }
}

#[test]
fn nl_run_reports_search_failures_and_empty_results() {
    let (run, _) = nl_start(r#"{"query": "do a thing"}"#, false);
    match nl_execute_step(run, NlEvent::Searched(Err("down".to_string()))).1 {
        NlAction::Finish(r) => assert_eq!(r.error, Some("Failed to search tools: down".to_string())),
        _ => panic!("expected a finished run"),
    }
    let (run, _) = nl_start(r#"{"query": "do a thing"}"#, false);
    match nl_execute_step(run, NlEvent::Searched(Ok(Vec::new()))).1 {
        NlAction::Finish(r) => assert_eq!(
            r.error,
            Some("No tools found for query: 'do a thing'. Try rephrasing or check if the app is supported by Composio.".to_string())
        ),
        _ => panic!("expected a finished run"),
    }
}

#[test]
fn nl_run_with_a_slug_fetches_its_schema_and_skips_the_policy_when_none() {
    let (run, action) = nl_start(r#"{"query": "send it", "tool_slug": "SLACK_SEND_MESSAGE"}"#, false);
    match action {
        NlAction::FetchSchemas(slug) => assert_eq!(slug, "SLACK_SEND_MESSAGE"),
        _ => panic!("expected a schema fetch"),
    }
    let schemas = vec![("SLACK_SEND_MESSAGE".to_string(), j(r#"{"type": "object"}"#))];
    let (run, action) = nl_execute_step(run, NlEvent::Schemas(schemas));
    match action {
        NlAction::CheckConnection(toolkit) => assert_eq!(toolkit, "slack"),
        _ => panic!("expected a connection check"),
    }
    match nl_execute_step(run, NlEvent::Connection(Ok(ConnectionStatus::NeedsOAuth("https://auth".to_string())))).1 {
        NlAction::Finish(r) => {
            assert!(!r.success);
            assert!(r.output.contains("SLACK OAuth Authorization Required"));
            assert!(r.output.contains("https://auth"));
            assert!(r.error.is_none());
        },
        _ => panic!("expected a finished run"),
    }
}

#[test]
fn nl_run_denied_toolkit_and_failed_connection_finish() {
    let (run, _) = nl_start(r#"{"query": "send email"}"#, true);
    let (run, action) = nl_execute_step(run, NlEvent::Searched(Ok(vec![gmail_tool()])));
    match action {
        NlAction::CheckToolkit(_, user) => assert_eq!(user, "default_user"),
        _ => panic!("expected the toolkit policy"),
    }
    match nl_execute_step(run, NlEvent::ToolkitChecked(Err("not allowed".to_string()))).1 {
        NlAction::Finish(r) => assert_eq!(r.error, Some("Security policy denied execution: not allowed".to_string())),
        _ => panic!("expected a finished run"),
    }
    let (run, _) = nl_start(r#"{"query": "send email"}"#, false);
    let (run, _) = nl_execute_step(run, NlEvent::Searched(Ok(vec![gmail_tool()])));
    match nl_execute_step(run, NlEvent::Connection(Err("down".to_string()))).1 {
        NlAction::Finish(r) => assert_eq!(r.error, Some("Failed to check connection: down".to_string())),
        _ => panic!("expected a finished run"),
    }
}

#[test]
fn nl_run_reports_execution_failures() {
    match nl_execute_step(NlRun::Execution, NlEvent::Executed(Err("boom".to_string()))).1 {
        NlAction::Finish(r) => {
            assert!(!r.success);
            assert_eq!(r.error, Some("Tool execution failed: boom".to_string()));
        },
        _ => panic!("expected a finished run"),
    }
    match nl_execute_step(NlRun::Done, NlEvent::Executed(Err("boom".to_string()))).1 {
        NlAction::Fail(e) => assert_eq!(e, "The run does not expect this event"),
        _ => panic!("expected a failure"),
    }
}

fn entry(slug: &str, schema: Option<&str>, schema_ref: Option<&str>) -> ToolCacheEntry {
    ToolCacheEntry {
        tool_slug: slug.to_string(),
        description: "Lists a folder".to_string(),
        input_schema: schema.map(j),
        schema_ref: schema_ref.map(|s| s.to_string()),
        toolkit: "dropbox".to_string(),
        cached_at: 0,
    }
}

#[test]
fn meta_run_full_workflow() {
    let (run, action) = meta_execute_step(MetaRun::Start, MetaEvent::Start { allowed: Ok(()), args: j(r#"{"query": "list folder /Documents"}"#) });
    assert!(matches!(action, MetaAction::EnsureSession));
    let (run, action) = meta_execute_step(run, MetaEvent::Session(Ok("s1".to_string())));
    match action {
        MetaAction::Search(q, s) => {
            assert_eq!(q, "list folder /Documents");
            assert_eq!(s, "s1");
        },
        _ => panic!("expected a search"),
    }
    let (run, action) = meta_execute_step(run, MetaEvent::Searched(Ok(vec![entry("DROPBOX_LIST_FOLDER", None, Some("ref"))])));
    match action {
        MetaAction::FetchSchema(slug, s) => {
            assert_eq!(slug, "DROPBOX_LIST_FOLDER");
            assert_eq!(s, "s1");
        },
        _ => panic!("expected a schema fetch"),
    }
    let (run, action) = meta_execute_step(run, MetaEvent::SchemaFetched(Ok(j(r#"{"type": "object"}"#))));
    match action {
        MetaAction::Connect(toolkit, s) => {
            assert_eq!(toolkit, "dropbox");
            assert_eq!(s, "s1");
        },
        _ => panic!("expected a connection"),
    }
    let (run, action) = meta_execute_step(run, MetaEvent::Connected(Ok(())));
    match action {
        MetaAction::Execute(slug, arguments, s) => {
            assert_eq!(slug, "DROPBOX_LIST_FOLDER");
            assert_eq!(json_to_serde(&arguments), serde_json::from_str::<serde_json::Value>(r#"{"path": "/Documents", "recursive": false, "limit": 2000}"#).unwrap());
            assert_eq!(s, "s1");
        },
        _ => panic!("expected an execution"),
    }
    match meta_execute_step(run, MetaEvent::Executed(Err("Tool execution failed: nope".to_string()))).1 {
        MetaAction::Finish(r) => {
            assert!(!r.success);
            assert_eq!(r.error, Some("Tool execution failed: nope".to_string()));
        },
        _ => panic!("expected a finished run"),
    }
}

#[test]
fn meta_run_missing_arguments_and_errors() {
    let start = MetaEvent::Start { allowed: Ok(()), args: j(r#"{"query": "do something"}"#) };
    let (run, _) = meta_execute_step(MetaRun::Start, start);
    let (run, _) = meta_execute_step(run, MetaEvent::Session(Ok("s1".to_string())));
    match meta_execute_step(run, MetaEvent::Searched(Ok(vec![entry("SOME_TOOL", None, None)]))).1 {
        MetaAction::Finish(r) => {
            assert!(!r.success);
            assert!(r.output.starts_with("Tool found: SOME_TOOL\nDescription: Lists a folder"));
            assert_eq!(
                r.error,
                Some("Missing required arguments for SOME_TOOL. Please provide the 'arguments' parameter with the required fields.".to_string())
            );
        },
        _ => panic!("expected a finished run"),
    }
    let (run, _) = meta_execute_step(MetaRun::Start, MetaEvent::Start { allowed: Ok(()), args: j(r#"{"query": "q"}"#) });
    match meta_execute_step(run, MetaEvent::Session(Err("Failed to create new session".to_string()))).1 {
        MetaAction::Fail(e) => assert_eq!(e, "Failed to create new session"),
        _ => panic!("expected a failure"),
    }
    match meta_execute_step(MetaRun::Start, MetaEvent::Start { allowed: Ok(()), args: j("{}") }).1 {
        MetaAction::Fail(e) => assert_eq!(e, "Missing 'query' parameter"),
        _ => panic!("expected a failure"),
    }
    let provided = MetaEvent::Start { allowed: Ok(()), args: j(r#"{"query": "q", "arguments": {"a": 1}}"#) };
    let (run, _) = meta_execute_step(MetaRun::Start, provided);
    let (run, _) = meta_execute_step(run, MetaEvent::Session(Ok("s".to_string())));
    let (run, action) = meta_execute_step(run, MetaEvent::Searched(Ok(vec![entry("T", Some(r#"{"type": "object"}"#), None)])));
    assert!(matches!(action, MetaAction::Connect(_, _)));
    match meta_execute_step(run, MetaEvent::Connected(Err("Needs authorization".to_string()))).1 {
        MetaAction::Finish(r) => assert_eq!(r.error, Some("Needs authorization".to_string())),
        _ => panic!("expected a finished run"),
    }
    let (run, _) = meta_execute_step(MetaRun::Start, MetaEvent::Start { allowed: Ok(()), args: j(r#"{"query": "q"}"#) });
    let (run, _) = meta_execute_step(run, MetaEvent::Session(Ok("s".to_string())));
    match meta_execute_step(run, MetaEvent::Searched(Ok(Vec::new()))).1 {
        MetaAction::Finish(r) => assert!(r.error.unwrap().starts_with("No tools found for query: 'q'")),
        _ => panic!("expected a finished run"),
    }
}
