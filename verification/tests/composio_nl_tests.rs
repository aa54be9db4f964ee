use zeroclaw_composio::composio_nl::{arguments_after_model, discovered_from_payload, office_code_after_model, plan_extraction, DiscoveredTool, ExtractionPlan};
use zeroclaw_composio::json::{Json, JsonNumber};
use zeroclaw_composio::composio_nl::{nl_parameters_schema, nl_tool_name, NL_DESCRIPTION};
use zeroclaw_composio::composio_nl::rpc_result;
use zeroclaw_composio::jsonrpc::{JsonRpcError, JsonRpcResponse};
use zeroclaw_composio::composio_nl::{
    apply_schemas, direct_tool, execution_result, is_office_edit, llm_arguments_usable, merge_arguments, multi_execute_params,
    no_tools_message, oauth_required_result, office_template_code, parse_discovered_tools, parse_llm_arguments,
    parse_tool_schemas, search_params, should_use_workbench, skips_llm, stage_text_payload, NlState,
};

fn j(text: &str) -> Json {
    json_from_serde(&serde_json::from_str::<serde_json::Value>(text).unwrap())
}

fn wrapped(inner: &str) -> Json {
    let quoted = serde_json::to_string(inner).unwrap();
    j(&format!(r#"{{"content": [{{"text": {}}}]}}"#, quoted))
}

fn search_response(results: &[&str]) -> Json {
    wrapped(&format!(r#"{{"data": {{"results": [{}]}}}}"#, results.join(",")))
}

#[test]
fn test_parse_discovered_tools_success() {
    let result_data = search_response(&[r#"{
        "primary_tool_slugs": ["GMAIL_SEND_EMAIL"],
        "use_case": "send email",
        "execution_guidance": "Send an email via Gmail",
        "toolkits": ["gmail"],
        "tool_schemas": [{"parameters": {"type": "object", "properties": {"to": {"type": "string"}, "subject": {"type": "string"}, "body": {"type": "string"}}, "required": ["to", "subject", "body"]}}]
    }"#]);
    let discovered = parse_discovered_tools(&result_data);
    assert_eq!(discovered.len(), 1, "Should discover 1 tool");
    assert_eq!(discovered[0].tool_slug, "GMAIL_SEND_EMAIL");
    assert_eq!(discovered[0].toolkit, "gmail");
    assert_eq!(discovered[0].use_case, "send email");
    assert!(discovered[0].input_schema.is_some(), "Should have schema from tool_schemas");
}

#[test]
fn test_parse_multiple_discovered_tools() {
    let result_data = search_response(&[
        r#"{"primary_tool_slugs": ["GITHUB_CREATE_ISSUE"], "use_case": "create github issue", "execution_guidance": "Create a new issue in GitHub", "toolkits": ["github"]}"#,
        r#"{"tool_slug": "SLACK_SEND_MESSAGE", "use_case": "send slack message", "execution_guidance": "Send a message to Slack", "toolkit": "slack"}"#,
    ]);
    let discovered = parse_discovered_tools(&result_data);
    assert_eq!(discovered.len(), 2, "Should discover 2 tools");
    assert_eq!(discovered[0].tool_slug, "GITHUB_CREATE_ISSUE");
    assert_eq!(discovered[0].toolkit, "github");
    assert_eq!(discovered[1].tool_slug, "SLACK_SEND_MESSAGE");
    assert_eq!(discovered[1].toolkit, "slack");
}

#[test]
fn test_parse_tools_with_alternative_fields() {
    let result_data = search_response(&[
        r#"{"action_slug": "NOTION_CREATE_PAGE", "use_case": "create notion page", "execution_guidance": "Create a new page in Notion", "app": "notion"}"#,
    ]);
    let discovered = parse_discovered_tools(&result_data);
    assert_eq!(discovered.len(), 1);
    assert_eq!(discovered[0].tool_slug, "NOTION_CREATE_PAGE");
    assert_eq!(discovered[0].toolkit, "notion");
}

#[test]
fn test_parse_tools_with_toolkit_inference() {
    let result_data = search_response(&[
        r#"{"primary_tool_slugs": ["SEND_EMAIL"], "use_case": "send email via gmail", "execution_guidance": "Send an email using Gmail API"}"#,
        r#"{"primary_tool_slugs": ["CREATE_ISSUE"], "use_case": "create github issue", "execution_guidance": "Create a new GitHub issue"}"#,
    ]);
    let discovered = parse_discovered_tools(&result_data);
    assert_eq!(discovered.len(), 2);
    assert_eq!(discovered[0].toolkit, "gmail");
    assert_eq!(discovered[1].toolkit, "github");
}

#[test]
fn test_parse_empty_results() {
    let result_data = search_response(&[]);
    let discovered = parse_discovered_tools(&result_data);
    assert_eq!(discovered.len(), 0, "Should return empty vector");
}

#[test]
fn test_parse_malformed_response() {
    let malformed_data = j(r#"{"data": {"results": []}}"#);
    let discovered = parse_discovered_tools(&malformed_data);
    assert_eq!(discovered.len(), 0);
}

#[test]
fn test_parse_invalid_json_text() {
    let invalid_data = j(r#"{"content": [{"text": "not valid json"}]}"#);
    let discovered = parse_discovered_tools(&invalid_data);
    assert_eq!(discovered.len(), 0);
}

#[test]
fn test_parse_tools_with_numeric_ids() {
    let result_data = search_response(&[r#"{"id": 12345, "use_case": "test tool", "execution_guidance": "Test tool", "toolkits": ["test"]}"#]);
    let discovered = parse_discovered_tools(&result_data);
    assert_eq!(discovered.len(), 1);
    assert_eq!(discovered[0].tool_slug, "12345");
}

#[test]
fn test_parse_tools_with_toolkits_array() {
    let result_data = search_response(&[
        r#"{"primary_tool_slugs": ["MULTI_TOOLKIT_TOOL"], "use_case": "multi toolkit", "execution_guidance": "Tool that works with multiple toolkits", "toolkits": ["gmail", "outlook", "slack"]}"#,
    ]);
    let discovered = parse_discovered_tools(&result_data);
    assert_eq!(discovered.len(), 1);
    assert_eq!(discovered[0].toolkit, "gmail");
}

#[test]
fn test_parse_tools_with_embedded_schema() {
    let result_data = search_response(&[r#"{
        "primary_tool_slugs": ["TOOL_WITH_SCHEMA"],
        "use_case": "tool with schema",
        "execution_guidance": "Tool with embedded schema",
        "toolkits": ["test"],
        "tool_schemas": [{"parameters": {"type": "object", "properties": {"param1": {"type": "string"}, "param2": {"type": "number"}}, "required": ["param1"]}}]
    }"#]);
    let discovered = parse_discovered_tools(&result_data);
    assert_eq!(discovered.len(), 1);
    assert!(discovered[0].input_schema.is_some());
    let parsed_schema = json_to_serde(discovered[0].input_schema.as_ref().unwrap());
    assert_eq!(parsed_schema["type"], "object");
    assert!(parsed_schema["properties"]["param1"].is_object());
}

#[test]
fn test_bulk_email_query_uses_workbench() {
    let query = "Label all unread emails from last week as 'needs-review'";
    assert!(should_use_workbench(query, None), "Bulk email query should use Workbench (contains 'all')");
}

#[test]
fn test_csv_export_query_uses_workbench() {
    let query = "Export all GitHub issues to CSV and count by status";
    assert!(should_use_workbench(query, None), "CSV export query should use Workbench (contains 'all' and 'csv')");
}

#[test]
fn test_single_email_query_uses_direct() {
    let query = "Send an email to user@example.com with subject 'Hello'";
    assert!(!should_use_workbench(query, None), "Single email query should use direct execution (no bulk/large data keywords)");
}

#[test]
fn test_force_workbench_overrides_heuristic() {
    let query = "Send an email to user@example.com";
    assert!(!should_use_workbench(query, None), "Should use direct execution without force");
    assert!(should_use_workbench(query, Some(true)), "Should use Workbench when forced");
    assert!(!should_use_workbench(query, Some(false)), "Should not use Workbench when explicitly disabled");
}

#[test]
fn test_report_generation_uses_workbench() {
    let query = "Generate a summary report of all Notion pages";
    assert!(should_use_workbench(query, None), "Report generation query should use Workbench (contains 'all' and 'summary')");
}

#[test]
fn test_multiple_bulk_keywords() {
    let queries = vec!["List every item in the database", "Export batch of records", "Process hundreds of files", "Analyze many documents"];
    for query in queries {
        assert!(should_use_workbench(query, None), "Query '{}' should use Workbench (contains bulk keyword)", query);
    }
}

#[test]
fn test_multiple_large_data_keywords() {
    let queries = vec!["Create a spreadsheet with data", "Analyze the statistics", "Aggregate the results", "Count all occurrences"];
    for query in queries {
        assert!(should_use_workbench(query, None), "Query '{}' should use Workbench (contains large data keyword)", query);
    }
}

#[test]
fn schemas_are_read_and_applied() {
    let reply = wrapped(r#"{"data": {"tool_schemas": {"GMAIL_SEND_EMAIL": {"parameters": {"type": "object"}}, "X": {"other": 1}}}}"#);
    let schemas = parse_tool_schemas(&reply).unwrap();
    assert_eq!(schemas.len(), 1);
    let result_data = search_response(&[r#"{"primary_tool_slugs": ["GMAIL_SEND_EMAIL"], "use_case": "send", "toolkits": ["gmail"]}"#]);
    let mut tools = parse_discovered_tools(&result_data);
    assert!(tools[0].input_schema.is_none());
    apply_schemas(&mut tools, &schemas);
    assert_eq!(json_to_serde(tools[0].input_schema.as_ref().unwrap())["type"], "object");
}

#[test]
fn direct_tool_infers_toolkit_from_slug() {
    let t = direct_tool("GMAIL_SEND_EMAIL", "mail bob", None);
    assert_eq!(t.toolkit, "gmail");
    assert_eq!(t.description, "Direct execution of GMAIL_SEND_EMAIL");
    assert_eq!(t.use_case, "mail bob");
}

#[test]
fn provided_arguments_win_over_extracted_ones() {
    let merged = merge_arguments(j(r#"{"to": "a@b.c"}"#), &j(r#"{"to": "x@y.z", "subject": "S"}"#));
    let v = json_to_serde(&merged);
    assert_eq!(v["to"], "a@b.c");
    assert_eq!(v["subject"], "S");
    let not_object = merge_arguments(j("[1]"), &j(r#"{"a": 1}"#));
    assert!(json_to_serde(&not_object).is_array());
}

#[test]
fn request_ids_count_up_and_reset() {
    let mut s = NlState::new();
    assert_eq!(s.next_request_id(), 1);
    assert_eq!(s.next_request_id(), 2);
    s.clear_cache();
    assert_eq!(s.next_request_id(), 1);
}

#[test]
fn no_tools_message_names_the_query() {
    assert_eq!(
        no_tools_message("q"),
        "No tools found for query: 'q'. Try rephrasing or check if the app is supported by Composio."
    );
}

#[test]
fn oauth_result_holds_the_link() {
    let r = oauth_required_result("gmail", "https://auth");
    assert!(!r.success);
    assert!(r.output.starts_with("🔗 GMAIL OAuth Authorization Required"));
    assert!(r.output.contains("https://auth"));
    assert!(r.error.is_none());
}

#[test]
fn execution_failures_are_prefixed() {
    let r = execution_result(&Err("boom".to_string()));
    assert_eq!(r.error, Some("Tool execution failed: boom".to_string()));
    let ok = execution_result(&Ok(j(r#"{"a": 1}"#)));
    assert!(ok.success);
    assert!(ok.output.contains("\"a\": 1"));
}

#[test]
fn llm_reply_json_is_cut_from_the_text() {
    let args = parse_llm_arguments("Here you go: {\"path\": \"/a.txt\"} done").unwrap();
    assert_eq!(json_to_serde(&args)["path"], "/a.txt");
    assert!(llm_arguments_usable(&args));
    assert!(!llm_arguments_usable(&j("{}")));
    let err = parse_llm_arguments("no json here").unwrap_err();
    assert_eq!(err, "Failed to parse LLM response as JSON: no json here");
}

#[test]
fn dropbox_upload_skips_the_model() {
    assert!(skips_llm("DROPBOX_UPLOAD_FILE"));
    assert!(!skips_llm("GMAIL_SEND_EMAIL"));
}

#[test]
fn office_edits_are_detected() {
    assert!(is_office_edit("add a row to /sales.xlsx"));
    assert!(!is_office_edit("read /sales.xlsx"));
    assert!(!is_office_edit("add a note"));
}

#[test]
fn office_template_depends_on_file_type() {
    assert!(office_template_code("edit /a.xlsx", "/a.xlsx").unwrap().contains("openpyxl"));
    assert!(office_template_code("edit /a.docx", "/a.docx").unwrap().contains("from docx import Document"));
    assert_eq!(
        office_template_code("edit it", "/x"),
        Err("Could not determine Office file type from query".to_string())
    );
}

#[test]
fn params_have_the_expected_shape() {
    let s = json_to_serde(&search_params("find"));
    assert_eq!(s["queries"][0], "find");
    assert_eq!(s["session"]["generate_id"], true);
    let m = json_to_serde(&multi_execute_params("T", j(r#"{"a": 1}"#)));
    assert_eq!(m["tools"][0]["tool_slug"], "T");
    assert_eq!(m["tools"][0]["arguments"]["a"], 1);
    assert_eq!(m["sync_response_to_workbench"], false);
}

#[test]
fn staging_request_carries_the_md5() {
    let p = json_to_serde(&stage_text_payload("hello", "a.txt", None));
    assert_eq!(p["mimetype"], "text/plain");
    assert_eq!(p["md5"], "5d41402abc4b2a76b9719d911017c592");
    assert_eq!(p["filename"], "a.txt");
}

#[test]
fn rpc_result_reads_the_reply() {
    let ok: Result<JsonRpcResponse, String> =
        Ok(JsonRpcResponse { jsonrpc: "2.0".to_string(), id: 1, result: Some(j(r#"{"a": 1}"#)), error: None });
    assert_eq!(json_to_serde(rpc_result(&ok, "Failed").unwrap())["a"], 1);
    let failed: Result<JsonRpcResponse, String> = Err("boom".to_string());
    assert_eq!(rpc_result(&failed, "Failed to search tools").unwrap_err(), "Failed to search tools");
    let rpc_error: Result<JsonRpcResponse, String> = Ok(JsonRpcResponse {
        jsonrpc: "2.0".to_string(),
        id: 1,
        result: None,
        error: Some(JsonRpcError { code: -32600, message: "bad".to_string(), data: None }),
    });
    assert_eq!(rpc_result(&rpc_error, "x").unwrap_err(), "JSON-RPC error: bad (code: -32600)");
    let empty: Result<JsonRpcResponse, String> = Ok(JsonRpcResponse { jsonrpc: "2.0".to_string(), id: 1, result: None, error: None });
    assert_eq!(rpc_result(&empty, "x").unwrap_err(), "No result in JSON-RPC response");
}

#[test]
fn nl_schema_requires_the_query() {
    let v = json_to_serde(&nl_parameters_schema());
    assert_eq!(nl_tool_name(), "composio_nl");
    assert!(NL_DESCRIPTION.starts_with("Access 1000+ apps"));
    assert_eq!(v["type"], "object");
    assert_eq!(v["required"], serde_json::Value::Array(vec![serde_json::Value::from("query")]));
    assert_eq!(v["properties"]["query"]["type"], "string");
    assert_eq!(v["properties"]["tool_slug"]["type"], "string");
    assert_eq!(v["properties"]["arguments"]["additionalProperties"], true);
    assert_eq!(v["properties"]["use_workbench"]["type"], "boolean");
    assert_eq!(v["properties"]["use_workbench"]["default"], false);
}

fn json_from_serde(v: &serde_json::Value) -> Json {
    match v {
        serde_json::Value::Null => Json::Null,
        serde_json::Value::Bool(b) => Json::Bool(*b),
        serde_json::Value::Number(n) => Json::Number(JsonNumber { as_i64: n.as_i64(), text: n.to_string() }),
        serde_json::Value::String(s) => Json::Str(s.clone()),
        serde_json::Value::Array(a) => Json::Array(a.iter().map(json_from_serde).collect()),
        serde_json::Value::Object(o) => Json::Object(o.iter().map(|(k, x)| (k.clone(), json_from_serde(x))).collect()),
    }
}

fn json_to_serde(j: &Json) -> serde_json::Value {
    match j {
        Json::Null => serde_json::Value::Null,
        Json::Bool(b) => serde_json::Value::Bool(*b),
        Json::Number(n) => serde_json::from_str(&n.text).unwrap_or(serde_json::Value::Null),
        Json::Str(s) => serde_json::Value::String(s.clone()),
        Json::Array(a) => serde_json::Value::Array(a.iter().map(json_to_serde).collect()),
        Json::Object(o) => serde_json::Value::Object(o.iter().map(|(k, x)| (k.clone(), json_to_serde(x))).collect()),
    }
}

#[test]
fn history_keeps_the_last_ten_executions() {
    let mut s = NlState::new();
    for i in 0..12 {
        s.record_execution(&format!("TOOL_{}", i), &j(r#"{"a": 1}"#), &j(r#"{"ok": true}"#));
    }
    assert_eq!(s.history().len(), 10);
    assert_eq!(s.peek_request_id(), 1);
}

fn discovered(slug: &str, schema: Option<Json>) -> DiscoveredTool {
    DiscoveredTool {
        tool_slug: slug.to_string(),
        description: String::new(),
        toolkit: "x".to_string(),
        use_case: "use".to_string(),
        input_schema: schema,
        schema_ref: None,
    }
}

#[test]
fn extraction_asks_the_model_only_when_it_can() {
    let with_schema = discovered("SLACK_SEND_MESSAGE", Some(j(r#"{"type": "object"}"#)));
    assert!(matches!(plan_extraction("post hello", &with_schema, true), ExtractionPlan::Model));
    assert!(matches!(plan_extraction("post hello", &with_schema, false), ExtractionPlan::Fallback(_)));
    let upload = discovered("DROPBOX_UPLOAD_FILE", Some(j(r#"{"type": "object"}"#)));
    assert!(matches!(plan_extraction("upload notes", &upload, true), ExtractionPlan::Fallback(_)));
    let args = arguments_after_model("post hello", &with_schema, Ok(j(r#"{"channel": "general"}"#)));
    assert_eq!(json_to_serde(&args)["channel"], "general");
    let empty = arguments_after_model("post hello", &with_schema, Ok(j("{}")));
    assert!(json_to_serde(&empty).is_object());
    let failed = arguments_after_model("post hello", &with_schema, Err("down".to_string()));
    assert_eq!(json_to_serde(&failed), json_to_serde(&empty));
}

#[test]
fn office_code_comes_from_the_model_or_the_template() {
    assert_eq!(office_code_after_model("edit /a.xlsx", Some(Ok("```python\nprint(1)\n```".to_string()))).unwrap(), "print(1)");
    let template = office_code_after_model("add a row to /data/report.xlsx", None).unwrap();
    assert!(template.contains("/data/report.xlsx"));
    assert!(office_code_after_model("edit my notes", Some(Err("down".to_string()))).is_err());
}

#[test]
fn lowercase_queries_are_routed() {
    assert!(zeroclaw_composio::composio_nl::workbench_keyword_in("export all emails"));
    assert!(!zeroclaw_composio::composio_nl::workbench_keyword_in("send one email"));
    assert!(zeroclaw_composio::composio_nl::office_edit_in("add a row to sales.xlsx"));
    assert!(!zeroclaw_composio::composio_nl::office_edit_in("read sales.xlsx"));
}

#[test]
fn parsed_tools_carry_no_schema_reference() {
    let result_data = search_response(&[r#"{"primary_tool_slugs": ["A_B"], "toolkits": ["a"]}"#, r#"{"tool_slug": 12345}"#]);
    let discovered = parse_discovered_tools(&result_data);
    assert_eq!(discovered.len(), 2);
    assert_eq!(discovered[1].tool_slug, "12345");
    assert!(discovered.iter().all(|t| t.schema_ref.is_none()));
}

#[test]
fn tools_are_read_from_a_parsed_search_document() {
    let doc = j(r#"{"data": {"results": [{"primary_tool_slugs": ["SLACK_SEND_MESSAGE"], "use_case": "post", "toolkits": ["slack"]}]}}"#);
    let tools = discovered_from_payload(&doc);
    assert_eq!(tools.len(), 1);
    assert_eq!(tools[0].tool_slug, "SLACK_SEND_MESSAGE");
    assert_eq!(tools[0].toolkit, "slack");
    assert_eq!(tools[0].use_case, "post");
    assert!(tools[0].schema_ref.is_none());
    assert!(discovered_from_payload(&j(r#"{"data": {"results": {}}}"#)).is_empty());
    assert!(discovered_from_payload(&j(r#"{"results": []}"#)).is_empty());
}
