use zeroclaw_composio::json::{Json, JsonNumber};
use zeroclaw_composio::composio_nl::{extraction_prompt, EXTRACT_PROMPT_TAIL};
use zeroclaw_composio::extraction::try_quick_extraction;

fn j(text: &str) -> Json {
    json_from_serde(&serde_json::from_str::<serde_json::Value>(text).unwrap())
}

#[test]
fn llm_prompt_includes_attachment_instructions() {
    let expected_instructions = vec![
        "For email attachments: if the query mentions sending/attaching a file",
        "file metadata in the conversation context (s3key, mimetype, name from previous tool calls)",
        "include an 'attachment' field with structure",
    ];
    assert!(expected_instructions.len() > 0, "Attachment instructions should be present in LLM prompt");
}

#[test]
fn attachment_structure_is_valid() {
    let attachment = json_to_serde(&j(
        r#"{"name": "hello.txt", "mimetype": "text/plain", "s3key": "268883/dynamic-module-load/READ_FILE/response/e79cb7e2b3389896687491a8811e2abf"}"#,
    ));
    assert!(attachment.get("name").is_some(), "Attachment must have 'name' field");
    assert!(attachment.get("mimetype").is_some(), "Attachment must have 'mimetype' field");
    assert!(attachment.get("s3key").is_some(), "Attachment must have 's3key' field");
    assert!(attachment["name"].is_string(), "'name' must be a string");
    assert!(attachment["mimetype"].is_string(), "'mimetype' must be a string");
    assert!(attachment["s3key"].is_string(), "'s3key' must be a string");
}

#[test]
fn email_with_attachment_structure_is_valid() {
    let email_args = json_to_serde(&j(
        r#"{"recipient_email": "user@example.com", "subject": "File from Dropbox", "body": "See attached file", "attachment": {"name": "hello.txt", "mimetype": "text/plain", "s3key": "268883/dynamic-module-load/READ_FILE/response/abc123"}}"#,
    ));
    assert!(email_args.get("recipient_email").is_some());
    assert!(email_args.get("subject").is_some());
    assert!(email_args.get("body").is_some());
    assert!(email_args.get("attachment").is_some());
    assert!(email_args["attachment"].is_object(), "Attachment must be an object (FileUploadable)");
}

#[test]
fn quick_extraction_does_not_handle_attachments() {
    let layer1_fields = vec!["recipient_email", "subject", "body"];
    assert!(!layer1_fields.contains(&"attachment"), "Layer 1 should not extract attachments - they require context");
}

#[test]
fn workflow_download_then_send_with_attachment() {
    let dropbox_response = json_to_serde(&j(
        r#"{"successful": true, "data": {"content": {"mimetype": "text/plain", "name": "hello.txt", "s3url": "https://temp.example.com/...", "s3key": "268883/dynamic-module-load/READ_FILE/response/abc123"}}}"#,
    ));
    let content = &dropbox_response["data"]["content"];
    let name = content["name"].as_str().unwrap();
    let mimetype = content["mimetype"].as_str().unwrap();
    let s3key = content["s3key"].as_str().unwrap();
    let text = format!(
        r#"{{"recipient_email": "user@example.com", "subject": "File", "body": "Attached", "attachment": {{"name": "{}", "mimetype": "{}", "s3key": "{}"}}}}"#,
        name, mimetype, s3key
    );
    let email_args = json_to_serde(&j(&text));
    assert_eq!(email_args["attachment"]["name"], "hello.txt");
    assert_eq!(email_args["attachment"]["mimetype"], "text/plain");
    assert_eq!(email_args["attachment"]["s3key"], "268883/dynamic-module-load/READ_FILE/response/abc123");
}

#[test]
fn extraction_prompt_carries_attachment_rules() {
    let p = extraction_prompt("GMAIL_SEND_EMAIL", "send email", &j("{}"), "send the file", "\n\nRECENT FILE DOWNLOADS");
    assert!(p.contains("CRITICAL FOR EMAIL ATTACHMENTS"));
    assert!(p.contains("Tool: GMAIL_SEND_EMAIL"));
    assert!(p.contains("User query: \"send the file\""));
    assert!(p.ends_with(EXTRACT_PROMPT_TAIL));
}

#[test]
fn quick_extraction_skips_attachment_queries() {
    assert!(try_quick_extraction("send the file to bob@example.com subject 'x'", "GMAIL_SEND_EMAIL").is_none());
}

#[test]
fn quick_extraction_reads_recipient_subject_and_body() {
    let args = try_quick_extraction("Email to bob@example.com subject \"Hi\" body \"See you\"", "GMAIL_SEND_EMAIL").unwrap();
    let v = json_to_serde(&args);
    assert_eq!(v["recipient_email"], "bob@example.com");
    assert_eq!(v["subject"], "Hi");
    assert_eq!(v["body"], "See you");
}

fn json_from_serde(v: &serde_json::Value) -> Json {
    match v {
        serde_json::Value::Null => Json::Null,
        serde_json::Value::Bool(b) => Json::Bool(*b),
        serde_json::Value::Number(n) => Json::Number(JsonNumber { as_i64: n.as_i64(), text: n.to_string() }),
        serde_json::Value::String(s) => Json::Str(s.clone()),
        serde_json::Value::Array(a) => Json::Array(a.iter().map(json_from_serde).collect()),
        serde_json::Value::Object(o) => Json::Object(o.iter().map(|(k, x)| (k.clone(), json_from_serde(x))).collect()),
    }
}

fn json_to_serde(j: &Json) -> serde_json::Value {
    match j {
        Json::Null => serde_json::Value::Null,
        Json::Bool(b) => serde_json::Value::Bool(*b),
        Json::Number(n) => serde_json::from_str(&n.text).unwrap_or(serde_json::Value::Null),
        Json::Str(s) => serde_json::Value::String(s.clone()),
        Json::Array(a) => serde_json::Value::Array(a.iter().map(json_to_serde).collect()),
        Json::Object(o) => serde_json::Value::Object(o.iter().map(|(k, x)| (k.clone(), json_to_serde(x))).collect()),
    }
}
