use zeroclaw_composio::json::Json;
use zeroclaw_composio::extraction::{
    extract_body_content, extract_content, extract_email_address, extract_file_path, extract_file_path_from_query,
    extract_generic_fallback, extract_quoted_or_after_keyword, extract_quoted_text,
};

fn chars(s: &str) -> Vec<char> {
    s.chars().collect()
}

fn text(v: Option<Vec<char>>) -> Option<String> {
    v.map(|c| c.into_iter().collect())
}

#[test]
fn email_after_keyword_is_found_and_stripped() {
    assert_eq!(extract_email_address("send it to <bob@example.com>, thanks", &["to "]), Some("bob@example.com".to_string()));
    assert_eq!(extract_email_address("para ana@x.org", &["to ", "para "]), Some("ana@x.org".to_string()));
    assert_eq!(extract_email_address("to bob", &["to "]), None);
}

#[test]
fn quoted_text_prefers_double_quotes() {
    assert_eq!(text(extract_quoted_text(&chars(r#"say 'a' and "b""#))), Some("b".to_string()));
    assert_eq!(text(extract_quoted_text(&chars("say 'a'"))), Some("a".to_string()));
    assert_eq!(text(extract_quoted_text(&chars("say \"a"))), None);
}

#[test]
fn subject_is_quoted_or_after_colon() {
    assert_eq!(extract_quoted_or_after_keyword("Subject: Weekly report body: hi", &["subject"]), Some("Weekly report".to_string()));
    assert_eq!(extract_quoted_or_after_keyword("with subject 'Hello there'", &["subject"]), Some("Hello there".to_string()));
    assert_eq!(extract_quoted_or_after_keyword("no such thing", &["subject"]), None);
}

#[test]
fn body_follows_keyword_or_phrase() {
    assert_eq!(extract_body_content("body: see you soon", ""), Some("see you soon".to_string()));
    assert_eq!(extract_body_content("message \"Hi!\"", ""), Some("Hi!".to_string()));
    assert_eq!(extract_body_content("tell bob saying hello", "send a note"), Some("hello".to_string()));
    assert_eq!(extract_body_content("tell bob saying hello", "read a note"), None);
}

#[test]
fn content_follows_content_keyword() {
    assert_eq!(extract_content("create /a.txt with content 'hello world'", ""), Some("hello world".to_string()));
    assert_eq!(extract_content("create /a.txt containing  plain text ", ""), Some("plain text".to_string()));
}

#[test]
fn file_path_after_slash_or_phrase() {
    assert_eq!(extract_file_path("upload to /teste/hello.txt with content 'x'"), Some("/teste/hello.txt".to_string()));
    assert_eq!(extract_file_path("create a file called notes.md with text hi"), Some("/notes.md".to_string()));
    assert_eq!(extract_file_path("criar arquivo chamado dados.txt com texto oi"), Some("/dados.txt".to_string()));
    assert_eq!(extract_file_path("nothing here"), None);
}

#[test]
fn office_path_is_found_before_extension() {
    assert_eq!(extract_file_path_from_query("add a row to '/reports/sales.xlsx' now"), "/reports/sales.xlsx");
    assert_eq!(extract_file_path_from_query("edit plan.DOCX please"), "plan.DOCX");
    assert_eq!(extract_file_path_from_query("edit something"), "/path/to/file.xlsx");
}

#[test]
fn dropbox_upload_fallback_stages_content() {
    let args = json_to_serde(&extract_generic_fallback("upload to /notes/todo.md with content 'buy milk'", "DROPBOX_UPLOAD_FILE", ""));
    assert_eq!(args["path"], "/notes/todo.md");
    assert_eq!(args["mode"], "overwrite");
    assert_eq!(args["_zeroclaw_stage_content"], "buy milk");
    assert_eq!(args["_zeroclaw_stage_filename"], "notes/todo.md");
    assert_eq!(args["_zeroclaw_stage_mimetype"], "text/markdown");
}

#[test]
fn mail_fallback_fills_recipient_twice() {
    let args = json_to_serde(&extract_generic_fallback("mail to bob@example.com subject 'Hi'", "GMAIL_SEND_EMAIL", ""));
    assert_eq!(args["recipient_email"], "bob@example.com");
    assert_eq!(args["to"], "bob@example.com");
    assert_eq!(args["subject"], "Hi");
}

#[test]
fn fallback_for_other_tools_is_empty() {
    let args = json_to_serde(&extract_generic_fallback("do a thing", "SLACK_LIST_CHANNELS", ""));
    assert_eq!(args, serde_json::Value::Object(serde_json::Map::new()));
}

fn json_to_serde(j: &Json) -> serde_json::Value {
    match j {
        Json::Null => serde_json::Value::Null,
        Json::Bool(b) => serde_json::Value::Bool(*b),
        Json::Number(n) => serde_json::from_str(&n.text).unwrap_or(serde_json::Value::Null),
        Json::Str(s) => serde_json::Value::String(s.clone()),
        Json::Array(a) => serde_json::Value::Array(a.iter().map(json_to_serde).collect()),
        Json::Object(o) => serde_json::Value::Object(o.iter().map(|(k, x)| (k.clone(), json_to_serde(x))).collect()),
    }
}
