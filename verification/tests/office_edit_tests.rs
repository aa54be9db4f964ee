use zeroclaw_composio::json::{Json, JsonNumber};
use zeroclaw_composio::office_edit::{office_parameters_schema, OFFICE_EDIT_DESCRIPTION};
use zeroclaw_composio::office_edit::{
    edit_arguments, edit_success_output, edit_target, extension, file_name, join_path, OfficeEditTool, OfficeKind, SecurityPolicy,
};

fn j(text: &str) -> Json {
    json_from_serde(&serde_json::from_str::<serde_json::Value>(text).unwrap())
}

fn tool() -> OfficeEditTool {
    OfficeEditTool::new(SecurityPolicy { workspace_dir: "/home/u/ws".to_string() }, "key".to_string())
}

#[test]
fn temp_dir_is_inside_the_workspace() {
    assert_eq!(tool().temp_dir(), "/home/u/ws/temp");
    assert_eq!(join_path("/home/u/ws/", "temp"), "/home/u/ws/temp");
    assert_eq!(join_path("", "temp"), "temp");
    assert_eq!(join_path("/a", "/b"), "/b");
}

#[test]
fn mimetype_follows_the_extension() {
    let t = tool();
    assert_eq!(t.detect_mimetype("/x/sales.xlsx"), "application/vnd.openxmlformats-officedocument.spreadsheetml.sheet");
    assert_eq!(t.detect_mimetype("old.xls"), "application/vnd.ms-excel");
    assert_eq!(t.detect_mimetype("a/b.docx"), "application/vnd.openxmlformats-officedocument.wordprocessingml.document");
    assert_eq!(t.detect_mimetype("letter.doc"), "application/msword");
    assert_eq!(t.detect_mimetype("notes.txt"), "application/octet-stream");
    assert_eq!(t.detect_mimetype(".xlsx"), "application/octet-stream");
}

#[test]
fn file_names_follow_path_rules() {
    assert_eq!(file_name("/vendas.xlsx"), Some("vendas.xlsx".to_string()));
    assert_eq!(file_name("a/b.txt/"), Some("b.txt".to_string()));
    assert_eq!(file_name("a/b/."), Some("b".to_string()));
    assert_eq!(file_name("/"), None);
    assert_eq!(file_name("a/.."), None);
    assert_eq!(extension("archive.tar.gz"), Some("gz".to_string()));
    assert_eq!(extension(".bashrc"), None);
    assert_eq!(extension("noext"), None);
}

#[test]
fn edit_needs_path_and_operation() {
    assert_eq!(edit_arguments(&j(r#"{"operation": "add_row"}"#)), Err("Missing 'dropbox_path'".to_string()));
    assert_eq!(edit_arguments(&j(r#"{"dropbox_path": "/a.xlsx"}"#)), Err("Missing 'operation'".to_string()));
    assert_eq!(
        edit_arguments(&j(r#"{"dropbox_path": "/a.xlsx", "operation": "add_row"}"#)),
        Ok(("/a.xlsx".to_string(), "add_row".to_string()))
    );
}

#[test]
fn edit_target_is_excel_or_word() {
    assert_eq!(edit_target("/vendas.xlsx"), Ok(("vendas.xlsx".to_string(), OfficeKind::Excel)));
    assert_eq!(edit_target("/r/plan.docx"), Ok(("plan.docx".to_string(), OfficeKind::Word)));
    assert_eq!(edit_target("/r/plan.pdf"), Err("Unsupported file type: pdf".to_string()));
    assert_eq!(edit_target("/r/plan"), Err("File must have .xlsx or .docx extension".to_string()));
    assert_eq!(edit_target("/"), Err("Invalid dropbox_path".to_string()));
}

#[test]
fn success_output_names_path_and_key() {
    assert_eq!(
        edit_success_output("/a.xlsx", "k1"),
        "File /a.xlsx edited successfully. S3 key: k1. Use composio_nl tool to upload this file to Dropbox."
    );
}

#[test]
fn tool_keeps_its_key_and_name() {
    let t = tool();
    assert_eq!(t.composio_api_key(), "key");
    assert_eq!(t.name(), "office_edit");
}

#[test]
fn office_schema_lists_the_operations() {
    let v = json_to_serde(&office_parameters_schema());
    assert!(OFFICE_EDIT_DESCRIPTION.contains("office-edit"));
    assert_eq!(v["required"][0], "dropbox_path");
    assert_eq!(v["required"][1], "operation");
    assert_eq!(v["properties"]["operation"]["enum"][3], "replace_text");
    assert_eq!(v["properties"]["data"]["type"], "object");
}

fn json_from_serde(v: &serde_json::Value) -> Json {
    match v {
        serde_json::Value::Null => Json::Null,
        serde_json::Value::Bool(b) => Json::Bool(*b),
        serde_json::Value::Number(n) => Json::Number(JsonNumber { as_i64: n.as_i64(), text: n.to_string() }),
        serde_json::Value::String(s) => Json::Str(s.clone()),
        serde_json::Value::Array(a) => Json::Array(a.iter().map(json_from_serde).collect()),
        serde_json::Value::Object(o) => Json::Object(o.iter().map(|(k, x)| (k.clone(), json_from_serde(x))).collect()),
    }
}

fn json_to_serde(j: &Json) -> serde_json::Value {
    match j {
        Json::Null => serde_json::Value::Null,
        Json::Bool(b) => serde_json::Value::Bool(*b),
        Json::Number(n) => serde_json::from_str(&n.text).unwrap_or(serde_json::Value::Null),
        Json::Str(s) => serde_json::Value::String(s.clone()),
        Json::Array(a) => serde_json::Value::Array(a.iter().map(json_to_serde).collect()),
        Json::Object(o) => serde_json::Value::Object(o.iter().map(|(k, x)| (k.clone(), json_to_serde(x))).collect()),
    }
}
