use zeroclaw_composio::json::{Json, JsonNumber};
use zeroclaw_composio::staging::{plan_from_upload_response, staged_key, upload_request_payload, StagePlan};

fn j(text: &str) -> Json {
    json_from_serde(&serde_json::from_str::<serde_json::Value>(text).unwrap())
}

#[test]
fn upload_request_names_file_and_digest() {
    let p = json_to_serde(&upload_request_payload(b"hello", "a.xlsx", "application/vnd.ms-excel"));
    assert_eq!(p["toolkit_slug"], "dropbox");
    assert_eq!(p["tool_slug"], "DROPBOX_UPLOAD_FILE");
    assert_eq!(p["filename"], "a.xlsx");
    assert_eq!(p["mimetype"], "application/vnd.ms-excel");
    assert_eq!(p["md5"], "5d41402abc4b2a76b9719d911017c592");
}

#[test]
fn existing_file_is_reused() {
    match plan_from_upload_response(&j(r#"{"existingUrl": "https://e"}"#)) {
        Ok(StagePlan::Existing(u)) => assert_eq!(u, "https://e"),
        other => panic!("unexpected {:?}", other),
    }
}

#[test]
fn presigned_url_is_used_with_its_key() {
    match plan_from_upload_response(&j(r#"{"new_presigned_url": "https://p", "key": "k1"}"#)) {
        Ok(StagePlan::Upload { url, key }) => {
            assert_eq!(url, "https://p");
            assert_eq!(key, Some("k1".to_string()));
        },
        other => panic!("unexpected {:?}", other),
    }
    assert_eq!(plan_from_upload_response(&j("{}")).unwrap_err(), "No newPresignedUrl in response");
}

#[test]
fn missing_key_is_an_error() {
    assert_eq!(staged_key(Some("k".to_string())), Ok("k".to_string()));
    assert_eq!(staged_key(None), Err("No key in upload request response".to_string()));
}

fn json_from_serde(v: &serde_json::Value) -> Json {
    match v {
        serde_json::Value::Null => Json::Null,
        serde_json::Value::Bool(b) => Json::Bool(*b),
        serde_json::Value::Number(n) => Json::Number(JsonNumber { as_i64: n.as_i64(), text: n.to_string() }),
        serde_json::Value::String(s) => Json::Str(s.clone()),
        serde_json::Value::Array(a) => Json::Array(a.iter().map(json_from_serde).collect()),
        serde_json::Value::Object(o) => Json::Object(o.iter().map(|(k, x)| (k.clone(), json_from_serde(x))).collect()),
    }
}

fn json_to_serde(j: &Json) -> serde_json::Value {
    match j {
        Json::Null => serde_json::Value::Null,
        Json::Bool(b) => serde_json::Value::Bool(*b),
        Json::Number(n) => serde_json::from_str(&n.text).unwrap_or(serde_json::Value::Null),
        Json::Str(s) => serde_json::Value::String(s.clone()),
        Json::Array(a) => serde_json::Value::Array(a.iter().map(json_to_serde).collect()),
        Json::Object(o) => serde_json::Value::Object(o.iter().map(|(k, x)| (k.clone(), json_to_serde(x))).collect()),
    }
}
