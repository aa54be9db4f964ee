//! Staging content in Composio's file store before an upload: the request for
//! an upload URL, and what its answer says to do next. The HTTP calls are the
//! caller's part.

use vstd::prelude::*;
use crate::json::{Json, JsonV, json_as_str, json_get_str};

verus! {

/// What `md5::compute` followed by its lowercase hex rendering makes of some
/// bytes.
pub uninterp spec fn spec_md5_hex(bytes: Seq<u8>) -> Seq<char>;

/// The MD5 digest of some bytes as lowercase hex: `md5::compute`, rendered
/// with `{:x}`. The result is named, a function of the bytes alone.
#[verifier::external_body]
fn md5_hex(bytes: &[u8]) -> (r: String)
    ensures
        r@ == spec_md5_hex(bytes@),
{
    format!("{:x}", md5::compute(bytes))
}

/// The request for an upload URL: the Dropbox upload tool, the file name, its
/// mimetype and the MD5 of the content.
pub open spec fn upload_request(filename: Seq<char>, mimetype: Seq<char>, md5: Seq<char>) -> JsonV {
    JsonV::Object(
        seq![
            ("toolkit_slug"@, JsonV::Str("dropbox"@)),
            ("tool_slug"@, JsonV::Str("DROPBOX_UPLOAD_FILE"@)),
            ("filename"@, JsonV::Str(filename)),
            ("mimetype"@, JsonV::Str(mimetype)),
            ("md5"@, JsonV::Str(md5)),
        ],
    )
}

/// Builds the request for an upload URL.
pub fn upload_request_payload(content: &[u8], filename: &str, mimetype: &str) -> (r: Json)
    ensures
        r.jv() == upload_request(filename@, mimetype@, spec_md5_hex(content@)),
{
    let digest = md5_hex(content);
    let v1 = Json::string("dropbox");
    let v2 = Json::string("DROPBOX_UPLOAD_FILE");
    let v3 = Json::string(filename);
    let v4 = Json::string(mimetype);
    let v5 = Json::string(digest.as_str());
    let k1 = "toolkit_slug".to_owned();
    let k2 = "tool_slug".to_owned();
    let k3 = "filename".to_owned();
    let k4 = "mimetype".to_owned();
    let k5 = "md5".to_owned();
    let ghost want = seq![(k1@, v1.jv()), (k2@, v2.jv()), (k3@, v3.jv()), (k4@, v4.jv()), (k5@, v5.jv())];
    let r = Json::Object(vec![(k1, v1), (k2, v2), (k3, v3), (k4, v4), (k5, v5)]);
    proof {
        assert(r.jv()->Object_0 =~= want);
        assert(r.jv() == JsonV::Object(want));
        assert(want == upload_request(filename@, mimetype@, spec_md5_hex(content@))->Object_0);
    }
    r
}

/// What the upload-URL request answered.
#[derive(Debug)]
pub enum StagePlan {
    /// The content is already stored, under this key.
    Existing(String),
    /// Upload to this URL; the file will be known by `key` (when given).
    Upload { url: String, key: Option<String> },
}

/// The first present of two keys, read as text.
pub open spec fn str_of_either(v: JsonV, a: Seq<char>, b: Seq<char>) -> Option<Seq<char>> {
    match crate::json::json_get_either(v, a, b) {
        Some(x) => json_as_str(x),
        None => None,
    }
}

/// Reads the upload-URL answer: an existing file's URL (`existing_url` or
/// `existingUrl`), else the presigned URL (`newPresignedUrl` or
/// `new_presigned_url`, required) with the file `key`.
pub fn plan_from_upload_response(result: &Json) -> (r: Result<StagePlan, String>)
    ensures
        match str_of_either(result.jv(), "existing_url"@, "existingUrl"@) {
            Some(u) => r matches Ok(StagePlan::Existing(x)) && x@ == u,
            None => match str_of_either(result.jv(), "newPresignedUrl"@, "new_presigned_url"@) {
                Some(u) => r matches Ok(StagePlan::Upload { url, key }) && url@ == u && match key {
                    Some(k) => json_get_str(result.jv(), "key"@) == Some(k@),
                    None => json_get_str(result.jv(), "key"@) is None,
                },
                None => r matches Err(e) && e@ == "No newPresignedUrl in response"@,
            },
        },
{
    let existing = match crate::json::get_either(result, "existing_url", "existingUrl") {
        Some(x) => x.as_str(),
        None => None,
    };
    if let Some(u) = existing {
        return Ok(StagePlan::Existing(u.to_owned()));
    }
    let url = match crate::json::get_either(result, "newPresignedUrl", "new_presigned_url") {
        Some(x) => x.as_str(),
        None => None,
    };
    match url {
        Some(u) => {
            let key = match result.get_str("key") {
                Some(k) => Some(k.to_owned()),
                None => None,
            };
            Ok(StagePlan::Upload { url: u.to_owned(), key })
        },
        None => Err("No newPresignedUrl in response".to_owned()),
    }
}

/// The staged file's key once the upload went through.
pub fn staged_key(key: Option<String>) -> (r: Result<String, String>)
    ensures
        match key {
            Some(k) => r == Ok::<String, String>(k),
            None => r matches Err(e) && e@ == "No key in upload request response"@,
        },
{
    match key {
        Some(k) => Ok(k),
        None => Err("No key in upload request response".to_owned()),
    }
}

} // verus!
