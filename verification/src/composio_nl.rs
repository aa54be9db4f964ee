//! The natural-language Composio tool: which tools a search discovered, what
//! the connection check and the execution answered, the recent executions it
//! keeps for attachment context, and the routing of a query.
//!
//! The MCP calls, the language model and the file staging upload are the
//! caller's part; each step hands the reply back here.

use vstd::prelude::*;
use crate::json::{
    Json, JsonV, entries_view, content_text, get_first_of, json_as_bool, json_as_i64, json_as_str, json_first, json_get,
    json_get_first_of, json_get_str, key_texts, object_of, parse_json, push_entry, spec_parse_json,
};
use crate::jsonrpc::{JsonRpcResponse, RpcView, reply_view};
use crate::meta_tools::{find_oauth_link, spec_oauth_link};
use crate::staging::{spec_md5_hex, upload_request, upload_request_payload};
use vstd::string::StrSliceExecFns;
use vstd::utf8::encode_utf8;
use crate::text::{
    append_str, chars_of, contains_any, i64_to_string, seq_contains, spec_decimal, spec_to_lowercase,
    str_contains, string_from_chars, to_lowercase,
};

verus! {

/// Discovered tool from COMPOSIO_SEARCH_TOOLS
#[derive(Debug)]
pub struct DiscoveredTool {
    pub tool_slug: String,
    pub description: String,
    pub toolkit: String,
    pub use_case: String,
    pub input_schema: Option<Json>,
    pub schema_ref: Option<String>,
}

/// What a discovered tool holds, as values.
pub struct DiscoveredView {
    pub tool_slug: Seq<char>,
    pub description: Seq<char>,
    pub toolkit: Seq<char>,
    pub use_case: Seq<char>,
    pub input_schema: Option<JsonV>,
    pub schema_ref: Option<Seq<char>>,
}

impl View for DiscoveredTool {
    type V = DiscoveredView;

    open spec fn view(&self) -> DiscoveredView {
        DiscoveredView {
            tool_slug: self.tool_slug@,
            description: self.description@,
            toolkit: self.toolkit@,
            use_case: self.use_case@,
            input_schema: match self.input_schema {
                Some(j) => Some(j.jv()),
                None => None,
            },
            schema_ref: match self.schema_ref {
                Some(s) => Some(s@),
                None => None,
            },
        }
    }
}

/// Keywords of bulk operations.
pub open spec fn bulk_keywords() -> Seq<Seq<char>> {
    seq!["all"@, "every"@, "list"@, "export"@, "bulk"@, "batch"@, "hundreds"@, "thousands"@, "many"@, "multiple"@]
}

/// Keywords of large-data operations.
pub open spec fn large_data_keywords() -> Seq<Seq<char>> {
    seq!["csv"@, "spreadsheet"@, "report"@, "summary"@, "analyze"@, "analysis"@, "statistics"@, "aggregate"@, "count"@]
}

/// The text contains one of the keywords.
pub open spec fn contains_one_of(text: Seq<char>, kws: Seq<Seq<char>>) -> bool {
    exists|i: int| 0 <= i < kws.len() && seq_contains(text, #[trigger] kws[i])
}

/// Whether the workbench should run a query: when forced, or when the
/// lowercase query names a bulk or large-data operation.
pub open spec fn spec_use_workbench(query: Seq<char>, force: Option<bool>) -> bool {
    force == Some(true) || names_workbench_keyword(spec_to_lowercase(query))
}

/// A lowercase query names a bulk operation or a large-data operation.
pub open spec fn names_workbench_keyword(lower: Seq<char>) -> bool {
    contains_one_of(lower, bulk_keywords()) || contains_one_of(lower, large_data_keywords())
}

/// Whether `text` contains one of the literal keywords in `kws`.
fn contains_keyword(text: &[char], kws: &[&str], Ghost(spec_kws): Ghost<Seq<Seq<char>>>) -> (r: bool)
    requires
        kws@.len() == spec_kws.len(),
        forall|k: int| 0 <= k < kws@.len() ==> #[trigger] kws@[k]@ == spec_kws[k],
    ensures
        r == contains_one_of(text@, spec_kws),
{
    let r = contains_any(text, kws);
    proof {
        if r {
            let k = choose|k: int| 0 <= k < kws@.len() && seq_contains(text@, kws@[k]@);
            assert(seq_contains(text@, spec_kws[k]));
        }
        if contains_one_of(text@, spec_kws) {
            let i = choose|i: int| 0 <= i < spec_kws.len() && seq_contains(text@, #[trigger] spec_kws[i]);
            assert(seq_contains(text@, kws@[i]@));
        }
    }
    r
}

/// Determine whether to use Workbench for the given query
pub fn should_use_workbench(query: &str, force_workbench: Option<bool>) -> (r: bool)
    ensures
        r == spec_use_workbench(query@, force_workbench),
{
    if force_workbench == Some(true) {
        return true;
    }
    let lower = to_lowercase(query);
    workbench_keyword_in(lower.as_str())
}

/// Whether a lowercase query names a bulk or large-data operation.
pub fn workbench_keyword_in(lower: &str) -> (r: bool)
    ensures
        r == names_workbench_keyword(lower@),
{
    let c = chars_of(lower);
    let bulk: [&str; 10] = ["all", "every", "list", "export", "bulk", "batch", "hundreds", "thousands", "many", "multiple"];
    let large: [&str; 9] = ["csv", "spreadsheet", "report", "summary", "analyze", "analysis", "statistics", "aggregate", "count"];
    proof {
        assert forall|k: int| 0 <= k < 10 implies #[trigger] bulk@[k]@ == bulk_keywords()[k] by {}
        assert forall|k: int| 0 <= k < 9 implies #[trigger] large@[k]@ == large_data_keywords()[k] by {}
    }
    contains_keyword(c.as_slice(), bulk.as_slice(), Ghost(bulk_keywords())) || contains_keyword(
        c.as_slice(),
        large.as_slice(),
        Ghost(large_data_keywords()),
    )
}

/// A forced workbench always wins, and a query naming a bulk operation
/// always goes to the workbench.
pub proof fn law_workbench_routing(query: Seq<char>, force: Option<bool>)
    ensures
        force == Some(true) ==> spec_use_workbench(query, force),
        contains_one_of(spec_to_lowercase(query), bulk_keywords()) ==> spec_use_workbench(query, force),
{
}

/// The id keys tried, in order, when a result names no primary slug.
pub open spec fn id_keys() -> Seq<Seq<char>> {
    seq!["tool_slug"@, "action_slug"@, "id"@, "tool_id"@, "action_id"@]
}

/// The toolkit keys tried, in order, when a result has no `toolkits` list.
pub open spec fn toolkit_keys() -> Seq<Seq<char>> {
    seq!["toolkit"@, "app"@, "app_name"@]
}

/// The text of a string value or the decimal form of an integer value.
pub open spec fn id_text(v: JsonV) -> Option<Seq<char>> {
    match json_as_str(v) {
        Some(s) => Some(s),
        None => match json_as_i64(v) {
            Some(n) => Some(spec_decimal(n as int)),
            None => None,
        },
    }
}

/// The string that is the first element of an array value.
pub open spec fn first_str(v: Option<JsonV>) -> Option<Seq<char>> {
    match v {
        Some(a) => match json_first(a) {
            Some(x) => json_as_str(x),
            None => None,
        },
        None => None,
    }
}

/// The toolkit named in a text, by the first matching keyword.
pub open spec fn toolkit_in_text(text: Seq<char>) -> Option<Seq<char>> {
    if seq_contains(text, "outlook"@) {
        Some("outlook"@)
    } else if seq_contains(text, "gmail"@) {
        Some("gmail"@)
    } else if seq_contains(text, "github"@) {
        Some("github"@)
    } else if seq_contains(text, "slack"@) {
        Some("slack"@)
    } else if seq_contains(text, "dropbox"@) {
        Some("dropbox"@)
    } else if seq_contains(text, "notion"@) {
        Some("notion"@)
    } else if seq_contains(text, "calendar"@) || seq_contains(text, "gcal"@) {
        Some("googlecalendar"@)
    } else if seq_contains(text, "drive"@) {
        Some("googledrive"@)
    } else {
        None
    }
}

/// The discovered tool a search result item describes: its id (first
/// primary slug, else the first present id field as text or number, else the
/// use case), its toolkit (first of `toolkits`, else the first present
/// toolkit field, else one named in the use case and guidance, else
/// `"unknown"`), the guidance as description, and the first embedded schema's
/// parameters.
pub open spec fn spec_discovered(item: JsonV) -> DiscoveredView {
    let use_case = match json_get_str(item, "use_case"@) {
        Some(u) => u,
        None => "unknown"@,
    };
    let guidance = match json_get_str(item, "execution_guidance"@) {
        Some(g) => g,
        None => ""@,
    };
    let slug = match first_str(json_get(item, "primary_tool_slugs"@)) {
        Some(s) => s,
        None => match json_get_first_of(item, id_keys()) {
            Some(v) => match id_text(v) {
                Some(s) => s,
                None => use_case,
            },
            None => use_case,
        },
    };
    let toolkit = match first_str(json_get(item, "toolkits"@)) {
        Some(t) => t,
        None => match match json_get_first_of(item, toolkit_keys()) {
            Some(v) => json_as_str(v),
            None => None,
        } {
            Some(t) => t,
            None => match toolkit_in_text(spec_to_lowercase(use_case + " "@ + guidance)) {
                Some(t) => t,
                None => "unknown"@,
            },
        },
    };
    let schema = match json_get(item, "tool_schemas"@) {
        Some(ts) => match json_first(ts) {
            Some(first) => json_get(first, "parameters"@),
            None => None,
        },
        None => None,
    };
    DiscoveredView { tool_slug: slug, description: guidance, toolkit, use_case, input_schema: schema, schema_ref: None }
}

/// The result items of a parsed search document: its `data.results` (none
/// when absent or not an array).
pub open spec fn payload_items(p: JsonV) -> Seq<JsonV> {
    match json_get(p, "data"@) {
        Some(d) => match json_get(d, "results"@) {
            Some(JsonV::Array(items)) => items,
            _ => Seq::empty(),
        },
        None => Seq::empty(),
    }
}

/// The result items of a search payload: `data.results` in the JSON of
/// `content[0].text` (none when absent, not an array, or not JSON).
pub open spec fn search_items(result: JsonV) -> Seq<JsonV> {
    match content_text(result) {
        Some(t) => match spec_parse_json(t) {
            Some(p) => payload_items(p),
            None => Seq::empty(),
        },
        None => Seq::empty(),
    }
}

/// The first string element of an array value.
fn first_str_of(v: Option<&Json>) -> (r: Option<&str>)
    ensures
        match r {
            Some(s) => first_str(crate::json::opt_jv(v)) == Some(s@),
            None => first_str(crate::json::opt_jv(v)) is None,
        },
{
    match v {
        Some(a) => match a.first() {
            Some(x) => x.as_str(),
            None => None,
        },
        None => None,
    }
}

/// The toolkit named in a (lowercase) text.
fn toolkit_in(text: &str) -> (r: Option<&'static str>)
    ensures
        match toolkit_in_text(text@) {
            Some(t) => r matches Some(x) && x@ == t,
            None => r is None,
        },
{
    if str_contains(text, "outlook") {
        Some("outlook")
    } else if str_contains(text, "gmail") {
        Some("gmail")
    } else if str_contains(text, "github") {
        Some("github")
    } else if str_contains(text, "slack") {
        Some("slack")
    } else if str_contains(text, "dropbox") {
        Some("dropbox")
    } else if str_contains(text, "notion") {
        Some("notion")
    } else if str_contains(text, "calendar") || str_contains(text, "gcal") {
        Some("googlecalendar")
    } else if str_contains(text, "drive") {
        Some("googledrive")
    } else {
        None
    }
}

/// Reads one search result item.
pub fn discovered_from_item(item: &Json) -> (r: DiscoveredTool)
    ensures
        r@ == spec_discovered(item.jv()),
        r.schema_ref is None,
{
    let use_case: String = match item.get_str("use_case") {
        Some(u) => u.to_owned(),
        None => "unknown".to_owned(),
    };
    let guidance: String = match item.get_str("execution_guidance") {
        Some(g) => g.to_owned(),
        None => "".to_owned(),
    };
    let id_keys_arr: [&str; 5] = ["tool_slug", "action_slug", "id", "tool_id", "action_id"];
    let tk_keys_arr: [&str; 3] = ["toolkit", "app", "app_name"];
    proof {
        assert(key_texts(id_keys_arr@) =~= id_keys());
        assert(key_texts(tk_keys_arr@) =~= toolkit_keys());
    }
    let slug: String = match first_str_of(item.get("primary_tool_slugs")) {
        Some(s) => s.to_owned(),
        None => match get_first_of(item, id_keys_arr.as_slice()) {
            Some(v) => match v.as_str() {
                Some(s) => s.to_owned(),
                None => match v.as_i64() {
                    Some(n) => i64_to_string(n),
                    None => use_case.clone(),
                },
            },
            None => use_case.clone(),
        },
    };
    let named: Option<&str> = match get_first_of(item, tk_keys_arr.as_slice()) {
        Some(v) => v.as_str(),
        None => None,
    };
    let toolkit: String = match first_str_of(item.get("toolkits")) {
        Some(t) => t.to_owned(),
        None => match named {
            Some(t) => t.to_owned(),
            None => {
                let mut v: Vec<char> = Vec::new();
                append_str(&mut v, use_case.as_str());
                append_str(&mut v, " ");
                append_str(&mut v, guidance.as_str());
                let joined = string_from_chars(v.as_slice());
                let low = to_lowercase(joined.as_str());
                match toolkit_in(low.as_str()) {
                    Some(t) => t.to_owned(),
                    None => "unknown".to_owned(),
                }
            },
        },
    };
    let schema: Option<Json> = match item.get("tool_schemas") {
        Some(ts) => match ts.first() {
            Some(first) => match first.get("parameters") {
                Some(p) => Some(p.deep_clone()),
                None => None,
            },
            None => None,
        },
        None => None,
    };
    DiscoveredTool { tool_slug: slug, description: guidance, toolkit, use_case, input_schema: schema, schema_ref: None }
}

/// The discovered tools of a parsed search document: one per item of its
/// `data.results`, in order (none when that is absent or not an array).
pub fn discovered_from_payload(p: &Json) -> (r: Vec<DiscoveredTool>)
    ensures
        r@.len() == payload_items(p.jv()).len(),
        forall|i: int| 0 <= i < r@.len() ==> #[trigger] r@[i]@ == spec_discovered(payload_items(p.jv())[i]),
        forall|i: int| 0 <= i < r@.len() ==> (#[trigger] r@[i]).schema_ref is None,
{
    let mut out: Vec<DiscoveredTool> = Vec::new();
    let items = match p.get("data") {
        Some(d) => match d.get("results") {
            Some(r) => r,
            None => {
                return out;
            },
        },
        None => {
            return out;
        },
    };
    match items {
        Json::Array(list) => {
            let ghost sitems = payload_items(p.jv());
            proof {
                assert(sitems.len() == list@.len());
                assert forall|k: int| 0 <= k < list@.len() implies #[trigger] sitems[k] == list@[k].jv() by {}
            }
            let mut i: usize = 0;
            while i < list.len()
                invariant
                    i <= list@.len(),
                    sitems.len() == list@.len(),
                    forall|k: int| 0 <= k < list@.len() ==> #[trigger] sitems[k] == list@[k].jv(),
                    out@.len() == i,
                    forall|k: int| 0 <= k < i ==> #[trigger] out@[k]@ == spec_discovered(sitems[k]),
                    forall|k: int| 0 <= k < i ==> (#[trigger] out@[k]).schema_ref is None,
                decreases list.len() - i,
            {
                out.push(discovered_from_item(&list[i]));
                i = i + 1;
            }
            out
        },
        _ => out,
    }
}

/// Parse discovered tools from a COMPOSIO_SEARCH_TOOLS result payload, one
/// per result item, in order (none when the payload holds no results).
pub fn parse_discovered_tools(result: &Json) -> (r: Vec<DiscoveredTool>)
    ensures
        r@.len() == search_items(result.jv()).len(),
        forall|i: int| 0 <= i < r@.len() ==> #[trigger] r@[i]@ == spec_discovered(search_items(result.jv())[i]),
        forall|i: int| 0 <= i < r@.len() ==> (#[trigger] r@[i]).schema_ref is None,
{
    let parsed = match result.content_text() {
        Some(t) => parse_json(t),
        None => None,
    };
    match &parsed {
        Some(p) => discovered_from_payload(p),
        None => Vec::new(),
    }
}

/// The keys under which a tool schema entry holds its parameters.
pub open spec fn schema_keys() -> Seq<Seq<char>> {
    seq!["parameters"@, "input_schema"@, "schema"@]
}

/// The schemas a GET_TOOL_SCHEMAS payload gives, by tool slug: for each
/// entry of `data.tool_schemas` in the JSON of `content[0].text`, its
/// `parameters`, `input_schema` or `schema`; entries with none are skipped.
/// `None` when the payload's text is missing or not JSON.
pub open spec fn spec_schemas(result: JsonV) -> Option<Seq<(Seq<char>, JsonV)>> {
    match content_text(result) {
        Some(t) => match spec_parse_json(t) {
            Some(p) => Some(schemas_of_data(p)),
            None => None,
        },
        None => None,
    }
}

/// The (slug, parameters) pairs of the schema entries that have them.
pub open spec fn schema_entries(es: Seq<(Seq<char>, JsonV)>) -> Seq<(Seq<char>, JsonV)>
    decreases es.len(),
{
    if es.len() == 0 {
        Seq::empty()
    } else {
        let prev = schema_entries(es.drop_last());
        match json_get_first_of(es.last().1, schema_keys()) {
            Some(s) => prev.push((es.last().0, s)),
            None => prev,
        }
    }
}


/// The (slug, parameters) pairs of the schema entries that have them.
fn collect_schemas(es: &Vec<(String, Json)>) -> (r: Vec<(String, Json)>)
    ensures
        entries_view(r@) == schema_entries(entries_view(es@)),
{
    let ghost ses = entries_view(es@);
    let keys: [&str; 3] = ["parameters", "input_schema", "schema"];
    proof {
        assert(key_texts(keys@) =~= schema_keys());
    }
    let mut out: Vec<(String, Json)> = Vec::new();
    let mut i: usize = 0;
    while i < es.len()
        invariant
            i <= es@.len(),
            ses == entries_view(es@),
            key_texts(keys@) == schema_keys(),
            entries_view(out@) == schema_entries(ses.subrange(0, i as int)),
        decreases es.len() - i,
    {
        proof {
            assert(ses.subrange(0, i + 1).drop_last() =~= ses.subrange(0, i as int));
            assert(ses.subrange(0, i + 1).last() == ses[i as int]);
            assert(ses[i as int] == (es@[i as int].0@, es@[i as int].1.jv()));
        }
        let ghost before = entries_view(out@);
        match get_first_of(&es[i].1, keys.as_slice()) {
            Some(s) => {
                let ghost sj = s.jv();
                out.push((es[i].0.clone(), s.deep_clone()));
                proof {
                    assert(entries_view(out@) =~= before.push((es@[i as int].0@, sj)));
                }
            },
            None => {},
        }
        i = i + 1;
    }
    proof {
        assert(ses.subrange(0, es@.len() as int) =~= ses);
    }
    out
}

/// The schemas a parsed GET_TOOL_SCHEMAS document gives.
pub open spec fn schemas_of_data(p: JsonV) -> Seq<(Seq<char>, JsonV)> {
    match json_get(p, "data"@) {
        Some(d) => match json_get(d, "tool_schemas"@) {
            Some(JsonV::Object(es)) => schema_entries(es),
            _ => Seq::empty(),
        },
        None => Seq::empty(),
    }
}

fn schemas_from_object(obj: &Json) -> (r: Vec<(String, Json)>)
    ensures
        entries_view(r@) == (match obj.jv() {
            JsonV::Object(es) => schema_entries(es),
            _ => Seq::empty(),
        }),
{
    match obj {
        Json::Object(es) => {
            proof {
                assert(obj.jv()->Object_0 =~= entries_view(es@));
            }
            collect_schemas(es)
        },
        _ => {
            let out: Vec<(String, Json)> = Vec::new();
            assert(entries_view(out@) =~= Seq::<(Seq<char>, JsonV)>::empty());
            out
        },
    }
}

fn schemas_from_data(p: &Json) -> (r: Vec<(String, Json)>)
    ensures
        entries_view(r@) == schemas_of_data(p.jv()),
{
    let schemas = match p.get("data") {
        Some(d) => d.get("tool_schemas"),
        None => None,
    };
    match schemas {
        Some(obj) => schemas_from_object(obj),
        None => {
            let out: Vec<(String, Json)> = Vec::new();
            assert(entries_view(out@) =~= Seq::<(Seq<char>, JsonV)>::empty());
            out
        },
    }
}

/// Extract the schemas from a GET_TOOL_SCHEMAS result payload.
pub fn parse_tool_schemas(result: &Json) -> (r: Result<Vec<(String, Json)>, String>)
    ensures
        match spec_schemas(result.jv()) {
            Some(s) => r matches Ok(v) && entries_view(v@) == s,
            None => r matches Err(e) && e@ == "Failed to parse GET_TOOL_SCHEMAS response"@,
        },
{
    let parsed = match result.content_text() {
        Some(t) => parse_json(t),
        None => None,
    };
    match &parsed {
        Some(p) => Ok(schemas_from_data(p)),
        None => Err("Failed to parse GET_TOOL_SCHEMAS response".to_owned()),
    }
}

/// Connection status for a toolkit
#[derive(Debug)]
pub enum ConnectionStatus {
    Connected,
    /// OAuth is needed, at this link.
    NeedsOAuth(String),
}

/// What a parsed MANAGE_CONNECTIONS payload says: an OAuth link in the
/// toolkit's instruction, the toolkit's `redirect_url`, or a top-level
/// `redirect_url` means OAuth is needed; otherwise the toolkit is connected.
pub open spec fn spec_needs_oauth(toolkit: Seq<char>, data: JsonV) -> Option<Seq<char>> {
    let td = match json_get(data, "data"@) {
        Some(d) => match json_get(d, "results"@) {
            Some(r) => json_get(r, toolkit),
            None => None,
        },
        None => None,
    };
    let from_td = match td {
        Some(t) => match match json_get_str(t, "instruction"@) {
            Some(i) => spec_oauth_link(i),
            None => None,
        } {
            Some(l) => Some(l),
            None => json_get_str(t, "redirect_url"@),
        },
        None => None,
    };
    match from_td {
        Some(l) => Some(l),
        None => json_get_str(data, "redirect_url"@),
    }
}

/// The message of a JSON-RPC error.
pub open spec fn rpc_error_message(message: Seq<char>, code: i64) -> Seq<char> {
    "JSON-RPC error: "@ + message + " (code: "@ + spec_decimal(code as int) + ")"@
}

/// What a MANAGE_CONNECTIONS reply says of a toolkit: `Ok(Some(link))` when
/// OAuth is needed, `Ok(None)` when connected (also when the payload text is
/// not JSON), or the error.
pub open spec fn spec_connection_reply(toolkit: Seq<char>, reply: Result<RpcView, Seq<char>>) -> Result<Option<Seq<char>>, Seq<char>> {
    match reply {
        Err(_) => Err("Failed to manage connections"@),
        Ok(v) => match v.error {
            Some((code, message)) => Err(rpc_error_message(message, code)),
            None => match v.result {
                None => Err("No result in JSON-RPC response"@),
                Some(data) => Ok(
                    match content_text(data) {
                        Some(t) => match spec_parse_json(t) {
                            Some(p) => spec_needs_oauth(toolkit, p),
                            None => None,
                        },
                        None => None,
                    },
                ),
            },
        },
    }
}

/// The view of a connection check's result.
pub open spec fn connection_result_view(r: Result<ConnectionStatus, String>) -> Result<Option<Seq<char>>, Seq<char>> {
    match r {
        Ok(ConnectionStatus::Connected) => Ok(None),
        Ok(ConnectionStatus::NeedsOAuth(l)) => Ok(Some(l@)),
        Err(e) => Err(e@),
    }
}

/// The JSON-RPC error message.
fn rpc_error_text(message: &str, code: i64) -> (r: String)
    ensures
        r@ == rpc_error_message(message@, code),
{
    let mut v: Vec<char> = Vec::new();
    append_str(&mut v, "JSON-RPC error: ");
    append_str(&mut v, message);
    append_str(&mut v, " (code: ");
    let c = i64_to_string(code);
    append_str(&mut v, c.as_str());
    append_str(&mut v, ")");
    string_from_chars(v.as_slice())
}

/// The result document of a reply to an MCP call: a failed call gives
/// `failure`, a JSON-RPC error its message, a response without a result the
/// matching error.
pub open spec fn spec_rpc_result(reply: Result<RpcView, Seq<char>>, failure: Seq<char>) -> Result<JsonV, Seq<char>> {
    match reply {
        Err(_) => Err(failure),
        Ok(v) => match v.error {
            Some((code, message)) => Err(rpc_error_message(message, code)),
            None => match v.result {
                None => Err("No result in JSON-RPC response"@),
                Some(d) => Ok(d),
            },
        },
    }
}

/// The result document of a reply to an MCP call, or why there is none.
pub fn rpc_result<'a>(reply: &'a Result<JsonRpcResponse, String>, failure: &str) -> (r: Result<&'a Json, String>)
    ensures
        match spec_rpc_result(reply_view(*reply), failure@) {
            Ok(d) => r matches Ok(j) && j.jv() == d,
            Err(e) => r matches Err(x) && x@ == e,
        },
{
    match reply {
        Err(_) => Err(failure.to_owned()),
        Ok(rpc) => {
            if let Some(err) = &rpc.error {
                return Err(rpc_error_text(err.message.as_str(), err.code));
            }
            match &rpc.result {
                None => Err("No result in JSON-RPC response".to_owned()),
                Some(d) => Ok(d),
            }
        },
    }
}

/// Reads whether a parsed MANAGE_CONNECTIONS payload asks for OAuth.
fn needs_oauth(toolkit: &str, data: &Json) -> (r: Option<String>)
    ensures
        match spec_needs_oauth(toolkit@, data.jv()) {
            Some(l) => r matches Some(x) && x@ == l,
            None => r is None,
        },
{
    let td = match data.get("data") {
        Some(d) => match d.get("results") {
            Some(res) => res.get(toolkit),
            None => None,
        },
        None => None,
    };
    let from_td: Option<String> = match td {
        Some(t) => {
            let link = match t.get_str("instruction") {
                Some(i) => find_oauth_link(i),
                None => None,
            };
            match link {
                Some(l) => Some(l),
                None => match t.get_str("redirect_url") {
                    Some(u) => Some(u.to_owned()),
                    None => None,
                },
            }
        },
        None => None,
    };
    match from_td {
        Some(l) => Some(l),
        None => match data.get_str("redirect_url") {
            Some(u) => Some(u.to_owned()),
            None => None,
        },
    }
}

/// Interprets a COMPOSIO_MANAGE_CONNECTIONS reply for a toolkit.
pub fn interpret_connection_reply(toolkit: &str, reply: &Result<JsonRpcResponse, String>) -> (r: Result<ConnectionStatus, String>)
    ensures
        connection_result_view(r) == spec_connection_reply(toolkit@, reply_view(*reply)),
{
    let rpc = match reply {
        Err(_) => {
            return Err("Failed to manage connections".to_owned());
        },
        Ok(rpc) => rpc,
    };
    if let Some(err) = &rpc.error {
        return Err(rpc_error_text(err.message.as_str(), err.code));
    }
    let data = match &rpc.result {
        None => {
            return Err("No result in JSON-RPC response".to_owned());
        },
        Some(d) => d,
    };
    let parsed = match data.content_text() {
        Some(t) => parse_json(t),
        None => None,
    };
    match &parsed {
        Some(p) => match needs_oauth(toolkit, p) {
            Some(l) => Ok(ConnectionStatus::NeedsOAuth(l)),
            None => Ok(ConnectionStatus::Connected),
        },
        None => Ok(ConnectionStatus::Connected),
    }
}

/// Fragments that mark an upload error as an access restriction.
pub open spec fn restriction_markers() -> Seq<Seq<char>> {
    seq!["path"@, "not_found"@, "restricted"@, "permission"@, "access"@]
}

/// The message when a Dropbox upload fails on an App Folder restriction.
pub open spec fn dropbox_limit_message(path: Seq<char>, error: Seq<char>) -> Seq<char> {
    "Dropbox Access Limitation: Failed to upload to "@ + path
        + "\n\nThe upload failed because your Dropbox connection is limited to App Folder access, which restricts uploads to specific folders only.\n\nI can fix this by reconnecting your Dropbox with Full Access, which will allow uploads to any folder in your Dropbox.\n\nWould you like me to reconnect with Full Access now? I'll need you to authorize in your browser, then I can retry the upload.\n\nOriginal error: "@
        + error
}

/// What an execution reply gives: the parsed payload, or why the execution
/// failed. A non-empty `error` fails it (with the App Folder explanation for a
/// restricted Dropbox upload); so does `successful: false` (with its `error`
/// or `message`, or `"Unknown error"`).
pub open spec fn spec_execution_reply(
    tool_slug: Seq<char>,
    arguments: JsonV,
    reply: Result<RpcView, Seq<char>>,
) -> Result<JsonV, Seq<char>> {
    match reply {
        Err(_) => Err("Failed to execute tool"@),
        Ok(v) => match v.error {
            Some((code, message)) => Err(rpc_error_message(message, code)),
            None => match v.result {
                None => Err("No result in JSON-RPC response"@),
                Some(data) => match match content_text(data) {
                    Some(t) => spec_parse_json(t),
                    None => None,
                } {
                    None => Err("Failed to parse execution response"@),
                    Some(p) => spec_check_execution(tool_slug, arguments, p),
                },
            },
        },
    }
}

/// The failure a non-empty `error` field reports, if any.
pub open spec fn spec_error_failure(tool_slug: Seq<char>, arguments: JsonV, p: JsonV) -> Option<Seq<char>> {
    match json_get_str(p, "error"@) {
        Some(err) => if err.len() > 0 {
            if contains_one_of(spec_to_lowercase(err), restriction_markers()) && tool_slug == "DROPBOX_UPLOAD_FILE"@ {
                Some(
                    dropbox_limit_message(
                        match json_get_str(arguments, "path"@) {
                            Some(x) => x,
                            None => "unknown path"@,
                        },
                        err,
                    ),
                )
            } else {
                Some("Tool execution failed: "@ + err)
            }
        } else {
            None
        },
        None => None,
    }
}

/// The failure `successful: false` reports, if any.
pub open spec fn spec_unsuccessful(p: JsonV) -> Option<Seq<char>> {
    match json_get(p, "successful"@) {
        Some(b) => if json_as_bool(b) == Some(false) {
            Some(
                "Tool execution failed: "@ + match match json_get_first_of(p, seq!["error"@, "message"@]) {
                    Some(x) => json_as_str(x),
                    None => None,
                } {
                    Some(m) => if m.len() > 0 {
                        m
                    } else {
                        "Unknown error"@
                    },
                    None => "Unknown error"@,
                },
            )
        } else {
            None
        },
        None => None,
    }
}

/// The failure checks on a parsed execution payload.
pub open spec fn spec_check_execution(tool_slug: Seq<char>, arguments: JsonV, p: JsonV) -> Result<JsonV, Seq<char>> {
    match spec_error_failure(tool_slug, arguments, p) {
        Some(m) => Err(m),
        None => match spec_unsuccessful(p) {
            Some(m) => Err(m),
            None => Ok(p),
        },
    }
}

/// An execution reported as failed is never a success: for a reply that
/// carries a payload, the execution succeeds exactly when the payload has no
/// non-empty `error` text and does not say `successful: false`, and then its
/// result is the payload itself. A payload that says `successful: false`
/// with no `error` fails with its `message` behind "Tool execution failed: ".
pub proof fn law_unsuccessful_executions_fail(
    tool_slug: Seq<char>,
    arguments: JsonV,
    v: RpcView,
    text: Seq<char>,
    p: JsonV,
    message: Seq<char>,
)
    requires
        v.error is None,
        v.result is Some,
        content_text(v.result->Some_0) == Some(text),
        spec_parse_json(text) == Some(p),
    ensures
        ({
            let out = spec_execution_reply(tool_slug, arguments, Ok(v));
            let error_text = json_get(p, "error"@) matches Some(JsonV::Str(e)) && e.len() > 0;
            let unsuccessful = json_get(p, "successful"@) == Some(JsonV::Bool(false));
            &&& unsuccessful ==> out is Err
            &&& error_text ==> out is Err
            &&& out is Ok <==> !error_text && !unsuccessful
            &&& out matches Ok(x) ==> x == p
            &&& unsuccessful && json_get(p, "error"@) is None && json_get(p, "message"@) == Some(JsonV::Str(message))
                && message.len() > 0 ==> out == Err::<JsonV, Seq<char>>("Tool execution failed: "@ + message)
        }),
{
    let out = spec_execution_reply(tool_slug, arguments, Ok(v));
    assert(out == spec_check_execution(tool_slug, arguments, p));
    lemma_error_failure_is_error_text(tool_slug, arguments, p);
    lemma_unsuccessful_is_successful_false(p, message);
}

/// A payload fails on its `error` exactly when that is a non-empty text.
proof fn lemma_error_failure_is_error_text(tool_slug: Seq<char>, arguments: JsonV, p: JsonV)
    ensures
        spec_error_failure(tool_slug, arguments, p) is Some <==> (json_get(p, "error"@) matches Some(JsonV::Str(e)) && e.len() > 0),
{
}

/// A payload fails as unsuccessful exactly when it says `successful: false`,
/// and with its `message` when it has no `error`.
proof fn lemma_unsuccessful_is_successful_false(p: JsonV, message: Seq<char>)
    ensures
        spec_unsuccessful(p) is Some <==> json_get(p, "successful"@) == Some(JsonV::Bool(false)),
        json_get(p, "successful"@) == Some(JsonV::Bool(false)) && json_get(p, "error"@) is None && json_get(p, "message"@)
            == Some(JsonV::Str(message)) && message.len() > 0 ==> spec_unsuccessful(p) == Some("Tool execution failed: "@ + message),
{
    reveal_with_fuel(json_get_first_of, 3);
    assert(seq!["error"@, "message"@].drop_first() =~= seq!["message"@]);
    assert(seq!["message"@].drop_first() =~= Seq::<Seq<char>>::empty());
}

/// The view of an execution's result.
pub open spec fn execution_view(r: Result<Json, String>) -> Result<JsonV, Seq<char>> {
    match r {
        Ok(j) => Ok(j.jv()),
        Err(e) => Err(e@),
    }
}

/// Concatenates two texts.
fn concat2(a: &str, b: &str) -> (r: String)
    ensures
        r@ == a@ + b@,
{
    let mut v: Vec<char> = Vec::new();
    append_str(&mut v, a);
    append_str(&mut v, b);
    string_from_chars(v.as_slice())
}

/// The failure a non-empty `error` field reports, if any.
fn error_failure(tool_slug: &str, arguments: &Json, p: &Json) -> (r: Option<String>)
    ensures
        match spec_error_failure(tool_slug@, arguments.jv(), p.jv()) {
            Some(m) => r matches Some(x) && x@ == m,
            None => r is None,
        },
{
    let err = match p.get_str("error") {
        Some(e) => e,
        None => {
            return None;
        },
    };
    if err.is_empty() {
        return None;
    }
    let low = to_lowercase(err);
    let c = chars_of(low.as_str());
    let markers: [&str; 5] = ["path", "not_found", "restricted", "permission", "access"];
    proof {
        assert forall|k: int| 0 <= k < 5 implies #[trigger] markers@[k]@ == restriction_markers()[k] by {}
    }
    let restricted = contains_keyword(c.as_slice(), markers.as_slice(), Ghost(restriction_markers()));
    if restricted && crate::text::str_eq(tool_slug, "DROPBOX_UPLOAD_FILE") {
        let path: String = match arguments.get_str("path") {
            Some(x) => x.to_owned(),
            None => "unknown path".to_owned(),
        };
        let head = concat2("Dropbox Access Limitation: Failed to upload to ", path.as_str());
        let mid = concat2(head.as_str(), "\n\nThe upload failed because your Dropbox connection is limited to App Folder access, which restricts uploads to specific folders only.\n\nI can fix this by reconnecting your Dropbox with Full Access, which will allow uploads to any folder in your Dropbox.\n\nWould you like me to reconnect with Full Access now? I'll need you to authorize in your browser, then I can retry the upload.\n\nOriginal error: ");
        return Some(concat2(mid.as_str(), err));
    }
    Some(concat2("Tool execution failed: ", err))
}

/// The failure `successful: false` reports, if any.
fn unsuccessful(p: &Json) -> (r: Option<String>)
    ensures
        match spec_unsuccessful(p.jv()) {
            Some(m) => r matches Some(x) && x@ == m,
            None => r is None,
        },
{
    let failed = match p.get("successful") {
        Some(b) => b.as_bool() == Some(false),
        None => false,
    };
    if !failed {
        return None;
    }
    let keys: [&str; 2] = ["error", "message"];
    proof {
        assert(key_texts(keys@) =~= seq!["error"@, "message"@]);
    }
    let msg: String = match get_first_of(p, keys.as_slice()) {
        Some(x) => match x.as_str() {
            Some(m) => if m.is_empty() {
                "Unknown error".to_owned()
            } else {
                m.to_owned()
            },
            None => "Unknown error".to_owned(),
        },
        None => "Unknown error".to_owned(),
    };
    Some(concat2("Tool execution failed: ", msg.as_str()))
}

/// The failure checks on a parsed execution payload.
fn check_execution(tool_slug: &str, arguments: &Json, p: Json) -> (r: Result<Json, String>)
    ensures
        execution_view(r) == spec_check_execution(tool_slug@, arguments.jv(), p.jv()),
{
    match error_failure(tool_slug, arguments, &p) {
        Some(m) => Err(m),
        None => match unsuccessful(&p) {
            Some(m) => Err(m),
            None => Ok(p),
        },
    }
}

/// Interprets a COMPOSIO_MULTI_EXECUTE_TOOL reply for a tool run with
/// `arguments`.
pub fn interpret_execution_reply(tool_slug: &str, arguments: &Json, reply: &Result<JsonRpcResponse, String>) -> (r: Result<Json, String>)
    ensures
        execution_view(r) == spec_execution_reply(tool_slug@, arguments.jv(), reply_view(*reply)),
{
    let rpc = match reply {
        Err(_) => {
            return Err("Failed to execute tool".to_owned());
        },
        Ok(rpc) => rpc,
    };
    if let Some(err) = &rpc.error {
        return Err(rpc_error_text(err.message.as_str(), err.code));
    }
    let data = match &rpc.result {
        None => {
            return Err("No result in JSON-RPC response".to_owned());
        },
        Some(d) => d,
    };
    let parsed = match data.content_text() {
        Some(t) => parse_json(t),
        None => None,
    };
    match parsed {
        None => Err("Failed to parse execution response".to_owned()),
        Some(p) => check_execution(tool_slug, arguments, p),
    }
}

/// An execution kept for attachment context: the tool, its arguments as
/// compact JSON, and the parsed payload.
#[derive(Debug)]
pub struct HistoryEntry {
    pub tool_slug: String,
    pub arguments: String,
    pub result: Json,
}

/// What a history entry holds, as values.
pub struct HistoryEntryView {
    pub tool_slug: Seq<char>,
    pub arguments: Seq<char>,
    pub result: JsonV,
}

impl View for HistoryEntry {
    type V = HistoryEntryView;

    open spec fn view(&self) -> HistoryEntryView {
        HistoryEntryView { tool_slug: self.tool_slug@, arguments: self.arguments@, result: self.result.jv() }
    }
}

/// Number of executions kept for attachment context.
pub const EXECUTION_HISTORY_LIMIT: usize = 10;

/// The last `EXECUTION_HISTORY_LIMIT` entries of a sequence.
pub open spec fn last_ten(s: Seq<HistoryEntryView>) -> Seq<HistoryEntryView> {
    if s.len() > EXECUTION_HISTORY_LIMIT {
        s.subrange(s.len() - EXECUTION_HISTORY_LIMIT, s.len() as int)
    } else {
        s
    }
}

/// The execution history never holds more than ten entries, and the entry
/// recorded last is the newest one kept.
pub proof fn law_history_keeps_the_last_ten(h: Seq<HistoryEntryView>, e: HistoryEntryView)
    ensures
        h.len() < EXECUTION_HISTORY_LIMIT ==> last_ten(h.push(e)) == h.push(e),
        h.len() >= EXECUTION_HISTORY_LIMIT ==> last_ten(h.push(e)).len() == EXECUTION_HISTORY_LIMIT,
        last_ten(h.push(e)).last() == e,
{
}

/// A tool whose payload may describe a downloaded file.
pub open spec fn is_download_slug(slug: Seq<char>) -> bool {
    seq_contains(slug, "READ_FILE"@) || seq_contains(slug, "DOWNLOAD"@) || seq_contains(slug, "GET_FILE"@)
}

/// The `response.data.content` of a result item.
pub open spec fn item_content(item: JsonV) -> Option<JsonV> {
    match json_get(item, "response"@) {
        Some(r) => match json_get(r, "data"@) {
            Some(d) => json_get(d, "content"@),
            None => None,
        },
        None => None,
    }
}

/// A text field, or a default.
pub open spec fn str_or(v: JsonV, key: Seq<char>, default: Seq<char>) -> Seq<char> {
    match json_get_str(v, key) {
        Some(s) => s,
        None => default,
    }
}

/// The context line of a downloaded file.
pub open spec fn file_line(content: JsonV) -> Seq<char> {
    let key = match json_get_str(content, "s3key"@) {
        Some(k) => k,
        None => str_or(content, "s3url"@, "unknown"@),
    };
    "- File downloaded: name=\""@ + str_or(content, "name"@, "unknown"@) + "\", mimetype=\""@ + str_or(
        content,
        "mimetype"@,
        "application/octet-stream"@,
    ) + "\", s3key=\""@ + key + "\""@
}

/// The lines of the result items that carry file content.
pub open spec fn item_lines(items: Seq<JsonV>) -> Seq<Seq<char>>
    decreases items.len(),
{
    if items.len() == 0 {
        Seq::empty()
    } else {
        let prev = item_lines(items.drop_last());
        match item_content(items.last()) {
            Some(c) => prev.push(file_line(c)),
            None => prev,
        }
    }
}

/// The lines an execution contributes: the files in `data.results` of a
/// download tool's payload.
pub open spec fn entry_lines(e: HistoryEntryView) -> Seq<Seq<char>> {
    if is_download_slug(e.tool_slug) {
        match json_get(e.result, "data"@) {
            Some(d) => match json_get(d, "results"@) {
                Some(JsonV::Array(items)) => item_lines(items),
                _ => Seq::empty(),
            },
            None => Seq::empty(),
        }
    } else {
        Seq::empty()
    }
}

/// The lines of the entries, in the given order.
pub open spec fn all_lines(es: Seq<HistoryEntryView>) -> Seq<Seq<char>>
    decreases es.len(),
{
    if es.len() == 0 {
        Seq::empty()
    } else {
        all_lines(es.drop_last()) + entry_lines(es.last())
    }
}

/// The lines joined by newlines.
pub open spec fn join_lines(ls: Seq<Seq<char>>) -> Seq<char>
    decreases ls.len(),
{
    if ls.len() == 0 {
        Seq::empty()
    } else if ls.len() == 1 {
        ls[0]
    } else {
        join_lines(ls.drop_last()) + "\n"@ + ls.last()
    }
}

/// The (up to five) most recent entries, newest first.
pub open spec fn recent_five(h: Seq<HistoryEntryView>) -> Seq<HistoryEntryView> {
    let n = if h.len() < 5 { h.len() as int } else { 5 };
    Seq::new(n as nat, |i: int| h[h.len() - 1 - i])
}

/// The attachment context: the files the five most recent executions
/// downloaded, newest first, under a heading; empty when there are none.
pub open spec fn spec_attachment_context(h: Seq<HistoryEntryView>) -> Seq<char> {
    let lines = all_lines(recent_five(h));
    if lines.len() == 0 {
        Seq::empty()
    } else {
        "\n\nRECENT FILE DOWNLOADS (for attachment context):\n"@ + join_lines(lines) + "\n"@
    }
}

/// What `serde_json::Value`'s compact `Display` writes, by way of the named
/// serializer.
fn compact(j: &Json) -> (r: String)
    ensures
        r@ == crate::json::spec_json_compact(j.jv()),
{
    crate::json::json_compact(j)
}

/// The context line of a downloaded file.
fn file_line_of(content: &Json) -> (r: String)
    ensures
        r@ == file_line(content.jv()),
{
    let name: String = match content.get_str("name") {
        Some(s) => s.to_owned(),
        None => "unknown".to_owned(),
    };
    let mt: String = match content.get_str("mimetype") {
        Some(s) => s.to_owned(),
        None => "application/octet-stream".to_owned(),
    };
    let key: String = match content.get_str("s3key") {
        Some(k) => k.to_owned(),
        None => match content.get_str("s3url") {
            Some(u) => u.to_owned(),
            None => "unknown".to_owned(),
        },
    };
    let mut v: Vec<char> = Vec::new();
    append_str(&mut v, "- File downloaded: name=\"");
    append_str(&mut v, name.as_str());
    append_str(&mut v, "\", mimetype=\"");
    append_str(&mut v, mt.as_str());
    append_str(&mut v, "\", s3key=\"");
    append_str(&mut v, key.as_str());
    append_str(&mut v, "\"");
    string_from_chars(v.as_slice())
}

/// The texts of a list of strings.
pub open spec fn texts(v: Seq<String>) -> Seq<Seq<char>> {
    v.map_values(|x: String| x@)
}

/// The values of a list of documents.
pub open spec fn values(v: Seq<Json>) -> Seq<JsonV> {
    v.map_values(|x: Json| x.jv())
}

/// The `response.data.content` of a result item.
fn content_of(item: &Json) -> (r: Option<&Json>)
    ensures
        crate::json::opt_jv(r) == item_content(item.jv()),
{
    match item.get("response") {
        Some(r) => match r.get("data") {
            Some(d) => d.get("content"),
            None => None,
        },
        None => None,
    }
}

/// The lines of the result items that carry file content.
fn item_lines_of(list: &Vec<Json>) -> (r: Vec<String>)
    ensures
        texts(r@) == item_lines(values(list@)),
{
    let ghost sitems = values(list@);
    let mut out: Vec<String> = Vec::new();
    let mut i: usize = 0;
    while i < list.len()
        invariant
            i <= list@.len(),
            sitems == values(list@),
            texts(out@) == item_lines(sitems.subrange(0, i as int)),
        decreases list.len() - i,
    {
        proof {
            assert(sitems.subrange(0, i + 1).drop_last() =~= sitems.subrange(0, i as int));
            assert(sitems.subrange(0, i + 1).last() == list@[i as int].jv());
        }
        let ghost before = texts(out@);
        match content_of(&list[i]) {
            Some(c) => {
                let line = file_line_of(c);
                let ghost lv = line@;
                out.push(line);
                assert(texts(out@) =~= before.push(lv));
            },
            None => {},
        }
        i = i + 1;
    }
    proof {
        assert(sitems.subrange(0, list@.len() as int) =~= sitems);
    }
    out
}

/// Appends copies of `more` to `lines`.
fn append_texts(lines: &mut Vec<String>, more: &Vec<String>)
    ensures
        texts(final(lines)@) == texts(old(lines)@) + texts(more@),
{
    let ghost before = texts(lines@);
    let mut j: usize = 0;
    while j < more.len()
        invariant
            j <= more@.len(),
            texts(lines@) == before + texts(more@.subrange(0, j as int)),
        decreases more.len() - j,
    {
        let ghost l0 = texts(lines@);
        lines.push(more[j].clone());
        proof {
            assert(texts(lines@) =~= l0.push(more@[j as int]@));
            assert(texts(more@.subrange(0, j + 1)) =~= texts(more@.subrange(0, j as int)).push(more@[j as int]@));
            assert(texts(lines@) =~= before + texts(more@.subrange(0, j + 1)));
        }
        j = j + 1;
    }
    proof {
        assert(more@.subrange(0, more@.len() as int) =~= more@);
    }
}

/// The lines an execution contributes.
fn entry_lines_of(e: &HistoryEntry) -> (r: Vec<String>)
    ensures
        texts(r@) == entry_lines(e@),
{
    let slug = e.tool_slug.as_str();
    let download = str_contains(slug, "READ_FILE") || str_contains(slug, "DOWNLOAD") || str_contains(slug, "GET_FILE");
    let empty: Vec<String> = Vec::new();
    assert(texts(empty@) =~= Seq::<Seq<char>>::empty());
    if !download {
        return empty;
    }
    let items = match e.result.get("data") {
        Some(d) => d.get("results"),
        None => None,
    };
    match items {
        Some(arr) => match arr {
            Json::Array(list) => {
                proof {
                    assert(arr.jv()->Array_0 =~= values(list@));
                }
                item_lines_of(list)
            },
            _ => empty,
        },
        None => empty,
    }
}

/// Recent executions, kept for attachment context.
pub struct ExecutionHistory {
    entries: Vec<HistoryEntry>,
}

impl ExecutionHistory {
    /// The entries, oldest first.
    pub closed spec fn spec_entries(self) -> Seq<HistoryEntryView> {
        self.entries@.map_values(|e: HistoryEntry| e@)
    }

    /// An empty history.
    pub fn new() -> (h: Self)
        ensures
            h.spec_entries().len() == 0,
    {
        ExecutionHistory { entries: Vec::new() }
    }

    /// Number of entries.
    pub fn len(&self) -> (n: usize)
        ensures
            n == self.spec_entries().len(),
    {
        self.entries.len()
    }

    /// Records a successful execution, keeping the last ten.
    pub fn record(&mut self, tool_slug: &str, arguments: &Json, result: &Json)
        ensures
            final(self).spec_entries() == last_ten(
                old(self).spec_entries().push(
                    HistoryEntryView {
                        tool_slug: tool_slug@,
                        arguments: crate::json::spec_json_compact(arguments.jv()),
                        result: result.jv(),
                    },
                ),
            ),
    {
        let e = HistoryEntry { tool_slug: tool_slug.to_owned(), arguments: compact(arguments), result: result.deep_clone() };
        let ghost pushed = self.spec_entries().push(e@);
        self.entries.push(e);
        assert(self.entries@.map_values(|e: HistoryEntry| e@) =~= pushed);
        assert(pushed.subrange(0, pushed.len() as int) =~= pushed);
        while self.entries.len() > EXECUTION_HISTORY_LIMIT
            invariant
                self.entries@.len() <= pushed.len(),
                self.entries@.len() >= (if pushed.len() < EXECUTION_HISTORY_LIMIT { pushed.len() as int } else { EXECUTION_HISTORY_LIMIT as int }),
                self.entries@.map_values(|e: HistoryEntry| e@) =~= pushed.subrange(pushed.len() - self.entries@.len(), pushed.len() as int),
            decreases self.entries@.len(),
        {
            let ghost before = self.entries@;
            let ghost bm = before.map_values(|e: HistoryEntry| e@);
            self.entries.remove(0);
            proof {
                assert(self.entries@ =~= before.subrange(1, before.len() as int));
                let am = self.entries@.map_values(|e: HistoryEntry| e@);
                assert(am =~= bm.subrange(1, bm.len() as int));
                assert(am =~= pushed.subrange(pushed.len() - self.entries@.len(), pushed.len() as int));
            }
        }
        proof {
            if pushed.len() <= EXECUTION_HISTORY_LIMIT {
                assert(pushed.subrange(0, pushed.len() as int) =~= pushed);
            }
        }
    }

    /// Forgets every entry.
    pub fn clear(&mut self)
        ensures
            final(self).spec_entries().len() == 0,
    {
        self.entries = Vec::new();
    }

    /// The attachment context of the recent downloads.
    pub fn attachment_context(&self) -> (r: String)
        ensures
            r@ == spec_attachment_context(self.spec_entries()),
    {
        let ghost h = self.spec_entries();
        let n = self.entries.len();
        let take: usize = if n < 5 {
            n
        } else {
            5
        };
        let ghost recent = recent_five(h);
        let mut lines: Vec<String> = Vec::new();
        let mut k: usize = 0;
        while k < take
            invariant
                n == self.entries@.len(),
                h == self.spec_entries(),
                take == recent.len(),
                recent == recent_five(h),
                k <= take,
                texts(lines@) == all_lines(recent.subrange(0, k as int)),
            decreases take - k,
        {
            let e = &self.entries[n - 1 - k];
            proof {
                assert(recent[k as int] == h[n - 1 - k]);
                assert(h[n - 1 - k] == self.entries@[n - 1 - k]@);
                assert(recent.subrange(0, k + 1).drop_last() =~= recent.subrange(0, k as int));
            }
            let more = entry_lines_of(e);
            append_texts(&mut lines, &more);
            k = k + 1;
        }
        proof {
            assert(recent.subrange(0, take as int) =~= recent);
        }
        if lines.len() == 0 {
            proof {
                reveal_strlit("");
            }
            return "".to_owned();
        }
        let ghost ls = texts(lines@);
        let mut v: Vec<char> = Vec::new();
        append_str(&mut v, "\n\nRECENT FILE DOWNLOADS (for attachment context):\n");
        let ghost start = v@;
        append_str(&mut v, lines[0].as_str());
        let mut i: usize = 1;
        while i < lines.len()
            invariant
                1 <= i <= lines@.len(),
                ls == texts(lines@),
                v@ == start + join_lines(ls.subrange(0, i as int)),
            decreases lines.len() - i,
        {
            proof {
                assert(ls.subrange(0, i + 1).drop_last() =~= ls.subrange(0, i as int));
            }
            append_str(&mut v, "\n");
            append_str(&mut v, lines[i].as_str());
            proof {
                assert(v@ =~= start + join_lines(ls.subrange(0, i + 1)));
            }
            i = i + 1;
        }
        proof {
            assert(ls.subrange(0, lines@.len() as int) =~= ls);
        }
        append_str(&mut v, "\n");
        string_from_chars(v.as_slice())
    }
}

/// Content to stage before a Dropbox upload: what the argument extraction
/// left under the staging markers.
#[derive(Debug)]
pub struct StageRequest {
    pub content: String,
    pub filename: String,
    pub mimetype: Option<String>,
}

/// The staging request a DROPBOX_UPLOAD_FILE run carries: its staged
/// content, filename (`"file.txt"` when absent) and mimetype.
pub open spec fn spec_stage_request(tool_slug: Seq<char>, args: JsonV) -> Option<(Seq<char>, Seq<char>, Option<Seq<char>>)> {
    if tool_slug == "DROPBOX_UPLOAD_FILE"@ {
        match json_get_str(args, "_zeroclaw_stage_content"@) {
            Some(c) => Some(
                (c, str_or(args, "_zeroclaw_stage_filename"@, "file.txt"@), json_get_str(args, "_zeroclaw_stage_mimetype"@)),
            ),
            None => None,
        }
    } else {
        None
    }
}

/// The staging request of a run, if it has one.
pub fn stage_request(tool_slug: &str, args: &Json) -> (r: Option<StageRequest>)
    ensures
        match spec_stage_request(tool_slug@, args.jv()) {
            Some((c, f, m)) => r matches Some(q) && q.content@ == c && q.filename@ == f && match q.mimetype {
                Some(x) => m == Some(x@),
                None => m is None,
            },
            None => r is None,
        },
{
    if !crate::text::str_eq(tool_slug, "DROPBOX_UPLOAD_FILE") {
        return None;
    }
    match args.get_str("_zeroclaw_stage_content") {
        Some(c) => {
            let filename: String = match args.get_str("_zeroclaw_stage_filename") {
                Some(f) => f.to_owned(),
                None => "file.txt".to_owned(),
            };
            let mimetype: Option<String> = match args.get_str("_zeroclaw_stage_mimetype") {
                Some(m) => Some(m.to_owned()),
                None => None,
            };
            Some(StageRequest { content: c.to_owned(), filename, mimetype })
        },
        None => None,
    }
}

/// The entries without `key`, in order.
pub open spec fn without_key(es: Seq<(Seq<char>, JsonV)>, key: Seq<char>) -> Seq<(Seq<char>, JsonV)>
    decreases es.len(),
{
    if es.len() == 0 {
        Seq::empty()
    } else {
        let prev = without_key(es.drop_last(), key);
        if es.last().0 != key {
            prev.push(es.last())
        } else {
            prev
        }
    }
}

/// The staging markers.
pub open spec fn without_markers(es: Seq<(Seq<char>, JsonV)>) -> Seq<(Seq<char>, JsonV)> {
    without_key(without_key(without_key(es, "_zeroclaw_stage_content"@), "_zeroclaw_stage_filename"@), "_zeroclaw_stage_mimetype"@)
}

/// Removes the entries with `key`.
fn remove_key(es: Vec<(String, Json)>, key: &str) -> (r: Vec<(String, Json)>)
    ensures
        entries_view(r@) == without_key(entries_view(es@), key@),
{
    let ghost s = entries_view(es@);
    let mut out: Vec<(String, Json)> = Vec::new();
    let mut src = es;
    let ghost orig = src@;
    let mut i: usize = 0;
    let n = src.len();
    while i < n
        invariant
            n == orig.len(),
            i <= n,
            src@.len() == n - i,
            forall|k: int| 0 <= k < src@.len() ==> #[trigger] src@[k] == orig[k + i],
            s == entries_view(orig),
            entries_view(out@) == without_key(s.subrange(0, i as int), key@),
        decreases n - i,
    {
        let e = src.remove(0);
        proof {
            assert(s.subrange(0, i + 1).drop_last() =~= s.subrange(0, i as int));
            assert(s[i as int] == (e.0@, e.1.jv()));
        }
        let ghost before = entries_view(out@);
        if !crate::text::str_eq(e.0.as_str(), key) {
            let ghost ev = (e.0@, e.1.jv());
            out.push(e);
            assert(entries_view(out@) =~= before.push(ev));
        }
        i = i + 1;
    }
    proof {
        assert(s.subrange(0, n as int) =~= s);
    }
    out
}

/// What the arguments become once staging is over: the markers removed and,
/// when staging gave a file key, `content` set to the uploaded file (its
/// name, mimetype or `"text/plain"`, and key).
pub open spec fn spec_after_staging(
    es: Seq<(Seq<char>, JsonV)>,
    filename: Seq<char>,
    mimetype: Option<Seq<char>>,
    staged: Result<Seq<char>, Seq<char>>,
) -> Seq<(Seq<char>, JsonV)> {
    let base = without_markers(es);
    match staged {
        Ok(key) => crate::observability::object_set(base, "content"@, staged_file(filename, mimetype, key)),
        Err(_) => base,
    }
}

/// The uploaded file as a `content` value: its name, mimetype
/// (`"text/plain"` when absent) and key.
pub open spec fn staged_file(filename: Seq<char>, mimetype: Option<Seq<char>>, key: Seq<char>) -> JsonV {
    JsonV::Object(
        seq![
            ("name"@, JsonV::Str(filename)),
            ("mimetype"@, JsonV::Str(match mimetype {
                Some(m) => m,
                None => "text/plain"@,
            })),
            ("s3key"@, JsonV::Str(key)),
        ],
    )
}

/// The arguments once staging is over.
pub fn apply_staging(arguments: Json, request: &StageRequest, staged: &Result<String, String>) -> (r: Json)
    requires
        arguments.jv() is Object,
    ensures
        r.jv() == JsonV::Object(
            spec_after_staging(
                arguments.jv()->Object_0,
                request.filename@,
                match request.mimetype {
                    Some(m) => Some(m@),
                    None => None,
                },
                match staged {
                    Ok(k) => Ok(k@),
                    Err(e) => Err(e@),
                },
            ),
        ),
{
    let ghost orig = arguments.jv()->Object_0;
    let es = match arguments {
        Json::Object(es) => es,
        _ => Vec::new(),
    };
    assert(entries_view(es@) =~= orig);
    let a = remove_key(es, "_zeroclaw_stage_content");
    let b = remove_key(a, "_zeroclaw_stage_filename");
    let mut c = remove_key(b, "_zeroclaw_stage_mimetype");
    let ghost base = without_markers(orig);
    assert(entries_view(c@) == base);
    match staged {
        Ok(key) => {
            let mt: &str = match &request.mimetype {
                Some(m) => m.as_str(),
                None => "text/plain",
            };
            let v1 = Json::string(request.filename.as_str());
            let v2 = Json::string(mt);
            let v3 = Json::string(key.as_str());
            let k1 = "name".to_owned();
            let k2 = "mimetype".to_owned();
            let k3 = "s3key".to_owned();
            let ghost mv = match &request.mimetype {
                Some(m) => Some(m@),
                None => None,
            };
            let ghost want = staged_file(request.filename@, mv, key@);
            let file = Json::Object(vec![(k1, v1), (k2, v2), (k3, v3)]);
            proof {
                assert(file.jv()->Object_0 =~= want->Object_0);
            }
            let content_key = "content".to_owned();
            let ghost before = c@;
            crate::observability::set_entry(&mut c, content_key, file);
            proof {
                assert(before.map_values(|e: (String, Json)| (e.0@, e.1.jv())) =~= entries_view(before));
                assert(c@.map_values(|e: (String, Json)| (e.0@, e.1.jv())) =~= entries_view(c@));
            }
        },
        Err(_) => {},
    }
    let r = Json::Object(c);
    proof {
        assert(r.jv()->Object_0 =~= entries_view(c@));
    }
    r
}


/// The upload-URL request for staged text: its UTF-8 bytes, under the file
/// name, with the mimetype (`"text/plain"` when absent).
pub fn stage_text_payload(content: &str, filename: &str, mimetype: Option<&str>) -> (r: Json)
    ensures
        r.jv() == upload_request(
            filename@,
            match mimetype {
                Some(m) => m@,
                None => "text/plain"@,
            },
            spec_md5_hex(encode_utf8(content@)),
        ),
{
    let mt = match mimetype {
        Some(m) => m,
        None => "text/plain",
    };
    let bytes = content.as_bytes_vec();
    upload_request_payload(bytes.as_slice(), filename, mt)
}

/// Office file extensions.
pub open spec fn office_extensions() -> Seq<Seq<char>> {
    seq![".xlsx"@, ".xls"@, ".docx"@, ".doc"@, ".pptx"@, ".ppt"@]
}

/// Keywords of edit operations.
pub open spec fn edit_keywords() -> Seq<Seq<char>> {
    seq!["edit"@, "add"@, "modify"@, "update"@, "change"@, "append"@, "insert"@, "delete row"@, "delete column"@]
}

/// A query edits an Office file: its lowercase form names an Office file
/// extension and an edit operation.
pub open spec fn spec_office_edit(query: Seq<char>) -> bool {
    names_office_edit(spec_to_lowercase(query))
}

/// A lowercase query names an Office file extension and an edit operation.
pub open spec fn names_office_edit(lower: Seq<char>) -> bool {
    contains_one_of(lower, office_extensions()) && contains_one_of(lower, edit_keywords())
}

/// Whether a query edits an Office file (and so goes to the workbench).
pub fn is_office_edit(query: &str) -> (r: bool)
    ensures
        r == spec_office_edit(query@),
{
    let lower = to_lowercase(query);
    office_edit_in(lower.as_str())
}

/// Whether a lowercase query names an Office file and an edit operation.
pub fn office_edit_in(lower: &str) -> (r: bool)
    ensures
        r == names_office_edit(lower@),
{
    let c = chars_of(lower);
    let exts: [&str; 6] = [".xlsx", ".xls", ".docx", ".doc", ".pptx", ".ppt"];
    let edits: [&str; 9] = ["edit", "add", "modify", "update", "change", "append", "insert", "delete row", "delete column"];
    proof {
        assert forall|k: int| 0 <= k < 6 implies #[trigger] exts@[k]@ == office_extensions()[k] by {}
        assert forall|k: int| 0 <= k < 9 implies #[trigger] edits@[k]@ == edit_keywords()[k] by {}
    }
    contains_keyword(c.as_slice(), exts.as_slice(), Ghost(office_extensions())) && contains_keyword(
        c.as_slice(),
        edits.as_slice(),
        Ghost(edit_keywords()),
    )
}

/// Parameters of a workbench run of code in a fresh session.
pub fn office_workbench_params(code: &str) -> (r: Json)
    ensures
        r.jv() == JsonV::Object(
            seq![
                ("code_to_execute"@, JsonV::Str(code@)),
                ("session"@, JsonV::Object(seq![("generate_id"@, JsonV::Bool(true))])),
            ],
        ),
{
    let flag = Json::Bool(true);
    assert(flag.jv() == JsonV::Bool(true));
    let session = Json::Object(vec![("generate_id".to_owned(), flag)]);
    proof {
        assert(session.jv()->Object_0 =~= seq![("generate_id"@, JsonV::Bool(true))]);
    }
    let ghost sj = session.jv();
    let r = Json::Object(vec![("code_to_execute".to_owned(), Json::string(code)), ("session".to_owned(), session)]);
    proof {
        assert(r.jv()->Object_0 =~= seq![("code_to_execute"@, JsonV::Str(code@)), ("session"@, sj)]);
    }
    r
}

/// The output of a workbench payload: `data.output`, else `data` or the whole
/// payload pretty-printed.
pub open spec fn spec_office_output(p: JsonV) -> Seq<char> {
    match json_get(p, "data"@) {
        Some(d) => match json_get_str(d, "output"@) {
            Some(o) => o,
            None => crate::json::spec_json_pretty(d),
        },
        None => crate::json::spec_json_pretty(p),
    }
}

/// What an Office workbench reply gives: the output, or why it failed.
pub open spec fn spec_office_reply(reply: Result<RpcView, Seq<char>>) -> Result<Seq<char>, Seq<char>> {
    match reply {
        Err(_) => Err("Failed to call COMPOSIO_REMOTE_WORKBENCH"@),
        Ok(v) => match v.error {
            Some((code, message)) => Err(rpc_error_message(message, code)),
            None => match v.result {
                None => Err("No result in JSON-RPC response"@),
                Some(data) => match match content_text(data) {
                    Some(t) => spec_parse_json(t),
                    None => None,
                } {
                    None => Err("Failed to parse Workbench response"@),
                    Some(p) => Ok(spec_office_output(p)),
                },
            },
        },
    }
}

/// Interprets the reply to an Office workbench run: its output as a
/// successful tool result.
pub fn interpret_office_reply(reply: &Result<JsonRpcResponse, String>) -> (r: Result<crate::tool_result::ToolResult, String>)
    ensures
        match spec_office_reply(reply_view(*reply)) {
            Ok(o) => r matches Ok(t) && t@ == (crate::tool_result::ToolResultView { success: true, output: o, error: None }),
            Err(e) => r matches Err(x) && x@ == e,
        },
{
    let rpc = match reply {
        Err(_) => {
            return Err("Failed to call COMPOSIO_REMOTE_WORKBENCH".to_owned());
        },
        Ok(rpc) => rpc,
    };
    if let Some(err) = &rpc.error {
        return Err(rpc_error_text(err.message.as_str(), err.code));
    }
    let data = match &rpc.result {
        None => {
            return Err("No result in JSON-RPC response".to_owned());
        },
        Some(d) => d,
    };
    let parsed = match data.content_text() {
        Some(t) => parse_json(t),
        None => None,
    };
    match &parsed {
        None => Err("Failed to parse Workbench response".to_owned()),
        Some(p) => {
            let output = match p.get("data") {
                Some(d) => match d.get_str("output") {
                    Some(o) => o.to_owned(),
                    None => crate::json::json_pretty(d),
                },
                None => crate::json::json_pretty(p),
            };
            Ok(crate::tool_result::ToolResult { success: true, output, error: None })
        },
    }
}

/// Excel template text before the file path.
pub const EXCEL_HEAD: &'static str = r#"
# Download Excel file from Dropbox
file_path = ""#;

/// Excel template text between the file path and the query.
pub const EXCEL_MID: &'static str = r#""
download_result = run_composio_tool("DROPBOX_READ_FILE", {"path": file_path})

# Extract s3key from download result
s3key = download_result.get("content", {}).get("s3key")
if not s3key:
    print("Error: Failed to download file")
else:
    # Download file locally
    import requests
    response = requests.get(s3key)
    local_path = "/tmp/temp_file.xlsx"
    with open(local_path, "wb") as f:
        f.write(response.content)
    
    # Load existing workbook (PRESERVES CONTENT)
    from openpyxl import load_workbook
    wb = load_workbook(local_path)
    ws = wb.active
    
    # Make edits based on query: "#;

/// Excel template text after the query.
pub const EXCEL_TAIL: &'static str = r#"
    # Example: Add 3 rows with sample data
    next_row = ws.max_row + 1
    for i in range(3):
        ws.cell(row=next_row + i, column=1, value=f"Item {i+1}")
        ws.cell(row=next_row + i, column=2, value=f"Value {i+1}")
    
    # Save modified file
    output_path = "/tmp/modified_file.xlsx"
    wb.save(output_path)
    
    # Upload back to Dropbox
    s3key_upload = upload_local_file(output_path)
    upload_result = run_composio_tool("DROPBOX_UPLOAD_FILE", {
        "path": file_path,
        "content": {
            "name": file_path.split("/")[-1],
            "mimetype": "application/vnd.openxmlformats-officedocument.spreadsheetml.sheet",
            "s3key": s3key_upload
        },
        "mode": "overwrite"
    })
    
    print(f"File updated successfully: {file_path}")
"#;

/// Word template text before the file path.
pub const WORD_HEAD: &'static str = r#"
# Download Word file from Dropbox
file_path = ""#;

/// Word template text between the file path and the query.
pub const WORD_MID: &'static str = r#""
download_result = run_composio_tool("DROPBOX_READ_FILE", {"path": file_path})

# Extract s3key from download result
s3key = download_result.get("content", {}).get("s3key")
if not s3key:
    print("Error: Failed to download file")
else:
    # Download file locally
    import requests
    response = requests.get(s3key)
    local_path = "/tmp/temp_file.docx"
    with open(local_path, "wb") as f:
        f.write(response.content)
    
    # Load existing document (PRESERVES CONTENT)
    from docx import Document
    doc = Document(local_path)
    
    # Make edits based on query: "#;

/// Word template text after the query.
pub const WORD_TAIL: &'static str = r#"
    # Example: Add paragraphs
    doc.add_paragraph("Content added by Workbench")
    
    # Save modified file
    output_path = "/tmp/modified_file.docx"
    doc.save(output_path)
    
    # Upload back to Dropbox
    s3key_upload = upload_local_file(output_path)
    upload_result = run_composio_tool("DROPBOX_UPLOAD_FILE", {
        "path": file_path,
        "content": {
            "name": file_path.split("/")[-1],
            "mimetype": "application/vnd.openxmlformats-officedocument.wordprocessingml.document",
            "s3key": s3key_upload
        },
        "mode": "overwrite"
    })
    
    print(f"File updated successfully: {file_path}")
"#;

/// Whether the lowercase query names an Excel file.
pub open spec fn spec_is_excel(query: Seq<char>) -> bool {
    seq_contains(spec_to_lowercase(query), ".xlsx"@) || seq_contains(spec_to_lowercase(query), ".xls"@)
}

/// Whether the lowercase query names a Word file.
pub open spec fn spec_is_word(query: Seq<char>) -> bool {
    seq_contains(spec_to_lowercase(query), ".docx"@) || seq_contains(spec_to_lowercase(query), ".doc"@)
}

/// The template workbench code for an Office edit of `file_path`: the Excel
/// template when the query names an Excel file, else the Word template when
/// it names a Word file, else an error.
pub fn office_template_code(query: &str, file_path: &str) -> (r: Result<String, String>)
    ensures
        spec_is_excel(query@) ==> (r matches Ok(c) && c@ == EXCEL_HEAD@ + file_path@ + EXCEL_MID@ + query@
            + EXCEL_TAIL@),
        !spec_is_excel(query@) && spec_is_word(query@) ==> (r matches Ok(c) && c@ == WORD_HEAD@ + file_path@
            + WORD_MID@ + query@ + WORD_TAIL@),
        !spec_is_excel(query@) && !spec_is_word(query@) ==> (r matches Err(e) && e@
            == "Could not determine Office file type from query"@),
{
    let lower = to_lowercase(query);
    let is_excel = str_contains(lower.as_str(), ".xlsx") || str_contains(lower.as_str(), ".xls");
    let is_word = str_contains(lower.as_str(), ".docx") || str_contains(lower.as_str(), ".doc");
    let (head, mid, tail) = if is_excel {
        (EXCEL_HEAD, EXCEL_MID, EXCEL_TAIL)
    } else if is_word {
        (WORD_HEAD, WORD_MID, WORD_TAIL)
    } else {
        return Err("Could not determine Office file type from query".to_owned());
    };
    let mut v: Vec<char> = Vec::new();
    append_str(&mut v, head);
    append_str(&mut v, file_path);
    append_str(&mut v, mid);
    append_str(&mut v, query);
    append_str(&mut v, tail);
    Ok(string_from_chars(v.as_slice()))
}

/// Code from the language model, without surrounding whitespace and markdown
/// fences: trimmed; a leading ```` ```python ```` (or else ```` ``` ````)
/// removed and trimmed again; a trailing ```` ``` ```` removed and trimmed
/// again.
pub open spec fn spec_clean_office_code(code: Seq<char>) -> Seq<char> {
    let t = crate::text::spec_trim(code);
    let a = if crate::text::seq_starts_with(t, "```python"@) {
        crate::text::spec_trim(crate::code_generation::strip_prefix(t, "```python"@))
    } else if crate::text::seq_starts_with(t, "```"@) {
        crate::text::spec_trim(crate::code_generation::strip_prefix(t, "```"@))
    } else {
        t
    };
    if crate::text::seq_ends_with(a, "```"@) {
        crate::text::spec_trim(crate::code_generation::strip_suffix(a, "```"@))
    } else {
        a
    }
}

/// Cleans the language model's Office code.
pub fn clean_office_code(code: &str) -> (r: String)
    ensures
        r@ == spec_clean_office_code(code@),
{
    let c = chars_of(code);
    let t = crate::text::trim_chars(c.as_slice());
    let py = chars_of("```python");
    let fence = chars_of("```");
    let a: Vec<char> = if crate::text::starts_with_chars(t.as_slice(), py.as_slice()) {
        let rest = crate::text::sub_chars(t.as_slice(), py.len(), t.len());
        crate::text::trim_chars(rest.as_slice())
    } else if crate::text::starts_with_chars(t.as_slice(), fence.as_slice()) {
        let rest = crate::text::sub_chars(t.as_slice(), fence.len(), t.len());
        crate::text::trim_chars(rest.as_slice())
    } else {
        t
    };
    let b: Vec<char> = if crate::text::ends_with_chars(a.as_slice(), fence.as_slice()) {
        let rest = crate::text::sub_chars(a.as_slice(), 0, a.len() - fence.len());
        crate::text::trim_chars(rest.as_slice())
    } else {
        a
    };
    string_from_chars(b.as_slice())
}



/// Session state for Composio MCP: the session id and when it was created
/// (milliseconds since the Unix epoch).
#[derive(Debug, Clone)]
pub struct ComposioSession {
    pub session_id: String,
    pub created_at: u64,
}

/// `{"generate_id": true}`: let the server manage the session.
pub open spec fn generate_id_session() -> JsonV {
    JsonV::Object(seq![("generate_id"@, JsonV::Bool(true))])
}

/// Builds `{"generate_id": true}`.
fn generate_id_session_json() -> (r: Json)
    ensures
        r.jv() == generate_id_session(),
{
    let mut es: Vec<(String, Json)> = Vec::new();
    crate::json::push_entry(&mut es, "generate_id", Json::Bool(true));
    assert(entries_view(es@) =~= generate_id_session()->Object_0);
    crate::json::object_of(es)
}

/// Parameters of a COMPOSIO_SEARCH_TOOLS call.
pub open spec fn spec_search_params(query: Seq<char>) -> JsonV {
    JsonV::Object(seq![("queries"@, JsonV::Array(seq![JsonV::Str(query)])), ("session"@, generate_id_session())])
}

/// Parameters of a COMPOSIO_SEARCH_TOOLS call: the query, with a server
/// managed session.
pub fn search_params(query: &str) -> (r: Json)
    ensures
        r.jv() == spec_search_params(query@),
{
    let q = Json::string(query);
    let ghost qj = q.jv();
    let arr = Json::Array(vec![q]);
    assert(arr.jv()->Array_0 =~= seq![qj]);
    let mut es: Vec<(String, Json)> = Vec::new();
    crate::json::push_entry(&mut es, "queries", arr);
    crate::json::push_entry(&mut es, "session", generate_id_session_json());
    assert(entries_view(es@) =~= spec_search_params(query@)->Object_0);
    crate::json::object_of(es)
}

/// Parameters of a COMPOSIO_GET_TOOL_SCHEMAS call.
pub open spec fn spec_schema_params(slugs: Seq<Seq<char>>) -> JsonV {
    JsonV::Object(
        seq![
            ("tool_slugs"@, JsonV::Array(Seq::new(slugs.len(), |i: int| JsonV::Str(slugs[i])))),
            ("session"@, generate_id_session()),
        ],
    )
}

/// Parameters of a COMPOSIO_GET_TOOL_SCHEMAS call: the tool slugs, with a
/// server managed session.
pub fn schema_params(slugs: &Vec<String>) -> (r: Json)
    ensures
        r.jv() == spec_schema_params(slugs@.map_values(|s: String| s@)),
{
    let ghost sv = slugs@.map_values(|s: String| s@);
    let mut items: Vec<Json> = Vec::new();
    let mut i: usize = 0;
    while i < slugs.len()
        invariant
            i <= slugs@.len(),
            sv == slugs@.map_values(|s: String| s@),
            items@.len() == i,
            forall|k: int| 0 <= k < i ==> (#[trigger] items@[k]).jv() == JsonV::Str(sv[k]),
        decreases slugs.len() - i,
    {
        items.push(Json::string(slugs[i].as_str()));
        i = i + 1;
    }
    let arr = Json::Array(items);
    assert(arr.jv()->Array_0 =~= Seq::new(sv.len(), |k: int| JsonV::Str(sv[k])));
    let mut es: Vec<(String, Json)> = Vec::new();
    crate::json::push_entry(&mut es, "tool_slugs", arr);
    crate::json::push_entry(&mut es, "session", generate_id_session_json());
    assert(entries_view(es@) =~= spec_schema_params(sv)->Object_0);
    crate::json::object_of(es)
}

/// Parameters of a COMPOSIO_MULTI_EXECUTE_TOOL call.
pub open spec fn spec_multi_execute_params(tool_slug: Seq<char>, arguments: JsonV) -> JsonV {
    JsonV::Object(
        seq![
            (
                "tools"@,
                JsonV::Array(
                    seq![JsonV::Object(seq![("tool_slug"@, JsonV::Str(tool_slug)), ("arguments"@, arguments)])],
                ),
            ),
            ("sync_response_to_workbench"@, JsonV::Bool(false)),
            ("session"@, generate_id_session()),
        ],
    )
}

/// Parameters of a COMPOSIO_MULTI_EXECUTE_TOOL call: the one tool with its
/// arguments, no workbench sync, a server managed session.
pub fn multi_execute_params(tool_slug: &str, arguments: Json) -> (r: Json)
    ensures
        r.jv() == spec_multi_execute_params(tool_slug@, arguments.jv()),
{
    let ghost aj = arguments.jv();
    let mut t: Vec<(String, Json)> = Vec::new();
    crate::json::push_entry(&mut t, "tool_slug", Json::string(tool_slug));
    crate::json::push_entry(&mut t, "arguments", arguments);
    let tool = crate::json::object_of(t);
    let ghost tj = tool.jv();
    assert(tj->Object_0 =~= seq![("tool_slug"@, JsonV::Str(tool_slug@)), ("arguments"@, aj)]);
    let arr = Json::Array(vec![tool]);
    assert(arr.jv()->Array_0 =~= seq![tj]);
    let mut es: Vec<(String, Json)> = Vec::new();
    crate::json::push_entry(&mut es, "tools", arr);
    crate::json::push_entry(&mut es, "sync_response_to_workbench", Json::Bool(false));
    crate::json::push_entry(&mut es, "session", generate_id_session_json());
    assert(entries_view(es@) =~= spec_multi_execute_params(tool_slug@, aj)->Object_0);
    crate::json::object_of(es)
}

/// The schema the last entry with the slug gives (a later entry for a slug
/// replaces an earlier one, as in a map filled in order).
pub open spec fn schema_lookup(schemas: Seq<(Seq<char>, JsonV)>, slug: Seq<char>) -> Option<JsonV>
    decreases schemas.len(),
{
    if schemas.len() == 0 {
        None
    } else if schemas.last().0 == slug {
        Some(schemas.last().1)
    } else {
        schema_lookup(schemas.drop_last(), slug)
    }
}

/// The schema fetched for a slug (the last one given for it).
pub fn find_schema<'a>(schemas: &'a Vec<(String, Json)>, slug: &str) -> (r: Option<&'a Json>)
    ensures
        match schema_lookup(entries_view(schemas@), slug@) {
            Some(s) => r matches Some(j) && j.jv() == s,
            None => r is None,
        },
{
    let ghost ev = entries_view(schemas@);
    let mut i = schemas.len();
    assert(ev.subrange(0, i as int) =~= ev);
    while i > 0
        invariant
            i <= schemas@.len(),
            ev == entries_view(schemas@),
            schema_lookup(ev.subrange(0, i as int), slug@) == schema_lookup(ev, slug@),
        decreases i,
    {
        let ghost sub = ev.subrange(0, i as int);
        assert(sub.last() == (schemas@[i - 1].0@, schemas@[i - 1].1.jv()));
        if crate::text::str_eq(schemas[i - 1].0.as_str(), slug) {
            return Some(&schemas[i - 1].1);
        }
        assert(sub.drop_last() =~= ev.subrange(0, i - 1));
        i = i - 1;
    }
    None
}

/// The discovered tool with its schema replaced by the fetched one, when
/// there is one.
pub open spec fn with_fetched_schema(t: DiscoveredView, schemas: Seq<(Seq<char>, JsonV)>) -> DiscoveredView {
    match schema_lookup(schemas, t.tool_slug) {
        Some(s) => DiscoveredView { input_schema: Some(s), ..t },
        None => t,
    }
}

/// Gives each discovered tool the complete schema fetched for its slug.
pub fn apply_schemas(tools: &mut Vec<DiscoveredTool>, schemas: &Vec<(String, Json)>)
    ensures
        final(tools)@.len() == old(tools)@.len(),
        forall|i: int|
            0 <= i < old(tools)@.len() ==> (#[trigger] final(tools)@[i])@ == with_fetched_schema(
                old(tools)@[i]@,
                entries_view(schemas@),
            ),
{
    let ghost orig = tools@;
    let mut i: usize = 0;
    while i < tools.len()
        invariant
            i <= tools@.len(),
            tools@.len() == orig.len(),
            forall|k: int| 0 <= k < i ==> (#[trigger] tools@[k])@ == with_fetched_schema(orig[k]@, entries_view(schemas@)),
            forall|k: int| i <= k < tools@.len() ==> #[trigger] tools@[k] == orig[k],
        decreases tools.len() - i,
    {
        match find_schema(schemas, tools[i].tool_slug.as_str()) {
            Some(s) => {
                let mut t = tools.remove(i);
                t.input_schema = Some(s.deep_clone());
                tools.insert(i, t);
            },
            None => {},
        }
        i = i + 1;
    }
}

/// The tool to run when the caller names its slug: the toolkit is the
/// slug's first `_`-separated part, lowercased.
pub open spec fn spec_direct_tool(slug: Seq<char>, query: Seq<char>, schema: Option<JsonV>) -> DiscoveredView {
    let cut = match crate::text::first_match(slug, "_"@) {
        Some(i) => i,
        None => slug.len() as int,
    };
    DiscoveredView {
        tool_slug: slug,
        description: "Direct execution of "@ + slug,
        toolkit: spec_to_lowercase(slug.subrange(0, cut)),
        use_case: query,
        input_schema: schema,
        schema_ref: None,
    }
}

/// The tool to run for a slug the caller gave, with the schema fetched for
/// it if any.
pub fn direct_tool(slug: &str, query: &str, schema: Option<Json>) -> (r: DiscoveredTool)
    ensures
        r@ == spec_direct_tool(
            slug@,
            query@,
            match schema {
                Some(j) => Some(j.jv()),
                None => None,
            },
        ),
{
    let c = chars_of(slug);
    let cut = match crate::text::find_str(c.as_slice(), "_") {
        Some(i) => i,
        None => c.len(),
    };
    let head = crate::text::sub_chars(c.as_slice(), 0, cut);
    let head_s = string_from_chars(head.as_slice());
    let toolkit = to_lowercase(head_s.as_str());
    let mut d: Vec<char> = Vec::new();
    append_str(&mut d, "Direct execution of ");
    append_str(&mut d, slug);
    DiscoveredTool {
        tool_slug: slug.to_owned(),
        description: string_from_chars(d.as_slice()),
        toolkit,
        use_case: query.to_owned(),
        input_schema: schema,
        schema_ref: None,
    }
}

/// Whether an object's entries hold a key.
pub open spec fn has_key(es: Seq<(Seq<char>, JsonV)>, k: Seq<char>) -> bool {
    exists|i: int| 0 <= i < es.len() && es[i].0 == k
}

/// The provided entries with each extracted entry whose key they lack
/// appended, in order.
pub open spec fn merge_missing(p: Seq<(Seq<char>, JsonV)>, ext: Seq<(Seq<char>, JsonV)>) -> Seq<(Seq<char>, JsonV)>
    decreases ext.len(),
{
    if ext.len() == 0 {
        p
    } else {
        let p2 = if has_key(p, ext[0].0) {
            p
        } else {
            p.push(ext[0])
        };
        merge_missing(p2, ext.drop_first())
    }
}

/// Provided arguments merged with extracted ones: when both are objects, the
/// extracted fields the provided ones lack are added; provided fields win.
pub open spec fn spec_merge_arguments(provided: JsonV, extracted: JsonV) -> JsonV {
    match (provided, extracted) {
        (JsonV::Object(p), JsonV::Object(e)) => JsonV::Object(merge_missing(p, e)),
        _ => provided,
    }
}

/// Whether the entries hold a key.
fn has_key_exec(es: &Vec<(String, Json)>, k: &str) -> (r: bool)
    ensures
        r == has_key(entries_view(es@), k@),
{
    let mut i: usize = 0;
    while i < es.len()
        invariant
            i <= es@.len(),
            forall|j: int| 0 <= j < i ==> es@[j].0@ != k@,
        decreases es.len() - i,
    {
        if crate::text::str_eq(es[i].0.as_str(), k) {
            assert(entries_view(es@)[i as int].0 == k@);
            return true;
        }
        i = i + 1;
    }
    proof {
        if has_key(entries_view(es@), k@) {
            let j = choose|j: int| 0 <= j < entries_view(es@).len() && entries_view(es@)[j].0 == k@;
            assert(entries_view(es@)[j].0 == es@[j].0@);
        }
    }
    false
}

/// Merges provided arguments with extracted ones; provided fields win.
pub fn merge_arguments(provided: Json, extracted: &Json) -> (r: Json)
    ensures
        r.jv() == spec_merge_arguments(provided.jv(), extracted.jv()),
{
    let ghost pj = provided.jv();
    match (provided, extracted) {
        (Json::Object(p), Json::Object(e)) => {
            let ghost ev = entries_view(e@);
            assert(extracted.jv()->Object_0 =~= ev);
            assert(pj->Object_0 =~= entries_view(p@));
            let mut out = p;
            let mut i: usize = 0;
            assert(ev.subrange(0, ev.len() as int) =~= ev);
            while i < e.len()
                invariant
                    i <= e@.len(),
                    ev == entries_view(e@),
                    merge_missing(pj->Object_0, ev) == merge_missing(entries_view(out@), ev.subrange(i as int, ev.len() as int)),
                decreases e.len() - i,
            {
                let ghost rest = ev.subrange(i as int, ev.len() as int);
                assert(rest[0] == (e@[i as int].0@, e@[i as int].1.jv()));
                assert(rest.drop_first() =~= ev.subrange(i + 1, ev.len() as int));
                if !has_key_exec(&out, e[i].0.as_str()) {
                    crate::json::push_entry(&mut out, e[i].0.as_str(), e[i].1.deep_clone());
                }
                i = i + 1;
            }
            assert(ev.subrange(e@.len() as int, ev.len() as int) =~= Seq::<(Seq<char>, JsonV)>::empty());
            crate::json::object_of(out)
        },
        (p, _) => p,
    }
}

pub const EXTRACT_PROMPT_HEAD: &'static str = "Extract parameters from the user query for tool execution.\n\nTool: ";

pub const EXTRACT_PROMPT_USE_CASE: &'static str = "\nUse case: ";

pub const EXTRACT_PROMPT_SCHEMA: &'static str = "\nParameter schema:\n";

pub const EXTRACT_PROMPT_QUERY: &'static str = "\n\nUser query: \"";

pub const EXTRACT_PROMPT_QUOTE: &'static str = "\"";

pub const EXTRACT_PROMPT_TAIL: &'static str = "\n\nCRITICAL INSTRUCTIONS:\n1. Analyze the user query and extract values for the parameters defined in the schema\n2. Return ONLY a valid JSON object with the extracted parameters\n3. Use the exact parameter names from the schema\n4. If a parameter is not mentioned in the query, omit it from the JSON\n5. For file paths, use forward slashes and start with / (e.g., \"/test.txt\")\n6. NEVER put file content in 's3key' - s3key is a storage reference, not content\n7. If the schema requires 'content' with 's3key', use 'local_file_path' instead\n8. For 'local_file_path', use the absolute path from the query or infer from filename\n9. CRITICAL FOR EMAIL ATTACHMENTS (HIGHEST PRIORITY):\n- When sending emails, ALWAYS prefer REAL file attachments over temporary links\n- If the query mentions 'attach', 'file', 'arquivo', 'anexo', 'send file', 'enviar arquivo'\n- AND the schema has an 'attachment' field (check the schema above!)\n- AND you see file metadata in the RECENT FILE DOWNLOADS section above\n- THEN you MUST include the 'attachment' field in your response\n- Use the EXACT s3key, mimetype, and name from the RECENT FILE DOWNLOADS\n- Structure: {\"name\": \"<from downloads>\", \"mimetype\": \"<from downloads>\", \"s3key\": \"<from downloads>\"}\n- NEVER use temporary download links when attachment field is available\n- Temporary links are ONLY acceptable if the tool doesn't support attachments\n10. Do not include any explanation, only the JSON object\n\nExample output format:\n{\"path\": \"/test.txt\", \"local_file_path\": \"C:/temp/test.txt\", \"mode\": \"overwrite\"}\n\nExample with attachment (REQUIRED when query mentions file + schema has attachment field + file in downloads):\n{\"recipient_email\": \"user@example.com\", \"subject\": \"File\", \"body\": \"See attached\", \"attachment\": {\"name\": \"file.txt\", \"mimetype\": \"text/plain\", \"s3key\": \"268883/...\"}}\n\nJSON:";

/// The prompt that asks the language model for a tool's parameters: the
/// tool, its use case, its schema (pretty JSON), the query and the recent
/// file downloads, then the instructions.
pub open spec fn spec_extraction_prompt(
    tool_slug: Seq<char>,
    use_case: Seq<char>,
    schema: Seq<char>,
    query: Seq<char>,
    attachments: Seq<char>,
) -> Seq<char> {
    EXTRACT_PROMPT_HEAD@ + tool_slug + EXTRACT_PROMPT_USE_CASE@ + use_case + EXTRACT_PROMPT_SCHEMA@ + schema
        + EXTRACT_PROMPT_QUERY@ + query + EXTRACT_PROMPT_QUOTE@ + attachments + EXTRACT_PROMPT_TAIL@
}

/// Builds the parameter-extraction prompt.
pub fn extraction_prompt(tool_slug: &str, use_case: &str, schema: &Json, query: &str, attachments: &str) -> (r: String)
    ensures
        r@ == spec_extraction_prompt(
            tool_slug@,
            use_case@,
            crate::json::spec_json_pretty(schema.jv()),
            query@,
            attachments@,
        ),
{
    let schema_str = crate::json::json_pretty(schema);
    let mut v: Vec<char> = Vec::new();
    append_str(&mut v, EXTRACT_PROMPT_HEAD);
    append_str(&mut v, tool_slug);
    append_str(&mut v, EXTRACT_PROMPT_USE_CASE);
    append_str(&mut v, use_case);
    append_str(&mut v, EXTRACT_PROMPT_SCHEMA);
    append_str(&mut v, schema_str.as_str());
    append_str(&mut v, EXTRACT_PROMPT_QUERY);
    append_str(&mut v, query);
    append_str(&mut v, EXTRACT_PROMPT_QUOTE);
    append_str(&mut v, attachments);
    append_str(&mut v, EXTRACT_PROMPT_TAIL);
    string_from_chars(v.as_slice())
}

/// The mutable state of the natural-language tool: the session, the recent
/// executions and the next JSON-RPC request id.
pub struct NlState {
    session: Option<ComposioSession>,
    history: ExecutionHistory,
    request_id: i64,
}

impl NlState {
    /// The next request id to hand out.
    pub closed spec fn next_id(&self) -> i64 {
        self.request_id
    }

    /// Whether a session is held.
    pub closed spec fn has_session(&self) -> bool {
        self.session is Some
    }

    /// The recent executions, oldest first.
    pub closed spec fn recent(&self) -> Seq<HistoryEntryView> {
        self.history.spec_entries()
    }

    /// No session, no history, request ids from 1.
    pub fn new() -> (r: Self)
        ensures
            r.next_id() == 1,
            !r.has_session(),
            r.recent().len() == 0,
    {
        NlState { session: None, history: ExecutionHistory::new(), request_id: 1 }
    }

    /// The request id that is handed out next.
    pub fn peek_request_id(&self) -> (r: i64)
        ensures
            r == self.next_id(),
    {
        self.request_id
    }

    /// Hands out the current request id and moves to the next one.
    pub fn next_request_id(&mut self) -> (id: i64)
        requires
            old(self).next_id() < i64::MAX,
        ensures
            id == old(self).next_id(),
            final(self).next_id() == old(self).next_id() + 1,
            final(self).has_session() == old(self).has_session(),
            final(self).recent() == old(self).recent(),
    {
        let id = self.request_id;
        self.request_id = id + 1;
        id
    }

    /// The recent executions.
    pub fn history(&self) -> (r: &ExecutionHistory)
        ensures
            r.spec_entries() == self.recent(),
    {
        &self.history
    }

    /// Records a successful execution, keeping the last ten.
    pub fn record_execution(&mut self, tool_slug: &str, arguments: &Json, result: &Json)
        ensures
            final(self).recent() == last_ten(
                old(self).recent().push(
                    HistoryEntryView {
                        tool_slug: tool_slug@,
                        arguments: crate::json::spec_json_compact(arguments.jv()),
                        result: result.jv(),
                    },
                ),
            ),
            final(self).next_id() == old(self).next_id(),
            final(self).has_session() == old(self).has_session(),
    {
        self.history.record(tool_slug, arguments, result);
    }

    /// Holds a session.
    pub fn set_session(&mut self, session: ComposioSession)
        ensures
            final(self).has_session(),
            final(self).next_id() == old(self).next_id(),
            final(self).recent() == old(self).recent(),
    {
        self.session = Some(session);
    }

    /// The session held, if any.
    pub fn session(&self) -> (r: Option<&ComposioSession>)
        ensures
            r is Some == self.has_session(),
    {
        self.session.as_ref()
    }

    /// Clears the session and the history and restarts request ids at 1.
    pub fn clear_cache(&mut self)
        ensures
            final(self).next_id() == 1,
            !final(self).has_session(),
            final(self).recent().len() == 0,
    {
        self.session = None;
        self.history.clear();
        self.request_id = 1;
    }
}

/// The error when no tool matches a query.
pub open spec fn spec_no_tools_message(query: Seq<char>) -> Seq<char> {
    "No tools found for query: '"@ + query + "'. Try rephrasing or check if the app is supported by Composio."@
}

/// The error when no tool matches a query.
pub fn no_tools_message(query: &str) -> (r: String)
    ensures
        r@ == spec_no_tools_message(query@),
{
    let mut v: Vec<char> = Vec::new();
    append_str(&mut v, "No tools found for query: '");
    append_str(&mut v, query);
    append_str(&mut v, "'. Try rephrasing or check if the app is supported by Composio.");
    string_from_chars(v.as_slice())
}

/// What the tool answers when the toolkit needs an OAuth authorization.
pub open spec fn spec_oauth_required_output(toolkit: Seq<char>, url: Seq<char>) -> Seq<char> {
    "🔗 "@ + crate::text::spec_to_uppercase(toolkit) + " OAuth Authorization Required\n\nClick this link to connect your account:\n"@
        + url + "\n\n⏱ Link expires in 10 minutes\n\nAfter authorizing, retry your request and I'll complete the action."@
}

/// The answer when the toolkit needs an OAuth authorization: unsuccessful,
/// with the link in the output and no error.
pub fn oauth_required_result(toolkit: &str, url: &str) -> (r: crate::tool_result::ToolResult)
    ensures
        !r.success,
        r.output@ == spec_oauth_required_output(toolkit@, url@),
        r.error is None,
{
    let up = crate::text::to_uppercase(toolkit);
    let mut v: Vec<char> = Vec::new();
    append_str(&mut v, "🔗 ");
    append_str(&mut v, up.as_str());
    append_str(&mut v, " OAuth Authorization Required\n\nClick this link to connect your account:\n");
    append_str(&mut v, url);
    append_str(&mut v, "\n\n⏱ Link expires in 10 minutes\n\nAfter authorizing, retry your request and I'll complete the action.");
    crate::tool_result::ToolResult { success: false, output: string_from_chars(v.as_slice()), error: None }
}

/// An unsuccessful result with no output and the error `prefix` + `detail`.
pub fn failure_result(prefix: &str, detail: &str) -> (r: crate::tool_result::ToolResult)
    ensures
        !r.success,
        r.output@ == Seq::<char>::empty(),
        (r.error matches Some(e) && e@ == prefix@ + detail@),
{
    let mut v: Vec<char> = Vec::new();
    append_str(&mut v, prefix);
    append_str(&mut v, detail);
    crate::tool_result::ToolResult { success: false, output: String::new(), error: Some(string_from_chars(v.as_slice())) }
}

/// The final answer of an execution: the pretty JSON of its result, or the
/// error after "Tool execution failed: ".
pub fn execution_result(outcome: &Result<Json, String>) -> (r: crate::tool_result::ToolResult)
    ensures
        match outcome {
            Ok(j) => r.success && r.output@ == crate::json::spec_json_pretty(j.jv()) && r.error is None,
            Err(e) => !r.success && r.output@ == Seq::<char>::empty() && (r.error matches Some(x) && x@
                == "Tool execution failed: "@ + e@),
        },
{
    match outcome {
        Ok(j) => crate::tool_result::ToolResult { success: true, output: crate::json::json_pretty(j), error: None },
        Err(e) => failure_result("Tool execution failed: ", e.as_str()),
    }
}

/// The tool whose arguments never go through the language model: its
/// generated local paths do not exist where Composio runs it.
pub open spec fn spec_skips_llm(tool_slug: Seq<char>) -> bool {
    tool_slug == "DROPBOX_UPLOAD_FILE"@
}

/// Whether a tool's arguments skip the language model.
pub fn skips_llm(tool_slug: &str) -> (r: bool)
    ensures
        r == spec_skips_llm(tool_slug@),
{
    crate::text::str_eq(tool_slug, "DROPBOX_UPLOAD_FILE")
}

/// The JSON part of a language-model reply: from its first `{` to its last
/// `}`, when it has both; else the whole reply.
pub open spec fn spec_llm_json_text(content: Seq<char>) -> Seq<char> {
    match crate::text::first_match(content, "{"@) {
        Some(a) => match last_index_of(content, '}') {
            Some(b) => content.subrange(a, b + 1),
            None => content,
        },
        None => content,
    }
}

/// Index of the last occurrence of a character.
pub open spec fn last_index_of(s: Seq<char>, c: char) -> Option<int>
    decreases s.len(),
{
    if s.len() == 0 {
        None
    } else if s.last() == c {
        Some(s.len() - 1)
    } else {
        last_index_of(s.drop_last(), c)
    }
}

/// A reply whose last `}` comes before its first `{`: slicing between them
/// is out of order.
pub open spec fn braces_out_of_order(content: Seq<char>) -> bool {
    match (crate::text::first_match(content, "{"@), last_index_of(content, '}')) {
        (Some(a), Some(b)) => b < a,
        _ => false,
    }
}

/// The last index of a character in `s[..n]`.
fn last_index_in(s: &[char], c: char) -> (r: Option<usize>)
    ensures
        r matches Some(j) ==> last_index_of(s@, c) == Some(j as int) && j < s.len(),
        r is None ==> last_index_of(s@, c) is None,
{
    let mut i = s.len();
    assert(s@.subrange(0, i as int) =~= s@);
    while i > 0 && s[i - 1] != c
        invariant
            i <= s@.len(),
            last_index_of(s@.subrange(0, i as int), c) == last_index_of(s@, c),
        decreases i,
    {
        assert(s@.subrange(0, i as int).drop_last() =~= s@.subrange(0, i - 1));
        i = i - 1;
    }
    if i == 0 {
        None
    } else {
        Some(i - 1)
    }
}

/// The JSON part of a language-model reply.
pub fn llm_json_text(content: &str) -> (r: String)
    requires
        !braces_out_of_order(content@),
    ensures
        r@ == spec_llm_json_text(content@),
{
    let c = chars_of(content);
    match crate::text::find_str(c.as_slice(), "{") {
        Some(a) => match last_index_in(c.as_slice(), '}') {
            Some(b) => {
                let mid = crate::text::sub_chars(c.as_slice(), a, b + 1);
                string_from_chars(mid.as_slice())
            },
            None => content.to_owned(),
        },
        None => content.to_owned(),
    }
}

/// Whether the arguments the language model gave can be used: a non-empty
/// object.
pub open spec fn spec_llm_arguments_usable(args: JsonV) -> bool {
    args matches JsonV::Object(es) && es.len() > 0
}

/// Whether the language model's arguments can be used.
pub fn llm_arguments_usable(args: &Json) -> (r: bool)
    ensures
        r == spec_llm_arguments_usable(args.jv()),
{
    match args {
        Json::Object(es) => {
            assert(args.jv()->Object_0.len() == es@.len());
            es.len() > 0
        },
        _ => false,
    }
}

/// What the language model's reply gives as arguments: the JSON part of the
/// trimmed reply, parsed; or the error naming that part.
pub open spec fn spec_llm_arguments(reply: Seq<char>) -> Result<JsonV, Seq<char>> {
    let t = spec_llm_json_text(crate::text::spec_trim(reply));
    match spec_parse_json(t) {
        Some(v) => Ok(v),
        None => Err("Failed to parse LLM response as JSON: "@ + t),
    }
}

/// Reads the arguments from the language model's reply.
pub fn parse_llm_arguments(reply: &str) -> (r: Result<Json, String>)
    requires
        !braces_out_of_order(crate::text::spec_trim(reply@)),
    ensures
        match spec_llm_arguments(reply@) {
            Ok(v) => r matches Ok(j) && j.jv() == v,
            Err(e) => r matches Err(x) && x@ == e,
        },
{
    let trimmed = crate::text::trim_str(reply);
    let t = llm_json_text(trimmed.as_str());
    match parse_json(t.as_str()) {
        Some(j) => Ok(j),
        None => {
            let mut v: Vec<char> = Vec::new();
            append_str(&mut v, "Failed to parse LLM response as JSON: ");
            append_str(&mut v, t.as_str());
            Err(string_from_chars(v.as_slice()))
        },
    }
}

/// A staging marker key.
pub open spec fn is_marker(k: Seq<char>) -> bool {
    k == "_zeroclaw_stage_content"@ || k == "_zeroclaw_stage_filename"@ || k == "_zeroclaw_stage_mimetype"@
}

proof fn lemma_without_key(es: Seq<(Seq<char>, JsonV)>, key: Seq<char>)
    ensures
        forall|i: int| 0 <= i < without_key(es, key).len() ==> (#[trigger] without_key(es, key)[i]).0 != key,
        forall|i: int|
            0 <= i < without_key(es, key).len() ==> es.contains(#[trigger] without_key(es, key)[i]),
    decreases es.len(),
{
    if es.len() > 0 {
        let prev = without_key(es.drop_last(), key);
        lemma_without_key(es.drop_last(), key);
        assert forall|i: int| 0 <= i < prev.len() implies es.contains(#[trigger] prev[i]) by {
            let j = choose|j: int| 0 <= j < es.drop_last().len() && es.drop_last()[j] == prev[i];
            assert(es[j] == prev[i]);
        }
        assert(es[es.len() - 1] == es.last());
    }
}

/// Staging leaves no marker behind: whether or not the content was staged,
/// no entry of the arguments it hands on has a staging marker key.
pub proof fn law_staging_removes_markers(
    es: Seq<(Seq<char>, JsonV)>,
    filename: Seq<char>,
    mimetype: Option<Seq<char>>,
    staged: Result<Seq<char>, Seq<char>>,
)
    ensures
        forall|i: int|
            0 <= i < spec_after_staging(es, filename, mimetype, staged).len() ==> !is_marker(
                (#[trigger] spec_after_staging(es, filename, mimetype, staged)[i]).0,
            ),
{
    let a = without_key(es, "_zeroclaw_stage_content"@);
    let b = without_key(a, "_zeroclaw_stage_filename"@);
    let c = without_key(b, "_zeroclaw_stage_mimetype"@);
    lemma_without_key(es, "_zeroclaw_stage_content"@);
    lemma_without_key(a, "_zeroclaw_stage_filename"@);
    lemma_without_key(b, "_zeroclaw_stage_mimetype"@);
    assert forall|i: int| 0 <= i < c.len() implies !is_marker((#[trigger] c[i]).0) by {
        let e = c[i];
        assert(b.contains(e));
        let j = choose|j: int| 0 <= j < b.len() && b[j] == e;
        assert(a.contains(b[j]));
        let k = choose|k: int| 0 <= k < a.len() && a[k] == e;
        assert(a[k].0 != "_zeroclaw_stage_content"@);
    }
    reveal_strlit("content");
    reveal_strlit("_zeroclaw_stage_content");
    reveal_strlit("_zeroclaw_stage_filename");
    reveal_strlit("_zeroclaw_stage_mimetype");
    assert("content"@.len() == 7);
    assert("_zeroclaw_stage_content"@.len() == 23);
    assert("_zeroclaw_stage_filename"@.len() == 24);
    assert("_zeroclaw_stage_mimetype"@.len() == 24);
    assert(!is_marker("content"@));
    crate::json::lemma_first_key_index(c, "content"@);
    match staged {
        Ok(key) => {
            let v = staged_file(filename, mimetype, key);
            let r = spec_after_staging(es, filename, mimetype, staged);
            assert(r == crate::observability::object_set(c, "content"@, v));
            match crate::json::first_key_index(c, "content"@) {
                Some(x) => {
                    assert(0 <= x < c.len());
                    assert(r == c.update(x, ("content"@, v)));
                    assert forall|i: int| 0 <= i < r.len() implies !is_marker((#[trigger] r[i]).0) by {
                        if i != x {
                            assert(r[i] == c[i]);
                        }
                    }
                },
                None => {
                    assert(r == c.push(("content"@, v)));
                    assert forall|i: int| 0 <= i < r.len() implies !is_marker((#[trigger] r[i]).0) by {
                        if i < c.len() {
                            assert(r[i] == c[i]);
                        }
                    }
                },
            }
        },
        Err(_) => {},
    }
}

/// The provided arguments stay as they are: merging only appends extracted
/// entries after them.
pub proof fn law_merge_keeps_provided(p: Seq<(Seq<char>, JsonV)>, ext: Seq<(Seq<char>, JsonV)>)
    ensures
        merge_missing(p, ext).len() >= p.len(),
        merge_missing(p, ext).subrange(0, p.len() as int) == p,
    decreases ext.len(),
{
    if ext.len() > 0 {
        let p2 = if has_key(p, ext[0].0) {
            p
        } else {
            p.push(ext[0])
        };
        law_merge_keeps_provided(p2, ext.drop_first());
        assert(merge_missing(p, ext) == merge_missing(p2, ext.drop_first()));
        assert(p2.subrange(0, p.len() as int) =~= p);
        assert(merge_missing(p, ext).subrange(0, p.len() as int) =~= merge_missing(p2, ext.drop_first()).subrange(
            0,
            p2.len() as int,
        ).subrange(0, p.len() as int));
    } else {
        assert(p.subrange(0, p.len() as int) =~= p);
    }
}

/// What the natural-language tool tells the agent it does.
pub const NL_DESCRIPTION: &'static str = "Access 1000+ apps (Gmail, Dropbox, GitHub, Slack, Notion, etc.) through natural language. Simply describe what you want to do. Examples: 'list my gmail emails', 'create dropbox folder /documents', 'send slack message to #general: Hello team!', 'search github issues in my-repo'. The tool will automatically discover the right action, handle OAuth if needed, and execute it.";

/// The documentation of the `query` parameter.
pub const NL_QUERY_DOC: &'static str = "Natural language description of what you want to do. Be specific about the app and action. Examples: 'list my gmail emails', 'create github issue in my-repo', 'send slack message to #general'";

/// The documentation of the `tool_slug` parameter.
pub const NL_TOOL_SLUG_DOC: &'static str = "Optional: Exact Composio tool name to bypass search (e.g., 'DROPBOX_GET_TEMPORARY_LINK'). If you know the exact tool, use this to force its execution and avoid semantic search errors.";

/// The documentation of the `arguments` parameter.
pub const NL_ARGUMENTS_DOC: &'static str = "Optional: Specific arguments if you know them. If not provided, the tool will attempt to extract them from the query.";

/// The documentation of the `use_workbench` parameter.
pub const NL_USE_WORKBENCH_DOC: &'static str = "Optional: Force use of Workbench for large data operations. Workbench is automatically used for bulk operations (all, every, list, export) and large data operations (csv, spreadsheet, report, summary). Set to true to force Workbench usage for operations that may produce large outputs.";

/// The parameters of the natural-language tool: a required `query`, and an
/// optional `tool_slug`, `arguments` object and `use_workbench` flag.
pub open spec fn spec_nl_parameters_schema() -> JsonV {
    JsonV::Object(
        seq![
            ("type"@, JsonV::Str("object"@)),
            ("properties"@, JsonV::Object(seq![
                ("query"@, crate::json::spec_property("string"@, NL_QUERY_DOC@)),
                ("tool_slug"@, crate::json::spec_property("string"@, NL_TOOL_SLUG_DOC@)),
                ("arguments"@, JsonV::Object(crate::json::spec_property("object"@, NL_ARGUMENTS_DOC@)->Object_0.push(("additionalProperties"@, JsonV::Bool(true))))),
                ("use_workbench"@, JsonV::Object(crate::json::spec_property("boolean"@, NL_USE_WORKBENCH_DOC@)->Object_0.push(("default"@, JsonV::Bool(false))))),
            ])),
            ("required"@, JsonV::Array(seq![JsonV::Str("query"@)])),
        ],
    )
}

/// The parameters schema of the natural-language tool.
pub fn nl_parameters_schema() -> (r: Json)
    ensures
        r.jv() == spec_nl_parameters_schema(),
{
    let mut props: Vec<(String, Json)> = Vec::new();
    push_entry(&mut props, "query", crate::json::property("string", NL_QUERY_DOC));
    push_entry(&mut props, "tool_slug", crate::json::property("string", NL_TOOL_SLUG_DOC));
    push_entry(
        &mut props,
        "arguments",
        crate::json::with_entry(crate::json::property("object", NL_ARGUMENTS_DOC), "additionalProperties", Json::Bool(true)),
    );
    push_entry(
        &mut props,
        "use_workbench",
        crate::json::with_entry(crate::json::property("boolean", NL_USE_WORKBENCH_DOC), "default", Json::Bool(false)),
    );
    let ghost pv = spec_nl_parameters_schema()->Object_0[1].1;
    assert(entries_view(props@) =~= pv->Object_0);
    let mut es: Vec<(String, Json)> = Vec::new();
    push_entry(&mut es, "type", Json::string("object"));
    push_entry(&mut es, "properties", object_of(props));
    push_entry(&mut es, "required", crate::json::one_string("query"));
    assert(entries_view(es@) =~= spec_nl_parameters_schema()->Object_0);
    object_of(es)
}


/// The natural-language tool's name.
pub fn nl_tool_name() -> (r: &'static str)
    ensures
        r@ == "composio_nl"@,
{
    "composio_nl"
}


/// The first step of argument extraction for a discovered tool.
#[derive(Debug)]
pub enum ExtractionPlan {
    /// The quick patterns found the arguments.
    Quick(Json),
    /// Ask the language model, with the tool's schema.
    Model,
    /// Use the generic fallback's arguments.
    Fallback(Json),
}

/// Plans argument extraction: the quick patterns first; when they find
/// nothing, the language model if one is available, the tool has a schema
/// and is not a Dropbox upload; else the generic fallback.
pub fn plan_extraction(query: &str, tool: &DiscoveredTool, model_available: bool) -> (r: ExtractionPlan)
    ensures
        match crate::extraction::spec_quick_extraction(query@, tool@.tool_slug) {
            Some(v) => r matches ExtractionPlan::Quick(j) && j.jv() == v,
            None => if model_available && tool@.input_schema is Some && !spec_skips_llm(tool@.tool_slug) {
                r is Model
            } else {
                r matches ExtractionPlan::Fallback(j) && j.jv() == crate::extraction::spec_generic_fallback(
                    query@,
                    tool@.tool_slug,
                    tool@.use_case,
                )
            },
        },
{
    match crate::extraction::try_quick_extraction(query, tool.tool_slug.as_str()) {
        Some(j) => ExtractionPlan::Quick(j),
        None => {
            if model_available && tool.input_schema.is_some() && !skips_llm(tool.tool_slug.as_str()) {
                ExtractionPlan::Model
            } else {
                ExtractionPlan::Fallback(
                    crate::extraction::extract_generic_fallback(query, tool.tool_slug.as_str(), tool.use_case.as_str()),
                )
            }
        },
    }
}

/// The arguments once the language model answered: its arguments when they
/// are a non-empty object, else the generic fallback's.
pub fn arguments_after_model(query: &str, tool: &DiscoveredTool, answer: Result<Json, String>) -> (r: Json)
    ensures
        match answer {
            Ok(a) => if spec_llm_arguments_usable(a.jv()) {
                r.jv() == a.jv()
            } else {
                r.jv() == crate::extraction::spec_generic_fallback(query@, tool@.tool_slug, tool@.use_case)
            },
            Err(_) => r.jv() == crate::extraction::spec_generic_fallback(query@, tool@.tool_slug, tool@.use_case),
        },
{
    match answer {
        Ok(a) => {
            if llm_arguments_usable(&a) {
                a
            } else {
                crate::extraction::extract_generic_fallback(query, tool.tool_slug.as_str(), tool.use_case.as_str())
            }
        },
        Err(_) => crate::extraction::extract_generic_fallback(query, tool.tool_slug.as_str(), tool.use_case.as_str()),
    }
}

/// The Office code once the language model was asked: its cleaned answer,
/// or, when it failed or there is no model, the template for the query.
pub fn office_code_after_model(query: &str, answer: Option<Result<String, String>>) -> (r: Result<String, String>)
    ensures
        match answer {
            Some(Ok(code)) => r matches Ok(c) && c@ == spec_clean_office_code(code@),
            _ => {
                let path = crate::extraction::spec_office_file_path(query@);
                &&& spec_is_excel(query@) ==> (r matches Ok(c) && c@ == EXCEL_HEAD@ + path + EXCEL_MID@ + query@ + EXCEL_TAIL@)
                &&& !spec_is_excel(query@) && spec_is_word(query@) ==> (r matches Ok(c) && c@ == WORD_HEAD@ + path
                    + WORD_MID@ + query@ + WORD_TAIL@)
                &&& !spec_is_excel(query@) && !spec_is_word(query@) ==> (r matches Err(e) && e@
                    == "Could not determine Office file type from query"@)
            },
        },
{
    match answer {
        Some(Ok(code)) => Ok(clean_office_code(code.as_str())),
        _ => {
            let path = crate::extraction::extract_file_path_from_query(query);
            office_template_code(query, path.as_str())
        },
    }
}

} // verus!
