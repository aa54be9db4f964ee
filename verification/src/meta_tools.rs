//! Handlers for the Composio v3 meta tools: what a COMPOSIO_MANAGE_CONNECTIONS
//! or COMPOSIO_MULTI_EXECUTE_TOOL reply means, the connection cache kept in
//! front of the first, and the rolling execution history of the second.
//!
//! The MCP calls themselves are made by the caller: it asks the handler for
//! the cached connection and the call's parameters, makes the call, and hands
//! the reply back.

use vstd::prelude::*;
use vstd::utf8::encode_utf8;
pub use crate::cache::{ConnectionCache, ConnectionInfo, ConnectionStatus};
use crate::cache::{cache_key, lookup_valid};
use crate::clock::{now_millis, MILLIS_PER_HOUR};
use crate::json::{
    Json, JsonV, content_text, json_as_str, json_get, json_get_bool, json_get_either, json_get_str,
    parse_json, json_pretty, spec_json_pretty, spec_parse_json,
};
use crate::jsonrpc::{JsonRpcResponse, RpcView, reply_view};
use crate::text::{
    append_str, chars_of, find_chars, first_match, is_whitespace, is_ws, i64_to_string, lead_ws, lemma_first_match_occurs,
    lemma_lead_ws_bound, lemma_trail_ws_bound, lemma_trim_is_a_run, matches_at, seq_contains, seq_starts_with,
    spec_decimal, spec_to_lowercase, spec_trim, str_contains, string_from_chars, sub_chars, to_lowercase,
    trim_chars,
};
use crate::tool_result::{ToolResult, ToolResultView};

verus! {

/// Seconds an OAuth connect link stays valid.
pub const CONNECT_LINK_TTL_SECS: u64 = 600;

/// Number of executions the history keeps.
pub const HISTORY_LIMIT: usize = 100;

/// OAuth authentication required error
#[derive(Debug, Clone)]
pub struct AuthRequired {
    pub toolkit: String,
    pub connect_link: String,
    pub expires_in: u64,
}

impl AuthRequired {
    /// The error's message.
    pub open spec fn spec_message(self) -> Seq<char> {
        "OAuth authentication required for toolkit '"@ + self.toolkit@ + "'. Please visit: "@
            + self.connect_link@ + " (expires in "@ + spec_decimal(self.expires_in as int)
            + " seconds)"@
    }

    /// The error's message, as `Display` writes it.
    pub fn message(&self) -> (r: String)
        ensures
            r@ == self.spec_message(),
    {
        let mut v: Vec<char> = Vec::new();
        append_str(&mut v, "OAuth authentication required for toolkit '");
        append_str(&mut v, self.toolkit.as_str());
        append_str(&mut v, "'. Please visit: ");
        append_str(&mut v, self.connect_link.as_str());
        append_str(&mut v, " (expires in ");
        let n = crate::text::u64_to_string(self.expires_in);
        append_str(&mut v, n.as_str());
        append_str(&mut v, " seconds)");
        string_from_chars(v.as_slice())
    }
}

/// Why a connection could not be obtained.
#[derive(Debug)]
pub enum ManageConnectionError {
    /// The toolkit needs the user to complete OAuth first.
    AuthRequired(AuthRequired),
    /// The check itself failed; the message says why.
    Failed(String),
}

/// What a COMPOSIO_MANAGE_CONNECTIONS reply means.
pub enum ManageOutcome {
    /// The toolkit is connected, under this account id.
    Connected(Seq<char>),
    /// OAuth is required, at this link.
    NeedsAuth(Seq<char>),
    /// The check failed, with this message.
    Failed(Seq<char>),
}

/// Execution record for tracking tool execution history
#[derive(Debug)]
pub struct ExecutionRecord {
    pub tool_name: String,
    /// When the execution was recorded, in milliseconds since the Unix epoch.
    pub timestamp: i64,
    pub success: bool,
    pub output_size: usize,
}

/// What a record holds, with the tool name as text.
pub struct ExecutionRecordView {
    pub tool_name: Seq<char>,
    pub timestamp: i64,
    pub success: bool,
    pub output_size: usize,
}

impl View for ExecutionRecord {
    type V = ExecutionRecordView;

    open spec fn view(&self) -> ExecutionRecordView {
        ExecutionRecordView {
            tool_name: self.tool_name@,
            timestamp: self.timestamp,
            success: self.success,
            output_size: self.output_size,
        }
    }
}

/// The record of an execution.
pub open spec fn spec_record(tool_name: Seq<char>, timestamp: i64, success: bool, output_size: usize) -> ExecutionRecordView {
    ExecutionRecordView { tool_name, timestamp, success, output_size }
}

/// A character that ends a link inside an instruction text.
pub open spec fn is_link_stop(c: char) -> bool {
    is_ws(c) || c == ')'
}

/// Index of the first link stop at or after `start`, or the text's length.
pub open spec fn link_end(s: Seq<char>, start: int) -> int {
    if exists|j: int| start <= j < s.len() && is_link_stop(s[j]) {
        choose|j: int| start <= j < s.len() && is_link_stop(s[j]) && forall|k: int| start <= k < j ==> !is_link_stop(s[k])
    } else {
        s.len() as int
    }
}

/// The link that starts at the first occurrence of `pattern` and runs to the
/// next whitespace or `)`, trimmed.
pub open spec fn link_at_pattern(s: Seq<char>, pattern: Seq<char>) -> Option<Seq<char>> {
    match first_match(s, pattern) {
        Some(p) => Some(spec_trim(s.subrange(p, link_end(s, p)))),
        None => None,
    }
}

/// The OAuth link an instruction text holds: tried in order, a connect link,
/// a backend OAuth link, then any app link.
pub open spec fn spec_oauth_link(s: Seq<char>) -> Option<Seq<char>> {
    match link_at_pattern(s, "https://connect.composio.dev/link/"@) {
        Some(l) => Some(l),
        None => match link_at_pattern(s, "https://backend.composio.dev/oauth/"@) {
            Some(l) => Some(l),
            None => link_at_pattern(s, "https://app.composio.dev/"@),
        },
    }
}

/// The end of a link lies between its start and the end of the text, with
/// no link stop before it.
proof fn lemma_link_end(s: Seq<char>, start: int)
    requires
        0 <= start <= s.len(),
    ensures
        start <= link_end(s, start) <= s.len(),
        forall|k: int| start <= k < link_end(s, start) ==> !is_link_stop(#[trigger] s[k]),
{
    if exists|j: int| start <= j < s.len() && is_link_stop(s[j]) {
        let j0 = choose|j: int| start <= j < s.len() && is_link_stop(s[j]);
        lemma_first_stop_exists(s, start, j0);
    }
}

/// Some link stop at or after `start` is the first one.
proof fn lemma_first_stop_exists(s: Seq<char>, start: int, k: int)
    requires
        start <= k < s.len(),
        is_link_stop(s[k]),
    ensures
        exists|j: int| start <= j < s.len() && is_link_stop(s[j]) && forall|i: int| start <= i < j ==> !is_link_stop(s[i]),
    decreases k - start,
{
    if exists|j: int| start <= j < k && is_link_stop(s[j]) {
        let j = choose|j: int| start <= j < k && is_link_stop(s[j]);
        lemma_first_stop_exists(s, start, j);
    } else {
        assert(forall|i: int| start <= i < k ==> !is_link_stop(s[i]));
    }
}

/// Trimming a run free of link stops leaves a text free of them.
proof fn lemma_trimmed_run_has_no_stop(s: Seq<char>, p: int, e: int)
    requires
        0 <= p <= e <= s.len(),
        forall|k: int| p <= k < e ==> !is_link_stop(#[trigger] s[k]),
    ensures
        forall|i: int| 0 <= i < spec_trim(s.subrange(p, e)).len() ==> !is_link_stop(#[trigger] spec_trim(s.subrange(p, e))[i]),
{
    let x = s.subrange(p, e);
    lemma_trim_is_a_run(x);
    assert forall|i: int| 0 <= i < spec_trim(x).len() implies !is_link_stop(#[trigger] spec_trim(x)[i]) by {
        let k = lead_ws(x) + i;
        assert(spec_trim(x)[i] == x[k]);
        assert(x[k] == s[p + k]);
    }
}

/// A link found at a pattern holds no link stop: it ends at the first one
/// after the pattern.
proof fn lemma_link_has_no_stop(s: Seq<char>, pattern: Seq<char>)
    ensures
        link_at_pattern(s, pattern) matches Some(l) ==> forall|i: int| 0 <= i < l.len() ==> !is_link_stop(#[trigger] l[i]),
{
    lemma_first_match_occurs(s, pattern);
    if let Some(p) = first_match(s, pattern) {
        lemma_link_end(s, p);
        lemma_trimmed_run_has_no_stop(s, p, link_end(s, p));
    }
}

/// Trimming a text free of link stops changes nothing.
proof fn lemma_trim_of_stopless(x: Seq<char>)
    requires
        forall|k: int| 0 <= k < x.len() ==> !is_link_stop(#[trigger] x[k]),
    ensures
        spec_trim(x) == x,
{
    lemma_lead_ws_bound(x);
    lemma_trail_ws_bound(x);
    if x.len() > 0 {
        assert(!is_link_stop(x[0]));
        assert(!is_link_stop(x[x.len() - 1]));
    }
    assert(spec_trim(x) =~= x);
}

/// After an occurrence of a stop-free pattern, the link runs at least over
/// the pattern and ends at a stop or at the end of the text.
proof fn lemma_link_end_past_pattern(s: Seq<char>, pattern: Seq<char>, p: int)
    requires
        matches_at(s, pattern, p),
        forall|i: int| 0 <= i < pattern.len() ==> !is_link_stop(#[trigger] pattern[i]),
    ensures
        p + pattern.len() <= link_end(s, p),
        link_end(s, p) == s.len() || is_link_stop(s[link_end(s, p)]),
{
    lemma_link_end(s, p);
    if exists|j: int| p <= j < s.len() && is_link_stop(s[j]) {
        let j0 = choose|j: int| p <= j < s.len() && is_link_stop(s[j]);
        lemma_first_stop_exists(s, p, j0);
        let e = link_end(s, p);
        assert(is_link_stop(s[e]));
        if e < p + pattern.len() {
            assert(s.subrange(p, p + pattern.len())[e - p] == pattern[e - p]);
        }
    }
}

/// A link found at a pattern free of link stops is the whole run from the
/// pattern's first occurrence to the next whitespace or `)` (or the end of
/// the text): it starts with the pattern, and in the text it is followed by a
/// stop or nothing.
#[verifier::rlimit(50)]
proof fn lemma_link_is_the_whole_run(s: Seq<char>, pattern: Seq<char>)
    requires
        forall|i: int| 0 <= i < pattern.len() ==> !is_link_stop(#[trigger] pattern[i]),
    ensures
        link_at_pattern(s, pattern) matches Some(l) ==> {
            &&& seq_starts_with(l, pattern)
            &&& exists|p: int| 0 <= p && p + l.len() <= s.len() && #[trigger] s.subrange(p, p + l.len()) == l
                && (p + l.len() == s.len() || is_link_stop(s[p + l.len()]))
        },
{
    lemma_first_match_occurs(s, pattern);
    if let Some(p) = first_match(s, pattern) {
        let e = link_end(s, p);
        lemma_link_end(s, p);
        lemma_link_end_past_pattern(s, pattern, p);
        let x = s.subrange(p, e);
        assert forall|k: int| 0 <= k < x.len() implies !is_link_stop(#[trigger] x[k]) by {
            assert(x[k] == s[p + k]);
        }
        lemma_trim_of_stopless(x);
        assert(x.len() == e - p);
        assert(x.subrange(0, pattern.len() as int) =~= s.subrange(p, p + pattern.len()));
        assert(seq_starts_with(x, pattern));
        assert(s.subrange(p, p + x.len()) == x);
        assert(p + x.len() == s.len() || is_link_stop(s[p + x.len()]));
        assert(link_at_pattern(s, pattern) == Some(x));
    }
}

/// An OAuth link read from an instruction never holds whitespace or `)`:
/// a link written in parentheses or followed by more words comes out
/// without them. It is the whole link: it starts with one of the link
/// prefixes, and in the instruction it runs up to a whitespace, a `)` or the
/// end.
pub proof fn law_oauth_link_has_no_space_or_parenthesis(s: Seq<char>)
    ensures
        spec_oauth_link(s) matches Some(l) ==> {
            &&& forall|i: int| 0 <= i < l.len() ==> !(is_ws(#[trigger] l[i]) || l[i] == ')')
            &&& seq_starts_with(l, "https://connect.composio.dev/link/"@) || seq_starts_with(
                l,
                "https://backend.composio.dev/oauth/"@,
            ) || seq_starts_with(l, "https://app.composio.dev/"@)
            &&& exists|p: int| 0 <= p && p + l.len() <= s.len() && #[trigger] s.subrange(p, p + l.len()) == l
                && (p + l.len() == s.len() || is_ws(s[p + l.len()]) || s[p + l.len()] == ')')
        },
{
    let p1 = "https://connect.composio.dev/link/"@;
    let p2 = "https://backend.composio.dev/oauth/"@;
    let p3 = "https://app.composio.dev/"@;
    lemma_link_has_no_stop(s, p1);
    lemma_link_has_no_stop(s, p2);
    lemma_link_has_no_stop(s, p3);
    lemma_prefix_has_no_stop();
    lemma_link_is_the_whole_run(s, p1);
    lemma_link_is_the_whole_run(s, p2);
    lemma_link_is_the_whole_run(s, p3);
    if let Some(l) = spec_oauth_link(s) {
        assert forall|i: int| 0 <= i < l.len() implies !(is_ws(#[trigger] l[i]) || l[i] == ')') by {
            assert(!is_link_stop(l[i]));
        }
    }
}

/// The link prefixes hold no link stop.
proof fn lemma_prefix_has_no_stop()
    ensures
        forall|i: int| 0 <= i < "https://connect.composio.dev/link/"@.len() ==> !is_link_stop(#[trigger] "https://connect.composio.dev/link/"@[i]),
        forall|i: int| 0 <= i < "https://backend.composio.dev/oauth/"@.len() ==> !is_link_stop(#[trigger] "https://backend.composio.dev/oauth/"@[i]),
        forall|i: int| 0 <= i < "https://app.composio.dev/"@.len() ==> !is_link_stop(#[trigger] "https://app.composio.dev/"@[i]),
{
    reveal_strlit("https://connect.composio.dev/link/");
    reveal_strlit("https://backend.composio.dev/oauth/");
    reveal_strlit("https://app.composio.dev/");
}

/// What a toolkit's entry under `data.results` says: an OAuth link in its
/// instruction or its `redirect_url` means OAuth is needed (`true` and the
/// link); otherwise it is connected (`false` and the account id, `"unknown"`
/// when none is given).
pub open spec fn spec_toolkit_check(td: JsonV) -> (bool, Seq<char>) {
    let link = match json_get_str(td, "instruction"@) {
        Some(i) => spec_oauth_link(i),
        None => None,
    };
    match link {
        Some(l) => (true, l),
        None => match json_get_str(td, "redirect_url"@) {
            Some(u) => (true, u),
            None => (
                false,
                match json_get_either(td, "connected_account_id"@, "id"@) {
                    Some(v) => match json_as_str(v) {
                        Some(s) => s,
                        None => "unknown"@,
                    },
                    None => "unknown"@,
                },
            ),
        },
    }
}

/// What a parsed MANAGE_CONNECTIONS payload says of a toolkit: its entry
/// under `data.results` decides; without one, a top-level `redirect_url`
/// means OAuth is needed, and otherwise the toolkit counts as connected under
/// an unknown account.
pub open spec fn spec_connection_check(toolkit: Seq<char>, parsed: JsonV) -> (bool, Seq<char>) {
    let td = match json_get(parsed, "data"@) {
        Some(d) => match json_get(d, "results"@) {
            Some(r) => json_get(r, toolkit),
            None => None,
        },
        None => None,
    };
    match td {
        Some(t) => spec_toolkit_check(t),
        None => match json_get_str(parsed, "redirect_url"@) {
            Some(u) => (true, u),
            None => (false, "unknown"@),
        },
    }
}

/// Message of a MANAGE_CONNECTIONS call that could not be made.
pub open spec fn call_failed_message(toolkit: Seq<char>, e: Seq<char>) -> Seq<char> {
    "Failed to check OAuth connection for toolkit '"@ + toolkit + "': "@ + e
        + ". Please verify Composio API connectivity and try again."@
}

/// What a COMPOSIO_MANAGE_CONNECTIONS reply means for a toolkit.
pub open spec fn spec_manage_outcome(toolkit: Seq<char>, reply: Result<RpcView, Seq<char>>) -> ManageOutcome {
    match reply {
        Err(e) => ManageOutcome::Failed(call_failed_message(toolkit, e)),
        Ok(v) => match v.error {
            Some((code, message)) => ManageOutcome::Failed(
                "JSON-RPC error: "@ + message + " (code: "@ + spec_decimal(code as int) + ")"@,
            ),
            None => match v.result {
                None => ManageOutcome::Failed("No result in JSON-RPC response"@),
                Some(data) => {
                    let parsed = match content_text(data) {
                        Some(t) => spec_parse_json(t),
                        None => None,
                    };
                    match parsed {
                        None => ManageOutcome::Failed("Failed to parse MANAGE_CONNECTIONS response"@),
                        Some(p) => {
                            let (auth, s) = spec_connection_check(toolkit, p);
                            if auth {
                                ManageOutcome::NeedsAuth(s)
                            } else {
                                ManageOutcome::Connected(s)
                            }
                        },
                    }
                },
            },
        },
    }
}

/// The outcome a result of `interpret_manage_connections` stands for.
pub open spec fn manage_result_outcome(r: Result<String, ManageConnectionError>) -> ManageOutcome {
    match r {
        Ok(id) => ManageOutcome::Connected(id@),
        Err(ManageConnectionError::AuthRequired(a)) => ManageOutcome::NeedsAuth(a.connect_link@),
        Err(ManageConnectionError::Failed(m)) => ManageOutcome::Failed(m@),
    }
}

/// What a parsed tool payload says: `success` (true when absent), the output
/// (`output`, `result`, the pretty JSON of `data`, or of the whole payload)
/// and the error (`error` or `error_message`).
pub open spec fn spec_tool_result_from_parsed(data: JsonV) -> ToolResultView {
    ToolResultView {
        success: match json_get_bool(data, "success"@) {
            Some(b) => b,
            None => true,
        },
        output: match json_get_str(data, "output"@) {
            Some(o) => o,
            None => match json_get_str(data, "result"@) {
                Some(r) => r,
                None => match json_get(data, "data"@) {
                    Some(d) => spec_json_pretty(d),
                    None => spec_json_pretty(data),
                },
            },
        },
        error: match json_get_str(data, "error"@) {
            Some(e) => Some(e),
            None => json_get_str(data, "error_message"@),
        },
    }
}

/// The tool result an MCP result payload stands for: the JSON in
/// `content[0].text` when it parses, the text itself as successful output
/// when it does not, or the payload itself when it has no such text.
pub open spec fn spec_mcp_tool_result(result: JsonV) -> ToolResultView {
    match content_text(result) {
        Some(t) => match spec_parse_json(t) {
            Some(p) => spec_tool_result_from_parsed(p),
            None => ToolResultView { success: true, output: t, error: None },
        },
        None => spec_tool_result_from_parsed(result),
    }
}

/// Output of a tool call that timed out.
pub open spec fn timeout_output() -> Seq<char> {
    "Tool execution timed out after 180 seconds. The operation may still be processing on Composio's side. Please check the toolkit's web interface for status."@
}

/// Whether a transport error reads as a timeout.
pub open spec fn is_timeout_message(e: Seq<char>) -> bool {
    seq_contains(spec_to_lowercase(e), "timeout"@) || seq_contains(spec_to_lowercase(e), "timed out"@)
}

/// What a COMPOSIO_MULTI_EXECUTE_TOOL reply gives back: failures of the call
/// and JSON-RPC errors become failed results; a response without result is an
/// error; otherwise the result payload decides.
pub open spec fn spec_execute_outcome(reply: Result<RpcView, Seq<char>>) -> Result<ToolResultView, Seq<char>> {
    match reply {
        Err(e) => if is_timeout_message(e) {
            Ok(ToolResultView { success: false, output: timeout_output(), error: Some("Timeout: "@ + e) })
        } else {
            Ok(ToolResultView { success: false, output: "Tool execution failed: "@ + e, error: Some(e) })
        },
        Ok(v) => match v.error {
            Some((_code, message)) => Ok(
                ToolResultView {
                    success: false,
                    output: "Tool execution failed: "@ + message,
                    error: Some(message),
                },
            ),
            None => match v.result {
                None => Err("No result in JSON-RPC response"@),
                Some(data) => Ok(spec_mcp_tool_result(data)),
            },
        },
    }
}

/// What the history records of an execution reply: its success and output
/// size in bytes (failures of the call or of JSON-RPC count zero bytes), or
/// nothing when the response had no result.
pub open spec fn spec_execute_record(reply: Result<RpcView, Seq<char>>) -> Option<(bool, nat)> {
    match reply {
        Err(_) => Some((false, 0)),
        Ok(v) => match v.error {
            Some(_) => Some((false, 0)),
            None => match v.result {
                None => None,
                Some(data) => {
                    let t = spec_mcp_tool_result(data);
                    Some((t.success, encode_utf8(t.output).len()))
                },
            },
        },
    }
}

/// The last `HISTORY_LIMIT` records of a sequence.
pub open spec fn history_window(s: Seq<ExecutionRecordView>) -> Seq<ExecutionRecordView> {
    if s.len() > HISTORY_LIMIT {
        s.subrange(s.len() - HISTORY_LIMIT, s.len() as int)
    } else {
        s
    }
}

/// The execution history never grows past `HISTORY_LIMIT` records once it
/// is within it, and the record made last is the newest one kept.
pub proof fn law_history_window_is_bounded(h: Seq<ExecutionRecordView>, e: ExecutionRecordView)
    ensures
        h.len() <= HISTORY_LIMIT ==> history_window(h.push(e)).len() <= HISTORY_LIMIT,
        history_window(h.push(e)).last() == e,
{
}

/// The link after the first occurrence of `pattern` in `s`.
#[verifier::rlimit(40)]
fn link_after(s: &[char], pattern: &str) -> (r: Option<Vec<char>>)
    ensures
        r matches Some(l) ==> link_at_pattern(s@, pattern@) == Some(l@),
        r is None ==> link_at_pattern(s@, pattern@) is None,
{
    let p = chars_of(pattern);
    match find_chars(s, p.as_slice()) {
        None => None,
        Some(start) => {
            let mut end: usize = start;
            while end < s.len() && !(is_whitespace(s[end]) || s[end] == ')')
                invariant
                    start <= end <= s@.len(),
                    forall|k: int| start <= k < end ==> !is_link_stop(#[trigger] s@[k]),
                decreases s.len() - end,
            {
                end = end + 1;
            }
            proof {
                if end < s.len() {
                    assert(is_link_stop(s@[end as int]));
                    let j = choose|j: int| start <= j < s@.len() && is_link_stop(s@[j]) && forall|k: int|
                        start <= k < j ==> !is_link_stop(s@[k]);
                    if j < end {
                        assert(!is_link_stop(s@[j]));
                    }
                    if j > end {
                        assert(!is_link_stop(s@[end as int]));
                    }
                } else {
                    assert(!exists|j: int| start <= j < s@.len() && is_link_stop(s@[j]));
                }
                assert(link_end(s@, start as int) == end);
            }
            let raw = sub_chars(s, start, end);
            Some(trim_chars(raw.as_slice()))
        },
    }
}

/// Finds the OAuth link in an instruction text.
pub fn find_oauth_link(instruction: &str) -> (r: Option<String>)
    ensures
        r matches Some(l) ==> spec_oauth_link(instruction@) == Some(l@),
        r is None ==> spec_oauth_link(instruction@) is None,
{
    let s = chars_of(instruction);
    match link_after(s.as_slice(), "https://connect.composio.dev/link/") {
        Some(l) => Some(string_from_chars(l.as_slice())),
        None => match link_after(s.as_slice(), "https://backend.composio.dev/oauth/") {
            Some(l) => Some(string_from_chars(l.as_slice())),
            None => match link_after(s.as_slice(), "https://app.composio.dev/") {
                Some(l) => Some(string_from_chars(l.as_slice())),
                None => None,
            },
        },
    }
}

/// Reads a toolkit's entry under `data.results`.
fn check_toolkit_entry(td: &Json) -> (r: (bool, String))
    ensures
        (r.0, r.1@) == spec_toolkit_check(td.jv()),
{
    let link = match td.get_str("instruction") {
        Some(i) => find_oauth_link(i),
        None => None,
    };
    match link {
        Some(l) => (true, l),
        None => match td.get_str("redirect_url") {
            Some(u) => (true, u.to_owned()),
            None => {
                proof {
                    reveal_strlit("unknown");
                }
                let id = match crate::json::get_either(td, "connected_account_id", "id") {
                    Some(v) => match v.as_str() {
                        Some(s) => s.to_owned(),
                        None => "unknown".to_owned(),
                    },
                    None => "unknown".to_owned(),
                };
                (false, id)
            },
        },
    }
}

/// Reads what a parsed MANAGE_CONNECTIONS payload says of a toolkit: whether
/// OAuth is needed, with the link, or the connected account id.
pub fn check_connection_payload(toolkit: &str, parsed: &Json) -> (r: (bool, String))
    ensures
        (r.0, r.1@) == spec_connection_check(toolkit@, parsed.jv()),
{
    let td = match parsed.get("data") {
        Some(d) => match d.get("results") {
            Some(res) => res.get(toolkit),
            None => None,
        },
        None => None,
    };
    match td {
        Some(t) => check_toolkit_entry(t),
        None => match parsed.get_str("redirect_url") {
            Some(u) => (true, u.to_owned()),
            None => (false, "unknown".to_owned()),
        },
    }
}

/// Interprets a COMPOSIO_MANAGE_CONNECTIONS reply for a toolkit: the
/// connected account id, the OAuth requirement, or why the check failed.
pub fn interpret_manage_connections(toolkit: &str, reply: &Result<JsonRpcResponse, String>) -> (r: Result<
    String,
    ManageConnectionError,
>)
    ensures
        manage_result_outcome(r) == spec_manage_outcome(toolkit@, reply_view(*reply)),
        r matches Err(ManageConnectionError::AuthRequired(a)) ==> a.toolkit@ == toolkit@ && a.expires_in
            == CONNECT_LINK_TTL_SECS,
{
    match reply {
        Err(e) => {
            let mut v: Vec<char> = Vec::new();
            append_str(&mut v, "Failed to check OAuth connection for toolkit '");
            append_str(&mut v, toolkit);
            append_str(&mut v, "': ");
            append_str(&mut v, e.as_str());
            append_str(&mut v, ". Please verify Composio API connectivity and try again.");
            Err(ManageConnectionError::Failed(string_from_chars(v.as_slice())))
        },
        Ok(rpc) => match &rpc.error {
            Some(err) => {
                let mut v: Vec<char> = Vec::new();
                append_str(&mut v, "JSON-RPC error: ");
                append_str(&mut v, err.message.as_str());
                append_str(&mut v, " (code: ");
                let c = i64_to_string(err.code);
                append_str(&mut v, c.as_str());
                append_str(&mut v, ")");
                Err(ManageConnectionError::Failed(string_from_chars(v.as_slice())))
            },
            None => match &rpc.result {
                None => Err(ManageConnectionError::Failed("No result in JSON-RPC response".to_owned())),
                Some(data) => {
                    let parsed = match data.content_text() {
                        Some(t) => parse_json(t),
                        None => None,
                    };
                    match parsed {
                        None => Err(
                            ManageConnectionError::Failed(
                                "Failed to parse MANAGE_CONNECTIONS response".to_owned(),
                            ),
                        ),
                        Some(p) => {
                            let (auth, s) = check_connection_payload(toolkit, &p);
                            if auth {
                                Err(
                                    ManageConnectionError::AuthRequired(
                                        AuthRequired {
                                            toolkit: toolkit.to_owned(),
                                            connect_link: s,
                                            expires_in: CONNECT_LINK_TTL_SECS,
                                        },
                                    ),
                                )
                            } else {
                                Ok(s)
                            }
                        },
                    }
                },
            },
        },
    }
}

/// Reads a parsed tool payload into a tool result.
pub fn extract_tool_result_from_parsed(data: &Json) -> (r: ToolResult)
    ensures
        r@ == spec_tool_result_from_parsed(data.jv()),
{
    let success = match data.get_bool("success") {
        Some(b) => b,
        None => true,
    };
    let output = match data.get_str("output") {
        Some(o) => o.to_owned(),
        None => match data.get_str("result") {
            Some(r) => r.to_owned(),
            None => match data.get("data") {
                Some(d) => json_pretty(d),
                None => json_pretty(data),
            },
        },
    };
    let error = match data.get_str("error") {
        Some(e) => Some(e.to_owned()),
        None => match data.get_str("error_message") {
            Some(e) => Some(e.to_owned()),
            None => None,
        },
    };
    ToolResult { success, output, error }
}

/// Converts an MCP result payload into a tool result.
pub fn convert_mcp_response_to_tool_result(result_data: &Json) -> (r: ToolResult)
    ensures
        r@ == spec_mcp_tool_result(result_data.jv()),
{
    match result_data.content_text() {
        Some(t) => match parse_json(t) {
            Some(p) => extract_tool_result_from_parsed(&p),
            None => ToolResult { success: true, output: t.to_owned(), error: None },
        },
        None => extract_tool_result_from_parsed(result_data),
    }
}

/// The view of an execution result.
pub open spec fn execute_result_view(r: Result<ToolResult, String>) -> Result<ToolResultView, Seq<char>> {
    match r {
        Ok(t) => Ok(t@),
        Err(e) => Err(e@),
    }
}

/// Interprets a COMPOSIO_MULTI_EXECUTE_TOOL reply.
pub fn interpret_execute_reply(reply: &Result<JsonRpcResponse, String>) -> (r: Result<ToolResult, String>)
    ensures
        execute_result_view(r) == spec_execute_outcome(reply_view(*reply)),
{
    match reply {
        Err(e) => {
            let low = to_lowercase(e.as_str());
            if str_contains(low.as_str(), "timeout") || str_contains(low.as_str(), "timed out") {
                let mut v: Vec<char> = Vec::new();
                append_str(&mut v, "Timeout: ");
                append_str(&mut v, e.as_str());
                Ok(
                    ToolResult {
                        success: false,
                        output: "Tool execution timed out after 180 seconds. The operation may still be processing on Composio's side. Please check the toolkit's web interface for status.".to_owned(),
                        error: Some(string_from_chars(v.as_slice())),
                    },
                )
            } else {
                let mut v: Vec<char> = Vec::new();
                append_str(&mut v, "Tool execution failed: ");
                append_str(&mut v, e.as_str());
                Ok(ToolResult { success: false, output: string_from_chars(v.as_slice()), error: Some(e.clone()) })
            }
        },
        Ok(rpc) => match &rpc.error {
            Some(err) => {
                let mut v: Vec<char> = Vec::new();
                append_str(&mut v, "Tool execution failed: ");
                append_str(&mut v, err.message.as_str());
                Ok(
                    ToolResult {
                        success: false,
                        output: string_from_chars(v.as_slice()),
                        error: Some(err.message.clone()),
                    },
                )
            },
            None => match &rpc.result {
                None => Err("No result in JSON-RPC response".to_owned()),
                Some(data) => Ok(convert_mcp_response_to_tool_result(data)),
            },
        },
    }
}

/// Parameters of a COMPOSIO_MANAGE_CONNECTIONS call for a toolkit:
/// `{"toolkits": [toolkit], "session": {"generate_id": true}}`.
pub fn manage_connections_params(toolkit: &str) -> (r: Json)
    ensures
        r.jv() == JsonV::Object(
            seq![
                ("toolkits"@, JsonV::Array(seq![JsonV::Str(toolkit@)])),
                ("session"@, JsonV::Object(seq![("generate_id"@, JsonV::Bool(true))])),
            ],
        ),
{
    let flag = Json::Bool(true);
    assert(flag.jv() == JsonV::Bool(true));
    let session = Json::Object(vec![("generate_id".to_owned(), flag)]);
    proof {
        assert(session.jv()->Object_0 =~= seq![("generate_id"@, JsonV::Bool(true))]);
    }
    let kits = Json::Array(vec![Json::string(toolkit)]);
    proof {
        assert(kits.jv()->Array_0 =~= seq![JsonV::Str(toolkit@)]);
    }
    let ghost sj = session.jv();
    let ghost kj = kits.jv();
    let r = Json::Object(vec![("toolkits".to_owned(), kits), ("session".to_owned(), session)]);
    proof {
        let a = r.jv()->Object_0;
        assert(a =~= seq![("toolkits"@, kj), ("session"@, sj)]);
    }
    r
}

/// Parameters of a COMPOSIO_MULTI_EXECUTE_TOOL call:
/// `{"tool_name": .., "parameters": .., "user_id": ..}`.
pub fn execute_tool_params(tool_name: &str, parameters: Json, user_id: &str) -> (r: Json)
    ensures
        r.jv() == JsonV::Object(
            seq![
                ("tool_name"@, JsonV::Str(tool_name@)),
                ("parameters"@, parameters.jv()),
                ("user_id"@, JsonV::Str(user_id@)),
            ],
        ),
{
    let ghost pj = parameters.jv();
    let r = Json::Object(
        vec![
            ("tool_name".to_owned(), Json::string(tool_name)),
            ("parameters".to_owned(), parameters),
            ("user_id".to_owned(), Json::string(user_id)),
        ],
    );
    proof {
        let a = r.jv()->Object_0;
        assert(a =~= seq![
            ("tool_name"@, JsonV::Str(tool_name@)),
            ("parameters"@, pj),
            ("user_id"@, JsonV::Str(user_id@)),
        ]);
    }
    r
}

/// Meta tools handler for Composio integration
pub struct MetaToolsHandler {
    connection_cache: ConnectionCache,
    execution_history: Vec<ExecutionRecord>,
}

impl MetaToolsHandler {
    #[verifier::type_invariant]
    spec fn history_bounded(self) -> bool {
        self.execution_history@.len() <= HISTORY_LIMIT
    }

    /// The execution history, oldest first.
    pub closed spec fn history(self) -> Seq<ExecutionRecordView> {
        self.execution_history@.map_values(|e: ExecutionRecord| e@)
    }

    /// The connection cache.
    pub closed spec fn cache(self) -> ConnectionCache {
        self.connection_cache
    }

    /// Create a new meta tools handler (at most 100 cached connections per user)
    pub fn new() -> (h: Self)
        ensures
            h.history().len() == 0,
            h.cache().entries() == Map::<Seq<char>, crate::cache::CachedEntry<ConnectionInfo>>::empty(),
            h.cache().max_per_user() == 100,
    {
        MetaToolsHandler { connection_cache: ConnectionCache::new(100), execution_history: Vec::new() }
    }

    /// Get the connection cache
    pub fn connection_cache(&self) -> (r: &ConnectionCache)
        ensures
            *r == self.cache(),
    {
        &self.connection_cache
    }

    /// The connection cached for (toolkit, user) at time `now`, if any.
    pub fn cached_connection_at(&self, toolkit: &str, user_id: &str, now: i64) -> (r: Option<ConnectionInfo>)
        ensures
            r == lookup_valid(self.cache().entries(), cache_key(toolkit@, user_id@), now),
    {
        self.connection_cache.get_at(toolkit, user_id, now)
    }

    /// What finishing COMPOSIO_MANAGE_CONNECTIONS at `now` with a reply whose
    /// outcome is `outcome` does, taking this handler to `after` and
    /// returning `r`: a connection is cached for an hour and returned; an
    /// OAuth requirement or a failure is returned as an error and leaves the
    /// cache as it was. The history never changes.
    pub open spec fn connection_completed(
        self,
        after: Self,
        toolkit: Seq<char>,
        user_id: Seq<char>,
        outcome: ManageOutcome,
        now: i64,
        r: Result<ConnectionInfo, ManageConnectionError>,
    ) -> bool {
        &&& after.history() == self.history()
        &&& after.cache().max_per_user() == self.cache().max_per_user()
        &&& match outcome {
            ManageOutcome::Connected(id) => {
                &&& r matches Ok(info) && info.toolkit@ == toolkit && info.connected_account_id@ == id
                    && info.status == ConnectionStatus::Active && info.created_at == now
                &&& self.cache().insert_outcome(after.cache().entries(), toolkit, user_id, r->Ok_0, MILLIS_PER_HOUR, now)
            },
            ManageOutcome::NeedsAuth(link) => {
                &&& r matches Err(ManageConnectionError::AuthRequired(a)) && a.toolkit@ == toolkit
                    && a.connect_link@ == link && a.expires_in == CONNECT_LINK_TTL_SECS
                &&& after.cache() == self.cache()
            },
            ManageOutcome::Failed(m) => {
                &&& r matches Err(ManageConnectionError::Failed(x)) && x@ == m
                &&& after.cache() == self.cache()
            },
        }
    }

    /// Finishes COMPOSIO_MANAGE_CONNECTIONS at time `now` with the call's
    /// reply: a connected toolkit is cached for an hour and returned; an
    /// OAuth requirement or a failure is returned as an error and changes
    /// nothing.
    pub fn complete_manage_connection_at(
        &mut self,
        toolkit: &str,
        user_id: &str,
        reply: &Result<JsonRpcResponse, String>,
        now: i64,
    ) -> (r: Result<ConnectionInfo, ManageConnectionError>)
        ensures
            old(self).connection_completed(
                *final(self),
                toolkit@,
                user_id@,
                spec_manage_outcome(toolkit@, reply_view(*reply)),
                now,
                r,
            ),
    {
        match interpret_manage_connections(toolkit, reply) {
            Ok(id) => {
                let info = ConnectionInfo {
                    toolkit: toolkit.to_owned(),
                    connected_account_id: id,
                    status: ConnectionStatus::Active,
                    created_at: now,
                };
                proof {
                    use_type_invariant(&*self);
                }
                let mut cache = ConnectionCache::new(0);
                std::mem::swap(&mut cache, &mut self.connection_cache);
                cache.insert_at(toolkit, user_id, info.clone(), MILLIS_PER_HOUR, now);
                self.connection_cache = cache;
                Ok(info)
            },
            Err(e) => Err(e),
        }
    }

    /// Finishes COMPOSIO_MANAGE_CONNECTIONS now with the call's reply, as
    /// `complete_manage_connection_at` does at the time the clock reads.
    pub fn complete_manage_connection(
        &mut self,
        toolkit: &str,
        user_id: &str,
        reply: &Result<JsonRpcResponse, String>,
    ) -> (r: Result<ConnectionInfo, ManageConnectionError>)
        ensures
            final(self).history() == old(self).history(),
            manage_result_outcome(
                match r {
                    Ok(info) => Ok(info.connected_account_id),
                    Err(e) => Err(e),
                },
            ) == spec_manage_outcome(toolkit@, reply_view(*reply)),
            exists|now: i64|
                #[trigger] old(self).connection_completed(
                    *final(self),
                    toolkit@,
                    user_id@,
                    spec_manage_outcome(toolkit@, reply_view(*reply)),
                    now,
                    r,
                ),
    {
        let now = now_millis();
        let r = self.complete_manage_connection_at(toolkit, user_id, reply, now);
        assert(old(self).connection_completed(
            *self,
            toolkit@,
            user_id@,
            spec_manage_outcome(toolkit@, reply_view(*reply)),
            now,
            r,
        ));
        r
    }

    /// Record, at time `now`, an execution in the history, keeping the last
    /// 100.
    pub fn record_execution_at(&mut self, tool_name: &str, success: bool, output_size: usize, now: i64)
        ensures
            final(self).cache() == old(self).cache(),
            final(self).history() == history_window(
                old(self).history().push(
                    spec_record(tool_name@, now, success, output_size),
                ),
            ),
    {
        proof {
            use_type_invariant(&*self);
        }
        let rec = ExecutionRecord { tool_name: tool_name.to_owned(), timestamp: now, success, output_size };
        let ghost pushed = self.history().push(rec@);
        let mut h: Vec<ExecutionRecord> = Vec::new();
        std::mem::swap(&mut h, &mut self.execution_history);
        h.push(rec);
        assert(h@.map_values(|e: ExecutionRecord| e@) =~= pushed);
        if h.len() > HISTORY_LIMIT {
            h.remove(0);
            assert(h@.map_values(|e: ExecutionRecord| e@) =~= pushed.subrange(pushed.len() - HISTORY_LIMIT, pushed.len() as int));
        }
        self.execution_history = h;
    }

    /// Record an execution in the history now.
    pub fn record_execution(&mut self, tool_name: &str, success: bool, output_size: usize)
        ensures
            final(self).cache() == old(self).cache(),
            exists|now: i64|
                final(self).history() == history_window(
                    old(self).history().push(
                        #[trigger] spec_record(tool_name@, now, success, output_size),
                    ),
                ),
    {
        self.record_execution_at(tool_name, success, output_size, now_millis())
    }

    /// Finishes COMPOSIO_MULTI_EXECUTE_TOOL at time `now` with the call's
    /// reply: the tool result, recorded in the history (a response without
    /// result is an error and is not recorded).
    pub fn complete_execute_tool_at(
        &mut self,
        tool_name: &str,
        reply: &Result<JsonRpcResponse, String>,
        now: i64,
    ) -> (r: Result<ToolResult, String>)
        ensures
            execute_result_view(r) == spec_execute_outcome(reply_view(*reply)),
            final(self).cache() == old(self).cache(),
            match spec_execute_record(reply_view(*reply)) {
                Some((success, size)) => final(self).history() == history_window(
                    old(self).history().push(
                        ExecutionRecordView {
                            tool_name: tool_name@,
                            timestamp: now,
                            success,
                            output_size: size as usize,
                        },
                    ),
                ),
                None => final(self).history() == old(self).history(),
            },
    {
        let r = interpret_execute_reply(reply);
        let failed_call = match reply {
            Err(_) => true,
            Ok(rpc) => rpc.error.is_some(),
        };
        match &r {
            Ok(t) => {
                if failed_call {
                    self.record_execution_at(tool_name, false, 0, now);
                } else {
                    let size = t.output.as_str().len();
                    self.record_execution_at(tool_name, t.success, size, now);
                }
            },
            Err(_) => {},
        }
        r
    }

    /// Get execution history
    pub fn get_execution_history(&self) -> (r: Vec<ExecutionRecord>)
        ensures
            r@.len() == self.history().len(),
            forall|i: int| 0 <= i < r@.len() ==> #[trigger] r@[i]@ == self.history()[i],
    {
        let mut out: Vec<ExecutionRecord> = Vec::new();
        let mut i: usize = 0;
        while i < self.execution_history.len()
            invariant
                i <= self.execution_history@.len(),
                out@.len() == i,
                forall|k: int| 0 <= k < i ==> #[trigger] out@[k] == self.execution_history@[k],
            decreases self.execution_history.len() - i,
        {
            out.push(self.execution_history[i].clone());
            i = i + 1;
        }
        out
    }

    /// Clear execution history
    pub fn clear_execution_history(&mut self)
        ensures
            final(self).history().len() == 0,
            final(self).cache() == old(self).cache(),
    {
        self.execution_history = Vec::new();
    }
}

impl Clone for ExecutionRecord {
    fn clone(&self) -> (r: Self)
        ensures
            r == *self,
    {
        ExecutionRecord {
            tool_name: self.tool_name.clone(),
            timestamp: self.timestamp,
            success: self.success,
            output_size: self.output_size,
        }
    }
}

} // verus!
