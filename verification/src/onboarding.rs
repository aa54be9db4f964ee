//! OAuth onboarding for Composio toolkits: reading connect links and
//! connection state out of COMPOSIO_MANAGE_CONNECTIONS replies, and the
//! decisions of the polling and local-callback waits.
//!
//! The calls, the browser, the local callback server, printing and sleeping
//! are the caller's part; each step hands the reply or event back here.

use vstd::prelude::*;
use vstd::utf8::encode_utf8;
use crate::cache::{ConnectionInfo, ConnectionStatus};
use crate::clock::now_millis;
use crate::json::{Json, JsonV, content_text, json_get, json_get_either, json_get_str, json_as_str, parse_json, spec_parse_json};
use crate::meta_tools::{find_oauth_link, spec_oauth_link};
use crate::text::{append_str, seq_contains, spec_decimal, spec_to_lowercase, str_eq, string_from_chars, to_lowercase, u64_to_string};

verus! {

/// How long a connect link stays valid, in milliseconds (10 minutes).
pub const CONNECT_LINK_TTL_MS: i64 = 600_000;

/// Number of connection checks before polling gives up (10 minutes at one
/// check every 10 seconds).
pub const MAX_POLL_ATTEMPTS: u32 = 60;

/// How long to wait for the local OAuth callback, in milliseconds.
pub const CALLBACK_TIMEOUT_MS: u64 = 600_000;

/// How the user is taken through OAuth.
#[derive(Debug, Clone, Copy, PartialEq, Eq, Structural)]
pub enum OnboardingMode {
    /// Open the browser automatically, then poll.
    CliAutoOpen,
    /// Print the link, then poll.
    CliPrintOnly,
    /// Start a local callback server and wait for the redirect.
    CliCallbackLocal,
    /// Hand the link back to the caller.
    WebCallback,
}

/// OAuth flow state
#[derive(Debug)]
pub enum OAuthFlow {
    /// OAuth completed successfully
    Completed(ConnectionInfo),
    /// OAuth pending - user needs to complete authentication
    Pending {
        connect_link: String,
        /// Milliseconds since the Unix epoch.
        expires_at: i64,
    },
    /// OAuth failed with error
    Failed { error: String },
}

/// Connect link information
#[derive(Debug, Clone)]
pub struct ConnectLink {
    pub url: String,
    /// Milliseconds since the Unix epoch.
    pub expires_at: i64,
    pub toolkit: String,
}

/// The toolkit's entry under `data.results`.
pub open spec fn toolkit_entry(data: JsonV, toolkit: Seq<char>) -> Option<JsonV> {
    match json_get(data, "data"@) {
        Some(d) => match json_get(d, "results"@) {
            Some(r) => json_get(r, toolkit),
            None => None,
        },
        None => None,
    }
}

/// The connect link a parsed payload holds: an OAuth link in the toolkit's
/// instruction, the toolkit's `redirect_url`, or a top-level `redirect_url`.
pub open spec fn spec_link_from_parsed(data: JsonV, toolkit: Seq<char>) -> Option<Seq<char>> {
    let td = toolkit_entry(data, toolkit);
    let from_instruction = match td {
        Some(t) => match json_get_str(t, "instruction"@) {
            Some(i) => spec_oauth_link(i),
            None => None,
        },
        None => None,
    };
    match from_instruction {
        Some(l) => Some(l),
        None => match match td {
            Some(t) => json_get_str(t, "redirect_url"@),
            None => None,
        } {
            Some(u) => Some(u),
            None => json_get_str(data, "redirect_url"@),
        },
    }
}

/// The connect link a raw MANAGE_CONNECTIONS response holds: from the JSON of
/// `result.content[0].text`, or an OAuth link in that text, or from `result`
/// itself.
pub open spec fn spec_connect_link(response: JsonV, toolkit: Seq<char>) -> Option<Seq<char>> {
    let result = json_get(response, "result"@);
    let from_text = match result {
        Some(r) => match content_text(r) {
            Some(t) => match match spec_parse_json(t) {
                Some(p) => spec_link_from_parsed(p, toolkit),
                None => None,
            } {
                Some(l) => Some(l),
                None => spec_oauth_link(t),
            },
            None => None,
        },
        None => None,
    };
    match from_text {
        Some(l) => Some(l),
        None => match result {
            Some(r) => spec_link_from_parsed(r, toolkit),
            None => None,
        },
    }
}

/// A connection status by name, in any letter case; unknown names count as
/// active.
pub open spec fn spec_status(s: Option<Seq<char>>) -> ConnectionStatus {
    match s {
        Some(x) => if spec_to_lowercase(x) == "expired"@ {
            ConnectionStatus::Expired
        } else if spec_to_lowercase(x) == "revoked"@ {
            ConnectionStatus::Revoked
        } else {
            ConnectionStatus::Active
        },
        None => ConnectionStatus::Active,
    }
}

/// The connection a parsed payload reports for a toolkit: its account id
/// (`connected_account_id`, else `id`) and status, when its entry names an
/// account and asks for no OAuth (no `instruction`, no `redirect_url`).
pub open spec fn spec_connection_from_parsed(data: JsonV, toolkit: Seq<char>) -> Option<(Seq<char>, ConnectionStatus)> {
    match toolkit_entry(data, toolkit) {
        None => None,
        Some(t) => if json_get(t, "instruction"@) is Some || json_get(t, "redirect_url"@) is Some {
            None
        } else {
            match json_get_either(t, "connected_account_id"@, "id"@) {
                Some(v) => match json_as_str(v) {
                    Some(id) => Some((id, spec_status(json_get_str(t, "status"@)))),
                    None => None,
                },
                None => None,
            }
        },
    }
}

/// The connection a raw MANAGE_CONNECTIONS response reports: from the JSON of
/// `result.content[0].text`, else from `result` itself.
pub open spec fn spec_connection(response: JsonV, toolkit: Seq<char>) -> Option<(Seq<char>, ConnectionStatus)> {
    let result = json_get(response, "result"@);
    let from_text = match result {
        Some(r) => match content_text(r) {
            Some(t) => match spec_parse_json(t) {
                Some(p) => spec_connection_from_parsed(p, toolkit),
                None => None,
            },
            None => None,
        },
        None => None,
    };
    match from_text {
        Some(c) => Some(c),
        None => match result {
            Some(r) => spec_connection_from_parsed(r, toolkit),
            None => None,
        },
    }
}

/// A connection record for a toolkit holds this account and status, created
/// at `now`.
pub open spec fn connection_is(info: ConnectionInfo, toolkit: Seq<char>, c: (Seq<char>, ConnectionStatus), now: i64) -> bool {
    &&& info.toolkit@ == toolkit
    &&& info.connected_account_id@ == c.0
    &&& info.status == c.1
    &&& info.created_at == now
}

/// Extract OAuth link from text using pattern matching
pub fn extract_link_from_text(text: &str) -> (r: Option<String>)
    ensures
        r matches Some(l) ==> spec_oauth_link(text@) == Some(l@),
        r is None ==> spec_oauth_link(text@) is None,
{
    find_oauth_link(text)
}

/// Extract link from parsed JSON data
pub fn extract_link_from_parsed(data: &Json, toolkit: &str) -> (r: Option<String>)
    ensures
        r matches Some(l) ==> spec_link_from_parsed(data.jv(), toolkit@) == Some(l@),
        r is None ==> spec_link_from_parsed(data.jv(), toolkit@) is None,
{
    let td = match data.get("data") {
        Some(d) => match d.get("results") {
            Some(res) => res.get(toolkit),
            None => None,
        },
        None => None,
    };
    let from_instruction = match td {
        Some(t) => match t.get_str("instruction") {
            Some(i) => find_oauth_link(i),
            None => None,
        },
        None => None,
    };
    if from_instruction.is_some() {
        return from_instruction;
    }
    let redirect = match td {
        Some(t) => t.get_str("redirect_url"),
        None => None,
    };
    match redirect {
        Some(u) => Some(u.to_owned()),
        None => match data.get_str("redirect_url") {
            Some(u) => Some(u.to_owned()),
            None => None,
        },
    }
}

/// Extract the connect link from a COMPOSIO_MANAGE_CONNECTIONS response.
pub fn extract_connect_link_from_response(response: &Json, toolkit: &str) -> (r: Result<String, String>)
    ensures
        match spec_connect_link(response.jv(), toolkit@) {
            Some(l) => r matches Ok(x) && x@ == l,
            None => r matches Err(e) && e@ == "Failed to extract connect link from response for toolkit '"@
                + toolkit@ + "'"@,
        },
{
    let result = response.get("result");
    let from_text = match result {
        Some(res) => match res.content_text() {
            Some(t) => {
                let parsed_link = match parse_json(t) {
                    Some(p) => extract_link_from_parsed(&p, toolkit),
                    None => None,
                };
                match parsed_link {
                    Some(l) => Some(l),
                    None => find_oauth_link(t),
                }
            },
            None => None,
        },
        None => None,
    };
    if let Some(l) = from_text {
        return Ok(l);
    }
    let direct = match result {
        Some(res) => extract_link_from_parsed(res, toolkit),
        None => None,
    };
    match direct {
        Some(l) => Ok(l),
        None => {
            let mut v: Vec<char> = Vec::new();
            append_str(&mut v, "Failed to extract connect link from response for toolkit '");
            append_str(&mut v, toolkit);
            append_str(&mut v, "'");
            Err(string_from_chars(v.as_slice()))
        },
    }
}

/// Reads a connection status name.
fn parse_status(s: Option<&str>) -> (r: ConnectionStatus)
    ensures
        r == spec_status(match s {
            Some(x) => Some(x@),
            None => None,
        }),
{
    match s {
        Some(x) => {
            let low = to_lowercase(x);
            if str_eq(low.as_str(), "expired") {
                ConnectionStatus::Expired
            } else if str_eq(low.as_str(), "revoked") {
                ConnectionStatus::Revoked
            } else {
                ConnectionStatus::Active
            }
        },
        None => ConnectionStatus::Active,
    }
}

/// Parse, at `now`, connection info from JSON data.
pub fn parse_connection_info(data: &Json, toolkit: &str, now: i64) -> (r: Option<ConnectionInfo>)
    ensures
        match spec_connection_from_parsed(data.jv(), toolkit@) {
            Some(c) => r matches Some(info) && connection_is(info, toolkit@, c, now),
            None => r is None,
        },
{
    let td = match data.get("data") {
        Some(d) => match d.get("results") {
            Some(res) => res.get(toolkit),
            None => None,
        },
        None => None,
    };
    let t = match td {
        Some(t) => t,
        None => {
            return None;
        },
    };
    if t.get("instruction").is_some() || t.get("redirect_url").is_some() {
        return None;
    }
    let id = match crate::json::get_either(t, "connected_account_id", "id") {
        Some(v) => match v.as_str() {
            Some(s) => s,
            None => {
                return None;
            },
        },
        None => {
            return None;
        },
    };
    let status = parse_status(t.get_str("status"));
    Some(ConnectionInfo { toolkit: toolkit.to_owned(), connected_account_id: id.to_owned(), status, created_at: now })
}

/// Extract, at `now`, connection info from a COMPOSIO_MANAGE_CONNECTIONS
/// response: `None` when the toolkit is not connected or needs OAuth.
pub fn extract_connection_info(response: &Json, toolkit: &str, now: i64) -> (r: Option<ConnectionInfo>)
    ensures
        match spec_connection(response.jv(), toolkit@) {
            Some(c) => r matches Some(info) && connection_is(info, toolkit@, c, now),
            None => r is None,
        },
{
    let result = response.get("result");
    let from_text = match result {
        Some(res) => match res.content_text() {
            Some(t) => match parse_json(t) {
                Some(p) => parse_connection_info(&p, toolkit, now),
                None => None,
            },
            None => None,
        },
        None => None,
    };
    if from_text.is_some() {
        return from_text;
    }
    match result {
        Some(res) => parse_connection_info(res, toolkit, now),
        None => None,
    }
}

/// What a connection check answered: the call failed, or the response (which
/// may hold no connection).
pub open spec fn reply_json(reply: Result<Json, String>) -> Result<JsonV, Seq<char>> {
    match reply {
        Ok(j) => Ok(j.jv()),
        Err(e) => Err(e@),
    }
}

/// Finishes generating a connect link at `now` with the MANAGE_CONNECTIONS
/// reply: the link, valid for 10 minutes.
pub fn connect_link_from_reply(reply: &Result<Json, String>, toolkit: &str, now: i64) -> (r: Result<ConnectLink, String>)
    requires
        now <= i64::MAX - CONNECT_LINK_TTL_MS,
    ensures
        match reply_json(*reply) {
            Err(_) => r matches Err(e) && e@ == "Failed to call COMPOSIO_MANAGE_CONNECTIONS"@,
            Ok(resp) => match spec_connect_link(resp, toolkit@) {
                Some(l) => r matches Ok(c) && c.url@ == l && c.toolkit@ == toolkit@ && c.expires_at == now
                    + CONNECT_LINK_TTL_MS,
                None => r matches Err(e) && e@ == "Failed to extract connect link from response for toolkit '"@
                    + toolkit@ + "'"@,
            },
        },
{
    match reply {
        Err(_) => Err("Failed to call COMPOSIO_MANAGE_CONNECTIONS".to_owned()),
        Ok(resp) => {
            let url = extract_connect_link_from_response(resp, toolkit)?;
            Ok(ConnectLink { url, expires_at: now + CONNECT_LINK_TTL_MS, toolkit: toolkit.to_owned() })
        },
    }
}

/// Finishes a connection check at `now` with the MANAGE_CONNECTIONS reply.
pub fn connection_from_reply(reply: &Result<Json, String>, toolkit: &str, now: i64) -> (r: Result<Option<ConnectionInfo>, String>)
    ensures
        match reply_json(*reply) {
            Err(_) => r matches Err(e) && e@ == "Failed to call COMPOSIO_MANAGE_CONNECTIONS"@,
            Ok(resp) => match spec_connection(resp, toolkit@) {
                Some(c) => r matches Ok(Some(info)) && connection_is(info, toolkit@, c, now),
                None => r matches Ok(None),
            },
        },
{
    match reply {
        Err(_) => Err("Failed to call COMPOSIO_MANAGE_CONNECTIONS".to_owned()),
        Ok(resp) => Ok(extract_connection_info(resp, toolkit, now)),
    }
}

/// What polling does after a connection check.
#[derive(Debug)]
pub enum PollDecision {
    /// The connection is established.
    Completed(ConnectionInfo),
    /// Wait and check again; when `progress` is set, report the minutes
    /// elapsed and remaining.
    Wait { progress: Option<(u32, u32)> },
    /// Give up: the flow failed with this error.
    TimedOut(OAuthFlow),
}

/// The message of a poll that timed out.
pub open spec fn poll_timeout_message() -> Seq<char> {
    "OAuth authentication timed out after 10 minutes"@
}

/// Decides polling after check number `attempt` (from 1): a connection ends
/// it; otherwise (no connection yet, or the check failed) it waits, reporting
/// progress every sixth attempt, until the last attempt, after which it times
/// out.
pub fn poll_step(attempt: u32, check: Result<Option<ConnectionInfo>, String>) -> (r: PollDecision)
    requires
        1 <= attempt <= MAX_POLL_ATTEMPTS,
    ensures
        match check {
            Ok(Some(info)) => r == PollDecision::Completed(info),
            _ => if attempt < MAX_POLL_ATTEMPTS {
                r matches PollDecision::Wait { progress } && progress == (if attempt % 6 == 0 {
                    Some(((attempt / 6) as u32, ((MAX_POLL_ATTEMPTS - attempt) / 6) as u32))
                } else {
                    None
                })
            } else {
                r matches PollDecision::TimedOut(OAuthFlow::Failed { error }) && error@ == poll_timeout_message()
            },
        },
{
    match check {
        Ok(Some(info)) => PollDecision::Completed(info),
        _ => {
            if attempt < MAX_POLL_ATTEMPTS {
                let progress = if attempt % 6 == 0 {
                    Some((attempt / 6, (MAX_POLL_ATTEMPTS - attempt) / 6))
                } else {
                    None
                };
                PollDecision::Wait { progress }
            } else {
                PollDecision::TimedOut(
                    OAuthFlow::Failed { error: "OAuth authentication timed out after 10 minutes".to_owned() },
                )
            }
        },
    }
}

/// Polling ends within `MAX_POLL_ATTEMPTS` checks: the last check either
/// finds the connection or times out, and every earlier check without a
/// connection waits.
pub proof fn law_polling_is_bounded(attempt: u32, found: bool)
    requires
        1 <= attempt <= MAX_POLL_ATTEMPTS,
    ensures
        attempt == MAX_POLL_ATTEMPTS && !found ==> !(attempt < MAX_POLL_ATTEMPTS),
        attempt % 6 == 0 ==> (attempt / 6) + (MAX_POLL_ATTEMPTS - attempt) / 6 == 10,
{
}

/// The address the local callback server listens on for a port.
pub open spec fn spec_callback_url(port: u16) -> Seq<char> {
    "http://localhost:"@ + spec_decimal(port as int) + "/callback"@
}

/// The local callback URL for a port.
pub fn callback_url(port: u16) -> (r: String)
    ensures
        r@ == spec_callback_url(port),
{
    let mut v: Vec<char> = Vec::new();
    append_str(&mut v, "http://localhost:");
    let p = u64_to_string(port as u64);
    append_str(&mut v, p.as_str());
    append_str(&mut v, "/callback");
    string_from_chars(v.as_slice())
}

/// A byte that percent-encoding leaves as it is: an ASCII letter or digit,
/// or one of `-`, `.`, `_`, `~`.
pub open spec fn url_safe(b: u8) -> bool {
    (48 <= b <= 57) || (65 <= b <= 90) || (97 <= b <= 122) || b == 45 || b == 46 || b == 95 || b == 126
}

/// An uppercase hexadecimal digit.
pub open spec fn hex_digit(d: u8) -> char {
    if d < 10 {
        (48 + d) as char
    } else {
        (55 + d) as char
    }
}

/// Percent-encoding of bytes: a safe byte stays as its character, any other
/// becomes `%` and its two uppercase hexadecimal digits.
pub open spec fn percent_encode(bytes: Seq<u8>) -> Seq<char>
    decreases bytes.len(),
{
    if bytes.len() == 0 {
        Seq::empty()
    } else {
        let b = bytes[0];
        (if url_safe(b) {
            seq![b as char]
        } else {
            seq!['%', hex_digit(b / 16), hex_digit(b % 16)]
        }) + percent_encode(bytes.drop_first())
    }
}

/// What `urlencoding::encode` makes of a text: the percent-encoding of its
/// UTF-8 bytes.
pub open spec fn spec_url_encode(s: Seq<char>) -> Seq<char> {
    percent_encode(encode_utf8(s))
}

/// Percent-encodes a text with `urlencoding::encode`: every UTF-8 byte
/// outside `A-Z a-z 0-9 - . _ ~` becomes `%XY` with uppercase hex digits.
#[verifier::external_body]
fn url_encode(s: &str) -> (r: String)
    ensures
        r@ == spec_url_encode(s@),
{
    urlencoding::encode(s).into_owned()
}

/// The connect link with the local callback as its redirect: the encoded
/// callback URL is appended as `redirect_uri`, after `&` when the link already
/// has a query and after `?` otherwise.
pub open spec fn spec_redirected_link(url: Seq<char>, callback: Seq<char>) -> Seq<char> {
    url + (if seq_contains(url, "?"@) { "&redirect_uri="@ } else { "?redirect_uri="@ }) + spec_url_encode(callback)
}

/// The connect link redirected to the local callback server.
pub fn redirected_link(url: &str, callback: &str) -> (r: String)
    ensures
        r@ == spec_redirected_link(url@, callback@),
{
    let enc = url_encode(callback);
    let mut v: Vec<char> = Vec::new();
    append_str(&mut v, url);
    if crate::text::str_contains(url, "?") {
        append_str(&mut v, "&redirect_uri=");
    } else {
        append_str(&mut v, "?redirect_uri=");
    }
    append_str(&mut v, enc.as_str());
    string_from_chars(v.as_slice())
}

/// What the local-callback wait does next.
#[derive(Debug)]
pub enum CallbackDecision {
    /// The callback came: check the connection.
    CheckConnection,
    /// Keep waiting.
    Wait,
    /// Give up: the flow failed with this error.
    TimedOut(OAuthFlow),
}

/// Decides the local-callback wait after `elapsed_ms`: a received callback
/// is checked; otherwise it waits until 10 minutes have passed.
pub fn callback_step(elapsed_ms: u64, received: bool) -> (r: CallbackDecision)
    ensures
        elapsed_ms < CALLBACK_TIMEOUT_MS && received ==> r is CheckConnection,
        elapsed_ms < CALLBACK_TIMEOUT_MS && !received ==> r is Wait,
        elapsed_ms >= CALLBACK_TIMEOUT_MS ==> (r matches CallbackDecision::TimedOut(OAuthFlow::Failed { error })
            && error@ == "OAuth callback timed out after 10 minutes"@),
{
    if elapsed_ms < CALLBACK_TIMEOUT_MS {
        if received {
            CallbackDecision::CheckConnection
        } else {
            CallbackDecision::Wait
        }
    } else {
        CallbackDecision::TimedOut(OAuthFlow::Failed { error: "OAuth callback timed out after 10 minutes".to_owned() })
    }
}

/// What follows the connection check made after the callback.
#[derive(Debug)]
pub enum AfterCallback {
    /// Done with this flow.
    Done(OAuthFlow),
    /// The connection is not visible yet: fall back to polling.
    Poll,
}

/// Decides the flow after the callback's connection check: a connection
/// completes it, none falls back to polling, a failed check fails it.
pub fn after_callback(check: Result<Option<ConnectionInfo>, String>) -> (r: AfterCallback)
    ensures
        match check {
            Ok(Some(info)) => r == AfterCallback::Done(OAuthFlow::Completed(info)),
            Ok(None) => r is Poll,
            Err(e) => r matches AfterCallback::Done(OAuthFlow::Failed { error }) && error@
                == "Failed to verify connection: "@ + e@,
        },
{
    match check {
        Ok(Some(info)) => AfterCallback::Done(OAuthFlow::Completed(info)),
        Ok(None) => AfterCallback::Poll,
        Err(e) => {
            let mut v: Vec<char> = Vec::new();
            append_str(&mut v, "Failed to verify connection: ");
            append_str(&mut v, e.as_str());
            AfterCallback::Done(OAuthFlow::Failed { error: string_from_chars(v.as_slice()) })
        },
    }
}

/// The error when no port of a range can be bound.
pub fn no_port_message(start: u16, end: u16) -> (r: String)
    ensures
        r@ == "No available ports found in range "@ + spec_decimal(start as int) + "-"@ + spec_decimal(end as int),
{
    let mut v: Vec<char> = Vec::new();
    append_str(&mut v, "No available ports found in range ");
    let a = u64_to_string(start as u64);
    append_str(&mut v, a.as_str());
    append_str(&mut v, "-");
    let b = u64_to_string(end as u64);
    append_str(&mut v, b.as_str());
    string_from_chars(v.as_slice())
}

/// OAuth onboarding handler for Composio toolkits
pub struct OnboardingHandler {
    mode: OnboardingMode,
    user_id: String,
}

impl OnboardingHandler {
    /// The onboarding mode.
    pub closed spec fn spec_mode(self) -> OnboardingMode {
        self.mode
    }

    /// The user the connections are for.
    pub closed spec fn spec_user(self) -> Seq<char> {
        self.user_id@
    }

    /// Create a new onboarding handler for the configured mode and effective
    /// user id
    pub fn new(mode: OnboardingMode, user_id: String) -> (h: Self)
        ensures
            h.spec_mode() == mode,
            h.spec_user() == user_id@,
    {
        OnboardingHandler { mode, user_id }
    }

    /// The onboarding mode.
    pub fn mode(&self) -> (r: OnboardingMode)
        ensures
            r == self.spec_mode(),
    {
        self.mode
    }

    /// Get the effective user_id
    pub fn effective_user_id(&self) -> (r: String)
        ensures
            r@ == self.spec_user(),
    {
        self.user_id.clone()
    }

    /// The flow of web callback mode: pending on the link until it expires.
    pub fn handle_web_callback(&self, connect_link: &ConnectLink) -> (r: OAuthFlow)
        ensures
            r matches OAuthFlow::Pending { connect_link: l, expires_at } && l@ == connect_link.url@ && expires_at
                == connect_link.expires_at,
    {
        OAuthFlow::Pending { connect_link: connect_link.url.clone(), expires_at: connect_link.expires_at }
    }

    /// Revoke a connection for a toolkit. Revocation is not offered by the
    /// service yet, so nothing changes.
    pub fn revoke_connection(&self, toolkit: &str) -> (r: Result<(), String>)
        ensures
            r is Ok,
    {
        Ok(())
    }
}

/// A connected account is recognised: when the toolkit's entry under
/// `data.results` asks for no OAuth (no `instruction`, no `redirect_url`)
/// and names its account as a text under `connected_account_id` or, failing
/// that key, under `id`, the payload reports that account as connected, with
/// the status the entry names (active when it names none). An entry that asks
/// for OAuth, or a payload without the toolkit, reports no connection.
pub proof fn law_connected_account_is_recognised(data: JsonV, toolkit: Seq<char>, account: Seq<char>)
    ensures
        ({
            let entry = match json_get(data, "data"@) {
                Some(d) => match json_get(d, "results"@) {
                    Some(r) => json_get(r, toolkit),
                    None => None,
                },
                None => None,
            };
            let asks_oauth = entry matches Some(t) && (json_get(t, "instruction"@) is Some || json_get(t, "redirect_url"@) is Some);
            let names_account = entry matches Some(t) && (json_get(t, "connected_account_id"@) == Some(JsonV::Str(account)) || (
            json_get(t, "connected_account_id"@) is None && json_get(t, "id"@) == Some(JsonV::Str(account))));
            &&& !asks_oauth && names_account ==> (spec_connection_from_parsed(data, toolkit) matches Some((id, status))
                && id == account && (json_get_str(entry->Some_0, "status"@) is None ==> status == ConnectionStatus::Active))
            &&& entry is None || asks_oauth ==> spec_connection_from_parsed(data, toolkit) is None
        }),
{
}

} // verus!
