//! Remote workbench sessions: a persistent Python sandbox per user, with
//! inactivity expiry, eviction of the least recently used session when the
//! handler is full, and summarization of large outputs.
//!
//! The COMPOSIO_REMOTE_WORKBENCH calls are made by the caller. Creating a
//! session is two steps: `begin_workbench_session_at` either reuses a valid
//! session or hands back the state a new one will start from; the caller
//! makes the initialization call and passes its reply to
//! `finish_workbench_session_at`.

use vstd::prelude::*;
use vstd::utf8::{decode_utf8, encode_utf8, encode_utf8_decode_utf8, is_char_boundary};
use crate::clock::{now_millis, MILLIS_PER_HOUR};
use crate::json::{Json, JsonV, content_text, json_get_str, json_pretty, parse_json, spec_json_pretty, spec_parse_json};
use crate::jsonrpc::{JsonRpcResponse, RpcView, reply_view};
use crate::store::KeyedStore;
use crate::text::{append_str, seq_starts_with, spec_decimal, string_from_chars, u64_to_string};
use crate::tool_result::{ToolResult, ToolResultView};

verus! {

/// Output above this many bytes is summarized.
pub const SUMMARY_THRESHOLD: usize = 16000;

/// Bytes kept from the start of a summarized output.
pub const HEAD_SIZE: usize = 8000;

/// Bytes kept from the end of a summarized output.
pub const TAIL_SIZE: usize = 4000;

/// Workbench session state
///
/// The session id, the owning user, the files written in the session, the
/// last execution output, and when the session was created and last used
/// (milliseconds since the Unix epoch).
#[derive(Debug)]
pub struct WorkbenchState {
    pub session_id: Option<String>,
    pub user_id: String,
    pub files: KeyedStore<String>,
    pub last_output: Option<String>,
    pub created_at: Option<i64>,
    pub last_accessed_at: Option<i64>,
}

/// What a workbench state holds, as values.
pub struct WorkbenchStateView {
    pub session_id: Option<Seq<char>>,
    pub user_id: Seq<char>,
    pub files: Map<Seq<char>, String>,
    pub last_output: Option<Seq<char>>,
    pub created_at: Option<i64>,
    pub last_accessed_at: Option<i64>,
}

/// The text of an optional string.
pub open spec fn opt_text(o: Option<String>) -> Option<Seq<char>> {
    match o {
        Some(s) => Some(s@),
        None => None,
    }
}

impl View for WorkbenchState {
    type V = WorkbenchStateView;

    open spec fn view(&self) -> WorkbenchStateView {
        WorkbenchStateView {
            session_id: opt_text(self.session_id),
            user_id: self.user_id@,
            files: self.files.model(),
            last_output: opt_text(self.last_output),
            created_at: self.created_at,
            last_accessed_at: self.last_accessed_at,
        }
    }
}

/// The empty state of a user.
pub open spec fn fresh_state(user_id: Seq<char>) -> WorkbenchStateView {
    WorkbenchStateView {
        session_id: None,
        user_id,
        files: Map::empty(),
        last_output: None,
        created_at: None,
        last_accessed_at: None,
    }
}

/// A state used at `now`.
pub open spec fn touched(s: WorkbenchStateView, now: i64) -> WorkbenchStateView {
    WorkbenchStateView { last_accessed_at: Some(now), ..s }
}

/// A state with its session forgotten: only the user remains.
pub open spec fn reset_state(s: WorkbenchStateView) -> WorkbenchStateView {
    fresh_state(s.user_id)
}

/// Whole hours in a span of milliseconds, rounded toward zero.
pub open spec fn whole_hours(ms: int) -> int {
    if ms >= 0 {
        ms / (MILLIS_PER_HOUR as int)
    } else {
        -((-ms) / (MILLIS_PER_HOUR as int))
    }
}

/// A session has expired at `now` once `timeout_hours` whole hours have
/// passed since it was last used; one never used does not expire.
pub open spec fn state_expired(s: WorkbenchStateView, timeout_hours: i64, now: i64) -> bool {
    match s.last_accessed_at {
        Some(t) => whole_hours(now - t) >= timeout_hours,
        None => false,
    }
}

/// The sessions that have not expired at `now`.
pub open spec fn without_expired(m: Map<Seq<char>, WorkbenchStateView>, timeout_hours: i64, now: i64) -> Map<Seq<char>, WorkbenchStateView> {
    m.restrict(m.dom().filter(|k: Seq<char>| !state_expired(m[k], timeout_hours, now)))
}

/// `a` was used no later than `b`; a state never used counts as oldest.
pub open spec fn used_no_later(a: Option<i64>, b: Option<i64>) -> bool {
    match a {
        None => true,
        Some(x) => match b {
            None => false,
            Some(y) => x <= y,
        },
    }
}

/// `k0` names a least recently used session.
pub open spec fn is_lru(m: Map<Seq<char>, WorkbenchStateView>, k0: Seq<char>) -> bool {
    &&& m.contains_key(k0)
    &&& forall|k: Seq<char>| #[trigger] m.contains_key(k) ==> used_no_later(m[k0].last_accessed_at, m[k].last_accessed_at)
}

/// What eviction makes of the sessions: below `max` sessions nothing
/// changes; otherwise one least recently used session is removed.
pub open spec fn evict_outcome(before: Map<Seq<char>, WorkbenchStateView>, max: usize, after: Map<Seq<char>, WorkbenchStateView>) -> bool {
    if before.len() < max || before.len() == 0 {
        after == before
    } else {
        exists|k0: Seq<char>| is_lru(before, k0) && after == before.remove(k0)
    }
}

/// What making room for a user's new session does: while the other users
/// hold fewer than `max` sessions nothing changes; otherwise the least
/// recently used session of another user is removed.
pub open spec fn room_outcome(
    before: Map<Seq<char>, WorkbenchStateView>,
    user_id: Seq<char>,
    max: usize,
    after: Map<Seq<char>, WorkbenchStateView>,
) -> bool {
    let others = before.remove(user_id);
    if others.len() < max || others.len() == 0 {
        after == before
    } else {
        exists|k0: Seq<char>| is_lru(others, k0) && after == before.remove(k0)
    }
}

/// The sessions once the user has a state (a fresh one when absent).
pub open spec fn with_user(m: Map<Seq<char>, WorkbenchStateView>, user_id: Seq<char>) -> Map<Seq<char>, WorkbenchStateView> {
    if m.contains_key(user_id) {
        m
    } else {
        m.insert(user_id, fresh_state(user_id))
    }
}

/// Starting a session keeps the sessions within the limit: when there were
/// at most `max` sessions, making room for a user and then storing that
/// user's new session leaves at most `max`.
pub proof fn law_sessions_stay_within_limit(
    before: Map<Seq<char>, WorkbenchStateView>,
    user_id: Seq<char>,
    max: usize,
    after_room: Map<Seq<char>, WorkbenchStateView>,
    session: WorkbenchStateView,
)
    requires
        before.dom().finite(),
        before.len() <= max,
        1 <= max,
        room_outcome(with_user(before, user_id), user_id, max, after_room),
    ensures
        after_room.insert(user_id, session).len() <= max,
{
    let m1 = with_user(before, user_id);
    let others = m1.remove(user_id);
    assert(others.dom() =~= before.dom().remove(user_id));
    assert(m1.dom() =~= others.dom().insert(user_id));
    assert(others.dom().len() <= before.dom().len());
    assert(!others.dom().contains(user_id));
    assert(m1.dom().len() == others.dom().len() + 1);
    if others.len() < max || others.len() == 0 {
        assert(after_room.insert(user_id, session).dom() =~= m1.dom());
    } else {
        let k0 = choose|k0: Seq<char>| is_lru(others, k0) && after_room == m1.remove(k0);
        assert(k0 != user_id);
        assert(after_room.insert(user_id, session).dom() =~= m1.dom().remove(k0));
        assert(m1.dom().contains(k0));
    }
}

/// Reusing a valid session changes nothing but its last use: when the user
/// holds a session that has not expired at `now`, the next request of that
/// user is answered with the same session id, with no call to the sandbox
/// (see `begin_workbench_session_at`), and afterwards the user's state is the
/// same but for its last use, which is `now` (not earlier than before when
/// the clock has not gone back); every other session is as it was.
pub proof fn law_valid_session_is_reused(
    m: Map<Seq<char>, WorkbenchStateView>,
    user_id: Seq<char>,
    timeout_hours: i64,
    now: i64,
)
    requires
        m.contains_key(user_id),
        m[user_id].session_id is Some,
        !state_expired(m[user_id], timeout_hours, now),
    ensures
        ({
            let st = with_user(m, user_id)[user_id];
            let after = with_user(m, user_id).insert(user_id, touched(st, now));
            &&& st.session_id is Some && !state_expired(st, timeout_hours, now)
            &&& after[user_id] == WorkbenchStateView { last_accessed_at: Some(now), ..m[user_id] }
            &&& after[user_id].session_id == m[user_id].session_id
            &&& (m[user_id].last_accessed_at matches Some(t) ==> (t <= now ==> t <= after[user_id].last_accessed_at->0))
            &&& after.dom() == m.dom()
            &&& forall|k: Seq<char>| k != user_id && #[trigger] m.contains_key(k) ==> after[k] == m[k]
        }),
{
    assert(with_user(m, user_id) == m);
    assert(m.insert(user_id, touched(m[user_id], now)).dom() =~= m.dom());
}

/// What a new session's state becomes once the sandbox gave it an id.
pub open spec fn established(p: WorkbenchStateView, session_id: Seq<char>, now: i64) -> WorkbenchStateView {
    WorkbenchStateView {
        session_id: Some(session_id),
        created_at: Some(now),
        last_accessed_at: Some(now),
        last_output: Some("Workbench session initialized"@),
        ..p
    }
}

/// A session persists: once established for a user at `start`, the user's
/// state holds that session and it is not expired at any later time within
/// the timeout, so the next request of that user reuses it; other users'
/// states are untouched.
pub proof fn law_session_persists_within_timeout(
    m: Map<Seq<char>, WorkbenchStateView>,
    user_id: Seq<char>,
    pending: WorkbenchStateView,
    session_id: Seq<char>,
    start: i64,
    later: i64,
    timeout_hours: i64,
    other: Seq<char>,
)
    requires
        start <= later,
        later - start < timeout_hours * MILLIS_PER_HOUR,
        other != user_id,
    ensures
        ({
            let after = m.insert(user_id, established(pending, session_id, start));
            let st = with_user(after, user_id)[user_id];
            &&& st.session_id == Some(session_id)
            &&& !state_expired(st, timeout_hours, later)
            &&& after.contains_key(other) == m.contains_key(other)
            &&& m.contains_key(other) ==> after[other] == m[other]
        }),
{
    let d = later - start;
    assert(d / (MILLIS_PER_HOUR as int) < timeout_hours) by (nonlinear_arith)
        requires
            0 <= d,
            d < timeout_hours * MILLIS_PER_HOUR,
            MILLIS_PER_HOUR == 3_600_000,
    ;
}

/// The session id a workbench payload reports: `session_id` in the JSON of
/// `content[0].text`, else a top-level `session_id`.
pub open spec fn spec_payload_session_id(data: JsonV) -> Option<Seq<char>> {
    let from_text = match content_text(data) {
        Some(t) => match spec_parse_json(t) {
            Some(p) => json_get_str(p, "session_id"@),
            None => None,
        },
        None => None,
    };
    match from_text {
        Some(s) => Some(s),
        None => json_get_str(data, "session_id"@),
    }
}

/// The output a workbench payload reports: from the JSON of
/// `content[0].text`, its `output` or the whole document pretty-printed; that
/// text itself when it is not JSON; else a top-level `output`, or the whole
/// payload pretty-printed.
pub open spec fn spec_workbench_output(data: JsonV) -> Seq<char> {
    match content_text(data) {
        Some(t) => match spec_parse_json(t) {
            Some(p) => match json_get_str(p, "output"@) {
                Some(o) => o,
                None => spec_json_pretty(p),
            },
            None => t,
        },
        None => match json_get_str(data, "output"@) {
            Some(o) => o,
            None => spec_json_pretty(data),
        },
    }
}

/// A text whose byte length is at most `HEAD_SIZE + TAIL_SIZE`, or whose
/// head and tail cuts fall on character boundaries (slicing there does not
/// panic).
pub open spec fn cut_ok(b: Seq<u8>) -> bool {
    b.len() <= HEAD_SIZE + TAIL_SIZE || (is_char_boundary(b, HEAD_SIZE as int) && is_char_boundary(
        b,
        b.len() - TAIL_SIZE,
    ))
}

/// The summary of an output: unchanged up to `HEAD_SIZE + TAIL_SIZE` bytes;
/// otherwise its first `HEAD_SIZE` and last `TAIL_SIZE` bytes around a note
/// giving the number of bytes left out.
pub open spec fn spec_summary(out: Seq<char>) -> Seq<char> {
    let b = encode_utf8(out);
    if b.len() <= HEAD_SIZE + TAIL_SIZE {
        out
    } else {
        decode_utf8(b.subrange(0, HEAD_SIZE as int)) + "\n\n... [Output truncated: "@ + spec_decimal(
            b.len() - HEAD_SIZE - TAIL_SIZE,
        ) + " chars omitted] ...\n\n"@ + decode_utf8(b.subrange(b.len() - TAIL_SIZE, b.len() as int))
    }
}

/// The output handed back for a workbench run: summarized, with a metadata
/// line, above `SUMMARY_THRESHOLD` bytes; unchanged otherwise.
pub open spec fn spec_final_output(out: Seq<char>, session_id: Seq<char>) -> Seq<char> {
    let n = encode_utf8(out).len();
    if n > SUMMARY_THRESHOLD {
        spec_summary(out) + "\n\n[Workbench Metadata: session_id="@ + session_id + ", output_size="@
            + spec_decimal(n as int) + " bytes, full_output_available=true]"@
    } else {
        out
    }
}

/// Why a session could not be initialized.
pub enum SessionFailure {
    /// The sandbox answered with an error: its message and code.
    Rejected(String, i64),
    /// The call failed, or its reply carried no result: this text.
    Error(String),
}

/// The value of a session failure.
pub enum SessionFailureView {
    Rejected(Seq<char>, i64),
    Error(Seq<char>),
}

impl View for SessionFailure {
    type V = SessionFailureView;

    open spec fn view(&self) -> SessionFailureView {
        match self {
            SessionFailure::Rejected(m, c) => SessionFailureView::Rejected(m@, *c),
            SessionFailure::Error(e) => SessionFailureView::Error(e@),
        }
    }
}

/// What the sandbox answered a session initialization: the failure, or
/// `None` when the reply carries a result payload.
pub open spec fn spec_init_failure(reply: Result<RpcView, Seq<char>>) -> Option<SessionFailureView> {
    match reply {
        Err(_) => Some(SessionFailureView::Error("Failed to initialize Workbench session"@)),
        Ok(v) => match v.error {
            Some((code, message)) => Some(SessionFailureView::Rejected(message, code)),
            None => match v.result {
                None => Some(SessionFailureView::Error("No result in JSON-RPC response"@)),
                Some(_) => None,
            },
        },
    }
}

/// The error text of a failed session initialization.
pub open spec fn spec_failure_text(f: SessionFailureView) -> Seq<char> {
    match f {
        SessionFailureView::Rejected(message, code) => "Failed to create Workbench session: "@ + message
            + " (code: "@ + spec_decimal(code as int) + ")"@,
        SessionFailureView::Error(e) => e,
    }
}

/// The failed tool result of a sandbox error message.
pub open spec fn spec_sandbox_failure(message: Seq<char>) -> ToolResultView {
    ToolResultView { success: false, output: "Workbench execution failed: "@ + message, error: Some(message) }
}

/// Whether another user than `user_id` holds a session with this id.
pub open spec fn held_by_other(m: Map<Seq<char>, WorkbenchStateView>, user_id: Seq<char>, id: Seq<char>) -> bool {
    exists|k: Seq<char>| k != user_id && #[trigger] m.contains_key(k) && m[k].session_id == Some(id)
}

/// The session id handed to `user_id` for a proposed one: the proposal when
/// no other user holds it; otherwise the proposal padded with `_` to one
/// character more than the longest id another user holds.
pub open spec fn distinct_id(
    m: Map<Seq<char>, WorkbenchStateView>,
    user_id: Seq<char>,
    proposed: Seq<char>,
    id: Seq<char>,
) -> bool {
    if !held_by_other(m, user_id, proposed) {
        id == proposed
    } else {
        &&& id.len() > proposed.len()
        &&& id.subrange(0, proposed.len() as int) == proposed
        &&& forall|i: int| proposed.len() <= i < id.len() ==> #[trigger] id[i] == '_'
        &&& forall|k: Seq<char>| k != user_id && #[trigger] m.contains_key(k) && m[k].session_id is Some
            ==> m[k].session_id->0.len() < id.len()
        &&& exists|k: Seq<char>| k != user_id && #[trigger] m.contains_key(k) && m[k].session_id is Some
            && m[k].session_id->0.len() == id.len() - 1
    }
}

/// No two users hold the same session id.
pub open spec fn ids_distinct(m: Map<Seq<char>, WorkbenchStateView>) -> bool {
    forall|a: Seq<char>, b: Seq<char>|
        a != b && #[trigger] m.contains_key(a) && #[trigger] m.contains_key(b) && m[a].session_id is Some
            ==> m[a].session_id != m[b].session_id
}

/// Sessions stay isolated: when no two users share a session id, storing a
/// user's new session under an id no other user holds keeps it so.
pub proof fn law_session_ids_stay_distinct(
    m: Map<Seq<char>, WorkbenchStateView>,
    user_id: Seq<char>,
    pending: WorkbenchStateView,
    id: Seq<char>,
    now: i64,
)
    requires
        ids_distinct(m),
        !held_by_other(m, user_id, id),
    ensures
        ids_distinct(m.insert(user_id, established(pending, id, now))),
{
    let m2 = m.insert(user_id, established(pending, id, now));
    assert forall|a: Seq<char>, b: Seq<char>|
        a != b && #[trigger] m2.contains_key(a) && #[trigger] m2.contains_key(b) && m2[a].session_id is Some
            implies m2[a].session_id != m2[b].session_id by {
        if a == user_id {
            if m[b].session_id == Some(id) {
                assert(m.contains_key(b));
            }
        } else if b == user_id {
            if m[a].session_id == Some(id) {
                assert(m.contains_key(a));
            }
        }
    }
}

/// Whatever id is handed out, no other user holds it.
pub proof fn lemma_distinct_id_is_free(
    m: Map<Seq<char>, WorkbenchStateView>,
    user_id: Seq<char>,
    proposed: Seq<char>,
    id: Seq<char>,
)
    requires
        distinct_id(m, user_id, proposed, id),
    ensures
        !held_by_other(m, user_id, id),
{
    if held_by_other(m, user_id, id) {
        let k = choose|k: Seq<char>| k != user_id && #[trigger] m.contains_key(k) && m[k].session_id == Some(id);
        if !held_by_other(m, user_id, proposed) {
            assert(m[k].session_id == Some(proposed));
        }
    }
}

impl WorkbenchState {
    /// Create a new empty Workbench state for a user
    pub fn new(user_id: String) -> (s: Self)
        ensures
            s@ == fresh_state(user_id@),
    {
        WorkbenchState {
            session_id: None,
            user_id,
            files: KeyedStore::new(),
            last_output: None,
            created_at: None,
            last_accessed_at: None,
        }
    }

    /// Whether the session has expired at `now` (`timeout_hours` of
    /// inactivity).
    pub fn is_expired_at(&self, timeout_hours: i64, now: i64) -> (r: bool)
        ensures
            r == state_expired(self@, timeout_hours, now),
    {
        match self.last_accessed_at {
            Some(t) => {
                let d: i128 = now as i128 - t as i128;
                let h: i128 = if d >= 0 {
                    d / 3_600_000
                } else {
                    -((-d) / 3_600_000)
                };
                h >= timeout_hours as i128
            },
            None => false,
        }
    }

    /// Whether the session has expired now.
    pub fn is_expired(&self, timeout_hours: i64) -> (r: bool)
        ensures
            exists|now: i64| r == state_expired(self@, timeout_hours, now),
    {
        self.is_expired_at(timeout_hours, now_millis())
    }

    /// Record a use at `now`.
    pub fn touch_at(&mut self, now: i64)
        ensures
            final(self)@ == touched(old(self)@, now),
    {
        self.last_accessed_at = Some(now);
    }

    /// Update last accessed timestamp
    pub fn touch(&mut self)
        ensures
            exists|now: i64| final(self)@ == #[trigger] touched(old(self)@, now),
    {
        self.touch_at(now_millis());
    }

    /// Reset the session state
    pub fn reset(&mut self)
        ensures
            final(self)@ == reset_state(old(self)@),
    {
        self.session_id = None;
        self.files.clear();
        self.last_output = None;
        self.created_at = None;
        self.last_accessed_at = None;
    }

    /// A copy of the state.
    pub fn copy(&self) -> (r: Self)
        ensures
            r@ == self@,
    {
        WorkbenchState {
            session_id: match &self.session_id {
                Some(s) => Some(s.clone()),
                None => None,
            },
            user_id: self.user_id.clone(),
            files: self.files.copy(),
            last_output: match &self.last_output {
                Some(s) => Some(s.clone()),
                None => None,
            },
            created_at: self.created_at,
            last_accessed_at: self.last_accessed_at,
        }
    }
}

/// What a session step decided.
pub enum SessionStep {
    /// A valid session exists and was touched: use this id.
    Reuse(String),
    /// A new session must be initialized, starting from this state.
    Create(WorkbenchState),
}

/// What a workbench run answered.
pub enum WorkbenchExecution {
    /// The run's raw output.
    Output(String),
    /// The sandbox reported an error, as this tool result.
    Failed(ToolResult),
}

impl SessionFailure {
    /// The error text of this failure, as ensuring a session reports it.
    pub fn message(&self) -> (r: String)
        ensures
            r@ == spec_failure_text(self@),
    {
        match self {
            SessionFailure::Rejected(message, code) => {
                let mut v: Vec<char> = Vec::new();
                append_str(&mut v, "Failed to create Workbench session: ");
                append_str(&mut v, message.as_str());
                append_str(&mut v, " (code: ");
                let c = crate::text::i64_to_string(*code);
                append_str(&mut v, c.as_str());
                append_str(&mut v, ")");
                string_from_chars(v.as_slice())
            },
            SessionFailure::Error(e) => e.clone(),
        }
    }

    /// What a workbench run answers when its session could not be set up:
    /// a sandbox error comes back as a failed tool result; any other
    /// failure is an error with its text.
    pub fn run_outcome(&self) -> (r: Result<ToolResult, String>)
        ensures
            match self@ {
                SessionFailureView::Rejected(message, _) => r matches Ok(t) && t@ == spec_sandbox_failure(message),
                SessionFailureView::Error(e) => r matches Err(x) && x@ == e,
            },
    {
        match self {
            SessionFailure::Rejected(message, _) => Ok(sandbox_failure(message.as_str())),
            SessionFailure::Error(e) => Err(e.clone()),
        }
    }
}

/// The failed tool result of a sandbox error message.
fn sandbox_failure(message: &str) -> (r: ToolResult)
    ensures
        r@ == spec_sandbox_failure(message@),
{
    let mut v: Vec<char> = Vec::new();
    append_str(&mut v, "Workbench execution failed: ");
    append_str(&mut v, message);
    ToolResult { success: false, output: string_from_chars(v.as_slice()), error: Some(message.to_owned()) }
}

/// A lowercase hexadecimal digit.
pub open spec fn lower_hex_digit(c: char) -> bool {
    ('0' <= c && c <= '9') || ('a' <= c && c <= 'f')
}

/// The text of a version 4 UUID: 36 characters, hyphens at 8, 13, 18 and
/// 23, lowercase hexadecimal digits elsewhere, the version digit `4` at 14
/// and the variant digit (one of `8`, `9`, `a`, `b`) at 19.
pub open spec fn uuid_v4_text(s: Seq<char>) -> bool {
    &&& s.len() == 36
    &&& forall|i: int| 0 <= i < 36 ==> if i == 8 || i == 13 || i == 18 || i == 23 {
        #[trigger] s[i] == '-'
    } else {
        lower_hex_digit(s[i])
    }
    &&& s[14] == '4'
    &&& (s[19] == '8' || s[19] == '9' || s[19] == 'a' || s[19] == 'b')
}

/// A session id made up for a sandbox that names none: `wb_` and a v4 UUID.
pub open spec fn generated_session_id(id: Seq<char>) -> bool {
    &&& id.len() == 39
    &&& id.subrange(0, 3) == "wb_"@
    &&& uuid_v4_text(id.subrange(3, 39))
}

/// A fresh random v4 UUID in its hyphenated lowercase text
/// (`uuid::Uuid::new_v4` and its `Display`): which one is chance; its shape
/// is fixed by the version and variant bits `new_v4` sets and by the
/// hyphenated lowercase format.
#[verifier::external_body]
fn new_uuid_v4() -> (r: String)
    ensures
        uuid_v4_text(r@),
{
    uuid::Uuid::new_v4().to_string()
}

/// Extract session_id from a Workbench payload, generating `wb_<uuid>` when
/// the payload names none.
pub fn extract_session_id(result_data: &Json) -> (r: String)
    ensures
        match spec_payload_session_id(result_data.jv()) {
            Some(id) => r@ == id,
            None => generated_session_id(r@),
        },
{
    let from_text: Option<String> = match result_data.content_text() {
        Some(t) => match parse_json(t) {
            Some(p) => match p.get_str("session_id") {
                Some(s) => Some(s.to_owned()),
                None => None,
            },
            None => None,
        },
        None => None,
    };
    match from_text {
        Some(s) => s,
        None => match result_data.get_str("session_id") {
            Some(s) => s.to_owned(),
            None => {
                let u = new_uuid_v4();
                let mut v: Vec<char> = Vec::new();
                append_str(&mut v, "wb_");
                append_str(&mut v, u.as_str());
                let r = string_from_chars(v.as_slice());
                proof {
                    reveal_strlit("wb_");
                    assert(r@.subrange(0, 3) =~= "wb_"@);
                    assert(r@.subrange(3, 39) =~= u@);
                }
                r
            },
        },
    }
}

/// Extract output from a Workbench payload.
pub fn extract_workbench_output(result_data: &Json) -> (r: String)
    ensures
        r@ == spec_workbench_output(result_data.jv()),
{
    match result_data.content_text() {
        Some(t) => match parse_json(t) {
            Some(p) => match p.get_str("output") {
                Some(o) => o.to_owned(),
                None => json_pretty(&p),
            },
            None => t.to_owned(),
        },
        None => match result_data.get_str("output") {
            Some(o) => o.to_owned(),
            None => json_pretty(result_data),
        },
    }
}

/// Whether an output can be summarized without cutting a character.
pub fn summary_cut_ok(output: &str) -> (r: bool)
    requires
        encode_utf8(output@).len() <= usize::MAX,
    ensures
        r == cut_ok(encode_utf8(output@)),
{
    let n = output.len();
    n <= HEAD_SIZE + TAIL_SIZE || (output.is_char_boundary(HEAD_SIZE) && output.is_char_boundary(
        n - TAIL_SIZE,
    ))
}

/// Summarize large Workbench output to prevent context window overflow:
/// the first 8000 and last 4000 bytes around a truncation notice.
pub fn summarize_workbench_output(output: &str) -> (r: String)
    requires
        encode_utf8(output@).len() <= usize::MAX,
        cut_ok(encode_utf8(output@)),
    ensures
        r@ == spec_summary(output@),
{
    let n = output.len();
    if n <= HEAD_SIZE + TAIL_SIZE {
        return output.to_owned();
    }
    let (head, _) = output.split_at(HEAD_SIZE);
    let (_, tail) = output.split_at(n - TAIL_SIZE);
    proof {
        encode_utf8_decode_utf8(head@);
        encode_utf8_decode_utf8(tail@);
    }
    let mut v: Vec<char> = Vec::new();
    append_str(&mut v, head);
    append_str(&mut v, "\n\n... [Output truncated: ");
    let omitted = u64_to_string((n - HEAD_SIZE - TAIL_SIZE) as u64);
    append_str(&mut v, omitted.as_str());
    append_str(&mut v, " chars omitted] ...\n\n");
    append_str(&mut v, tail);
    string_from_chars(v.as_slice())
}

/// The tool result of a finished workbench run: the output, summarized with
/// a metadata line when it is larger than `SUMMARY_THRESHOLD` bytes.
pub fn finalize_workbench_output(output: String, session_id: &str) -> (r: ToolResult)
    requires
        encode_utf8(output@).len() <= usize::MAX,
        encode_utf8(output@).len() <= SUMMARY_THRESHOLD || cut_ok(encode_utf8(output@)),
    ensures
        r@ == (ToolResultView { success: true, output: spec_final_output(output@, session_id@), error: None }),
{
    let n = output.as_str().len();
    if n > SUMMARY_THRESHOLD {
        let summary = summarize_workbench_output(output.as_str());
        let mut v: Vec<char> = Vec::new();
        append_str(&mut v, summary.as_str());
        append_str(&mut v, "\n\n[Workbench Metadata: session_id=");
        append_str(&mut v, session_id);
        append_str(&mut v, ", output_size=");
        let size = u64_to_string(n as u64);
        append_str(&mut v, size.as_str());
        append_str(&mut v, " bytes, full_output_available=true]");
        ToolResult { success: true, output: string_from_chars(v.as_slice()), error: None }
    } else {
        ToolResult { success: true, output, error: None }
    }
}

/// Parameters of the call that initializes a session.
pub fn session_init_params(user_id: &str) -> (r: Json)
    ensures
        r.jv() == JsonV::Object(
            seq![
                ("code"@, JsonV::Str("print('Workbench session initialized')"@)),
                ("user_id"@, JsonV::Str(user_id@)),
            ],
        ),
{
    let r = Json::Object(
        vec![
            ("code".to_owned(), Json::string("print('Workbench session initialized')")),
            ("user_id".to_owned(), Json::string(user_id)),
        ],
    );
    proof {
        assert(r.jv()->Object_0 =~= seq![
            ("code"@, JsonV::Str("print('Workbench session initialized')"@)),
            ("user_id"@, JsonV::Str(user_id@)),
        ]);
    }
    r
}

/// Parameters of a code run in a session.
pub fn workbench_run_params(session_id: &str, python_code: &str, user_id: &str) -> (r: Json)
    ensures
        r.jv() == JsonV::Object(
            seq![
                ("session_id"@, JsonV::Str(session_id@)),
                ("code"@, JsonV::Str(python_code@)),
                ("user_id"@, JsonV::Str(user_id@)),
            ],
        ),
{
    let r = Json::Object(
        vec![
            ("session_id".to_owned(), Json::string(session_id)),
            ("code".to_owned(), Json::string(python_code)),
            ("user_id".to_owned(), Json::string(user_id)),
        ],
    );
    proof {
        assert(r.jv()->Object_0 =~= seq![
            ("session_id"@, JsonV::Str(session_id@)),
            ("code"@, JsonV::Str(python_code@)),
            ("user_id"@, JsonV::Str(user_id@)),
        ]);
    }
    r
}

/// Workbench handler for managing Python sandbox sessions
///
/// One session per user, at most `max_sessions` before the least recently
/// used is evicted, and expiry after `session_timeout_hours` of inactivity.
pub struct WorkbenchHandler {
    sessions: KeyedStore<WorkbenchState>,
    max_sessions: usize,
    session_timeout_hours: i64,
}

impl WorkbenchHandler {
    /// The sessions by user.
    pub closed spec fn model(self) -> Map<Seq<char>, WorkbenchStateView> {
        self.sessions.model().map_values(|s: WorkbenchState| s@)
    }

    /// Maximum number of sessions before eviction.
    pub closed spec fn max(self) -> usize {
        self.max_sessions
    }

    /// Inactivity timeout in hours.
    pub closed spec fn timeout(self) -> i64 {
        self.session_timeout_hours
    }

    proof fn lemma_model_finite(self)
        requires
            self.sessions.model().dom().finite(),
        ensures
            self.model().dom().finite(),
            self.model().dom() == self.sessions.model().dom(),
            self.model().len() == self.sessions.model().len(),
    {
        assert(self.model().dom() =~= self.sessions.model().dom());
    }

    /// Create a new Workbench handler
    pub fn new(max_sessions: usize, session_timeout_hours: i64) -> (h: Self)
        ensures
            h.model() == Map::<Seq<char>, WorkbenchStateView>::empty(),
            h.max() == max_sessions,
            h.timeout() == session_timeout_hours,
    {
        let h = WorkbenchHandler { sessions: KeyedStore::new(), max_sessions, session_timeout_hours };
        assert(h.model() =~= Map::<Seq<char>, WorkbenchStateView>::empty());
        h
    }

    /// Remove, at `now`, every session that has expired.
    pub fn cleanup_expired_at(&mut self, now: i64)
        ensures
            final(self).max() == old(self).max(),
            final(self).timeout() == old(self).timeout(),
            final(self).model() == without_expired(old(self).model(), old(self).timeout(), now),
    {
        let ghost old_m = self.model();
        let ghost t = self.session_timeout_hours;
        let mut i: usize = 0;
        while i < self.sessions.len()
            invariant
                t == self.session_timeout_hours,
                self.max_sessions == old(self).max_sessions,
                self.session_timeout_hours == old(self).session_timeout_hours,
                old_m == old(self).model(),
                i <= self.sessions.entry_seq().len(),
                forall|k: Seq<char>| #[trigger] self.model().contains_key(k) ==> old_m.contains_key(k) && self.model()[k] == old_m[k],
                forall|k: Seq<char>| #[trigger] old_m.contains_key(k) && !state_expired(old_m[k], t, now) ==> self.model().contains_key(k),
                forall|j: int| 0 <= j < i ==> !state_expired(#[trigger] self.sessions.entry_seq()[j].1@, t, now),
            decreases self.sessions.entry_seq().len() - i,
        {
            self.sessions.entry_facts();
            let expired = self.sessions.value_at(i).is_expired_at(self.session_timeout_hours, now);
            if expired {
                let ghost before = self.sessions.entry_seq();
                let ghost bm = self.model();
                let ghost gone = before[i as int].0;
                proof {
                    assert(self.sessions.model().contains_key(gone));
                    assert(bm[gone] == before[i as int].1@);
                }
                self.sessions.remove_at(i);
                proof {
                    assert(self.model() =~= bm.remove(gone));
                    assert forall|j: int| 0 <= j < i implies !state_expired(#[trigger] self.sessions.entry_seq()[j].1@, t, now) by {
                        assert(self.sessions.entry_seq()[j] == before[j]);
                    }
                }
            } else {
                i = i + 1;
            }
        }
        self.sessions.entry_facts();
        proof {
            let target = without_expired(old_m, t, now);
            assert forall|k: Seq<char>| self.model().contains_key(k) implies !state_expired(self.model()[k], t, now) by {
                let j = choose|j: int| 0 <= j < self.sessions.entry_seq().len() && self.sessions.entry_seq()[j].0 == k
                    && self.sessions.model()[k] == self.sessions.entry_seq()[j].1;
            }
            assert(self.model() =~= target);
        }
    }

    /// Remove every session that has expired now.
    pub fn cleanup_expired(&mut self)
        ensures
            final(self).max() == old(self).max(),
            final(self).timeout() == old(self).timeout(),
            exists|now: i64| final(self).model() == #[trigger] without_expired(old(self).model(), old(self).timeout(), now),
    {
        self.cleanup_expired_at(now_millis());
    }

    /// Evict the least recently used session when the limit is reached.
    pub fn evict_lru_session(&mut self)
        ensures
            final(self).max() == old(self).max(),
            final(self).timeout() == old(self).timeout(),
            evict_outcome(old(self).model(), old(self).max(), final(self).model()),
    {
        let n = self.sessions.len();
        proof {
            self.lemma_model_finite();
        }
        if n < self.max_sessions || n == 0 {
            return;
        }
        self.sessions.entry_facts();
        let ghost es = self.sessions.entry_seq();
        let ghost m = self.model();
        let mut best: usize = 0;
        let mut i: usize = 1;
        while i < n
            invariant
                n == es.len(),
                es == self.sessions.entry_seq(),
                0 < n,
                best < n,
                1 <= i <= n,
                forall|j: int| 0 <= j < i ==> used_no_later(es[best as int].1.last_accessed_at, #[trigger] es[j].1.last_accessed_at),
            decreases n - i,
        {
            let a = self.sessions.value_at(i).last_accessed_at;
            let b = self.sessions.value_at(best).last_accessed_at;
            let earlier = match (a, b) {
                (None, Some(_)) => true,
                (Some(x), Some(y)) => x < y,
                _ => false,
            };
            if earlier {
                best = i;
            }
            i = i + 1;
        }
        let ghost k0 = es[best as int].0;
        proof {
            assert(m.contains_key(k0));
            assert forall|k: Seq<char>| #[trigger] m.contains_key(k) implies used_no_later(m[k0].last_accessed_at, m[k].last_accessed_at) by {
                let j = choose|j: int| 0 <= j < es.len() && es[j].0 == k && self.sessions.model()[k] == es[j].1;
            }
            assert(is_lru(m, k0));
        }
        self.sessions.remove_at(best);
        proof {
            assert(self.model() =~= m.remove(k0));
        }
    }

    /// Makes room for a new session of `user_id`: when the other users hold
    /// `max` sessions or more, the least recently used of theirs is removed.
    fn make_room_for(&mut self, user_id: &str)
        ensures
            final(self).max() == old(self).max(),
            final(self).timeout() == old(self).timeout(),
            room_outcome(old(self).model(), user_id@, old(self).max(), final(self).model()),
    {
        let n = self.sessions.len();
        self.sessions.entry_facts();
        proof {
            self.lemma_model_finite();
        }
        let ghost es = self.sessions.entry_seq();
        let ghost m = self.model();
        let ghost u = user_id@;
        let present = self.sessions.contains_key(user_id);
        let others: usize = if present {
            n - 1
        } else {
            n
        };
        proof {
            assert(m.remove(u).dom() =~= m.dom().remove(u));
        }
        if others < self.max_sessions || others == 0 {
            return;
        }
        let mut best: Option<usize> = None;
        let mut i: usize = 0;
        while i < n
            invariant
                n == es.len(),
                es == self.sessions.entry_seq(),
                u == user_id@,
                i <= n,
                best matches Some(b) ==> b < n && es[b as int].0 != u && forall|j: int|
                    0 <= j < i && es[j].0 != u ==> used_no_later(es[b as int].1.last_accessed_at, #[trigger] es[j].1.last_accessed_at),
                best is None ==> forall|j: int| 0 <= j < i ==> #[trigger] es[j].0 == u,
            decreases n - i,
        {
            let same = crate::text::str_eq(self.sessions.key_at(i).as_str(), user_id);
            if !same {
                let a = self.sessions.value_at(i).last_accessed_at;
                match best {
                    None => {
                        best = Some(i);
                    },
                    Some(b) => {
                        let bv = self.sessions.value_at(b).last_accessed_at;
                        let earlier = match (a, bv) {
                            (None, Some(_)) => true,
                            (Some(x), Some(y)) => x < y,
                            _ => false,
                        };
                        if earlier {
                            best = Some(i);
                        }
                    },
                }
            }
            i = i + 1;
        }
        match best {
            None => {
                proof {
                    assert forall|k: Seq<char>| #[trigger] m.remove(u).contains_key(k) implies false by {
                        let j = choose|j: int| 0 <= j < es.len() && es[j].0 == k && self.sessions.model()[k] == es[j].1;
                    }
                    assert(m.remove(u).dom() =~= Set::<Seq<char>>::empty());
                }
            },
            Some(b) => {
                let ghost k0 = es[b as int].0;
                proof {
                    assert(m.contains_key(k0));
                    assert forall|k: Seq<char>| #[trigger] m.remove(u).contains_key(k) implies used_no_later(
                        m.remove(u)[k0].last_accessed_at,
                        m.remove(u)[k].last_accessed_at,
                    ) by {
                        let j = choose|j: int| 0 <= j < es.len() && es[j].0 == k && self.sessions.model()[k] == es[j].1;
                    }
                    assert(is_lru(m.remove(u), k0));
                }
                self.sessions.remove_at(b);
                proof {
                    assert(self.model() =~= m.remove(k0));
                }
            },
        }
    }

    /// Get the state of a user, creating an empty one when there is none.
    pub fn get_or_create_session_state(&mut self, user_id: &str) -> (r: WorkbenchState)
        ensures
            final(self).max() == old(self).max(),
            final(self).timeout() == old(self).timeout(),
            final(self).model() == with_user(old(self).model(), user_id@),
            r@ == final(self).model()[user_id@],
    {
        match self.sessions.get(user_id) {
            Some(s) => {
                let r = s.copy();
                r
            },
            None => {
                let ghost m = self.model();
                let fresh = WorkbenchState::new(user_id.to_owned());
                let r = fresh.copy();
                self.sessions.insert(user_id.to_owned(), fresh);
                proof {
                    assert(self.model() =~= m.insert(user_id@, fresh_state(user_id@)));
                }
                r
            },
        }
    }

    /// Store the state of a user.
    pub fn update_session_state(&mut self, user_id: &str, state: WorkbenchState)
        ensures
            final(self).max() == old(self).max(),
            final(self).timeout() == old(self).timeout(),
            final(self).model() == old(self).model().insert(user_id@, state@),
    {
        let ghost m = self.model();
        let ghost sv = state@;
        self.sessions.insert(user_id.to_owned(), state);
        proof {
            assert(self.model() =~= m.insert(user_id@, sv));
        }
    }

    /// First step of ensuring a session, at `now`: a valid session of the
    /// user is touched and reused; otherwise room is made for a new session
    /// (see `room_outcome`), and the state it starts from is returned
    /// (an expired session's state is reset first).
    pub fn begin_workbench_session_at(&mut self, user_id: &str, now: i64) -> (r: SessionStep)
        ensures
            final(self).max() == old(self).max(),
            final(self).timeout() == old(self).timeout(),
            ({
                let m1 = with_user(old(self).model(), user_id@);
                let st = m1[user_id@];
                if st.session_id is Some && !state_expired(st, old(self).timeout(), now) {
                    &&& r matches SessionStep::Reuse(id) && id@ == st.session_id->0
                    &&& final(self).model() == m1.insert(
                        user_id@,
                        touched(st, now),
                    )
                } else {
                    &&& r matches SessionStep::Create(p) && p@ == (if st.session_id is Some {
                        reset_state(st)
                    } else {
                        st
                    })
                    &&& room_outcome(m1, user_id@, old(self).max(), final(self).model())
                }
            }),
    {
        let mut state = self.get_or_create_session_state(user_id);
        let valid: Option<String> = match &state.session_id {
            Some(id) => if !state.is_expired_at(self.session_timeout_hours, now) {
                Some(id.clone())
            } else {
                None
            },
            None => None,
        };
        match valid {
            Some(id) => {
                state.touch_at(now);
                self.update_session_state(user_id, state);
                SessionStep::Reuse(id)
            },
            None => {
                if state.session_id.is_some() {
                    state.reset();
                }
                self.make_room_for(user_id);
                SessionStep::Create(state)
            },
        }
    }

    /// The id to hand `user_id` for a proposed one, so that no two users
    /// share a session id (see `distinct_id`).
    fn distinct_session_id(&self, user_id: &str, proposed: String) -> (r: String)
        ensures
            distinct_id(self.model(), user_id@, proposed@, r@),
    {
        let n = self.sessions.len();
        self.sessions.entry_facts();
        let ghost es = self.sessions.entry_seq();
        let ghost m = self.model();
        let ghost u = user_id@;
        let ghost p = proposed@;
        let mut taken = false;
        let mut longest: usize = 0;
        let mut found = false;
        let mut witness: usize = 0;
        let mut i: usize = 0;
        while i < n
            invariant
                n == es.len(),
                es == self.sessions.entry_seq(),
                u == user_id@,
                p == proposed@,
                i <= n,
                taken ==> exists|j: int| 0 <= j < i && es[j].0 != u && (#[trigger] es[j].1@).session_id == Some(p),
                !taken ==> forall|j: int| 0 <= j < i && es[j].0 != u ==> (#[trigger] es[j].1@).session_id != Some(p),
                forall|j: int| 0 <= j < i && es[j].0 != u && (#[trigger] es[j].1@).session_id is Some
                    ==> es[j].1@.session_id->0.len() <= longest,
                found ==> witness < i && es[witness as int].0 != u && es[witness as int].1@.session_id is Some
                    && es[witness as int].1@.session_id->0.len() == longest,
                taken ==> found,
                !found ==> forall|j: int| 0 <= j < i && es[j].0 != u ==> (#[trigger] es[j].1@).session_id is None,
            decreases n - i,
        {
            let same = crate::text::str_eq(self.sessions.key_at(i).as_str(), user_id);
            if !same {
                match &self.sessions.value_at(i).session_id {
                    Some(id) => {
                        if crate::text::str_eq(id.as_str(), proposed.as_str()) {
                            taken = true;
                            assert(es[i as int].1@.session_id == Some(p));
                        }
                        let len = crate::text::chars_of(id.as_str()).len();
                        if !found || len > longest {
                            longest = len;
                            witness = i;
                            found = true;
                        }
                    },
                    None => {},
                }
            }
            i = i + 1;
        }
        proof {
            if held_by_other(m, u, p) {
                let k = choose|k: Seq<char>| k != u && #[trigger] m.contains_key(k) && m[k].session_id == Some(p);
                let j = choose|j: int| 0 <= j < es.len() && es[j].0 == k && self.sessions.model()[k] == es[j].1;
                assert(es[j].1@.session_id == Some(p));
            }
        }
        if !taken {
            return proposed;
        }
        let ghost wj = witness as int;
        proof {
            let j = choose|j: int| 0 <= j < n && es[j].0 != u && (#[trigger] es[j].1@).session_id == Some(p);
            assert(p.len() <= longest);
            assert(m.contains_key(es[j].0) && m[es[j].0] == es[j].1@);
            assert(m.contains_key(es[wj].0) && m[es[wj].0] == es[wj].1@);
        }
        let mut v = crate::text::chars_of(proposed.as_str());
        while v.len() <= longest
            invariant
                p == proposed@,
                p.len() <= v@.len() <= longest + 1,
                v@.subrange(0, p.len() as int) == p,
                forall|k: int| p.len() <= k < v@.len() ==> #[trigger] v@[k] == '_',
            decreases longest + 1 - v@.len(),
        {
            let ghost before = v@;
            v.push('_');
            proof {
                assert(v@.subrange(0, p.len() as int) =~= before.subrange(0, p.len() as int));
            }
        }
        let r = string_from_chars(v.as_slice());
        proof {
            assert forall|k: Seq<char>| k != u && #[trigger] m.contains_key(k) && m[k].session_id is Some implies m[k].session_id->0.len() < r@.len() by {
                let j = choose|j: int| 0 <= j < es.len() && es[j].0 == k && self.sessions.model()[k] == es[j].1;
                assert(es[j].1@.session_id is Some);
            }
            assert(m.contains_key(es[wj].0));
        }
        r
    }

    /// Second step of ensuring a session, at `now`, with the reply to the
    /// initialization call: on success the new session's state is stored and
    /// its id returned: the sandbox's id (or `wb_<uuid>` when it names none),
    /// padded with `_` when another user already holds that id; on failure
    /// nothing changes.
    pub fn finish_workbench_session_at(
        &mut self,
        user_id: &str,
        pending: WorkbenchState,
        reply: &Result<JsonRpcResponse, String>,
        now: i64,
    ) -> (r: Result<String, SessionFailure>)
        ensures
            final(self).max() == old(self).max(),
            final(self).timeout() == old(self).timeout(),
            match spec_init_failure(reply_view(*reply)) {
                Some(f) => r matches Err(x) && x@ == f && final(self).model() == old(self).model(),
                None => {
                    let data = reply->Ok_0.result->0.jv();
                    &&& r matches Ok(id) && (match spec_payload_session_id(data) {
                        Some(x) => distinct_id(old(self).model(), user_id@, x, id@),
                        None => exists|c: Seq<char>|
                            generated_session_id(c) && #[trigger] distinct_id(old(self).model(), user_id@, c, id@),
                    })
                    &&& !held_by_other(old(self).model(), user_id@, r->Ok_0@)
                    &&& final(self).model() == old(self).model().insert(
                        user_id@,
                        established(pending@, r->Ok_0@, now),
                    )
                },
            },
    {
        let rpc = match reply {
            Err(_) => {
                return Err(SessionFailure::Error("Failed to initialize Workbench session".to_owned()));
            },
            Ok(rpc) => rpc,
        };
        if let Some(err) = &rpc.error {
            return Err(SessionFailure::Rejected(err.message.clone(), err.code));
        }
        let data = match &rpc.result {
            None => {
                return Err(SessionFailure::Error("No result in JSON-RPC response".to_owned()));
            },
            Some(d) => d,
        };
        let proposed = extract_session_id(data);
        let ghost pv = proposed@;
        let session_id = self.distinct_session_id(user_id, proposed);
        proof {
            lemma_distinct_id_is_free(self.model(), user_id@, pv, session_id@);
        }
        let mut state = pending;
        state.session_id = Some(session_id.clone());
        state.created_at = Some(now);
        state.last_accessed_at = Some(now);
        state.last_output = Some("Workbench session initialized".to_owned());
        self.update_session_state(user_id, state);
        Ok(session_id)
    }

    /// Finishes a workbench run at `now` with the call's reply: the output is
    /// stored as the user's last output and the session touched; a sandbox
    /// error comes back as a failed tool result; a failed call or a response
    /// without result is an error. Only a run with output changes the state.
    pub fn complete_execute_via_workbench_at(
        &mut self,
        user_id: &str,
        reply: &Result<JsonRpcResponse, String>,
        now: i64,
    ) -> (r: Result<WorkbenchExecution, String>)
        ensures
            final(self).max() == old(self).max(),
            final(self).timeout() == old(self).timeout(),
            match reply_view(*reply) {
                Err(_) => r matches Err(e) && e@ == "Failed to call COMPOSIO_REMOTE_WORKBENCH"@
                    && final(self).model() == old(self).model(),
                Ok(v) => match v.error {
                    Some((_code, message)) => r matches Ok(WorkbenchExecution::Failed(t)) && t@ == spec_sandbox_failure(
                        message,
                    ) && final(self).model() == old(self).model(),
                    None => match v.result {
                        None => r matches Err(e) && e@ == "No result in JSON-RPC response"@
                            && final(self).model() == old(self).model(),
                        Some(data) => {
                            let m1 = with_user(old(self).model(), user_id@);
                            let o = spec_workbench_output(data);
                            &&& r matches Ok(WorkbenchExecution::Output(x)) && x@ == o
                            &&& final(self).model() == m1.insert(
                                user_id@,
                                WorkbenchStateView { last_output: Some(o), last_accessed_at: Some(now), ..m1[user_id@] },
                            )
                        },
                    },
                },
            },
    {
        let rpc = match reply {
            Err(_) => {
                return Err("Failed to call COMPOSIO_REMOTE_WORKBENCH".to_owned());
            },
            Ok(rpc) => rpc,
        };
        if let Some(err) = &rpc.error {
            return Ok(WorkbenchExecution::Failed(sandbox_failure(err.message.as_str())));
        }
        let data = match &rpc.result {
            None => {
                return Err("No result in JSON-RPC response".to_owned());
            },
            Some(d) => d,
        };
        let output = extract_workbench_output(data);
        let mut state = self.get_or_create_session_state(user_id);
        state.last_output = Some(output.clone());
        state.touch_at(now);
        self.update_session_state(user_id, state);
        Ok(WorkbenchExecution::Output(output))
    }

    /// Get the current Workbench state for a user
    pub fn get_state(&self, user_id: &str) -> (r: Option<WorkbenchState>)
        ensures
            match r {
                Some(s) => self.model().contains_key(user_id@) && s@ == self.model()[user_id@],
                None => !self.model().contains_key(user_id@),
            },
    {
        match self.sessions.get(user_id) {
            Some(s) => Some(s.copy()),
            None => None,
        }
    }

    /// Get all active sessions, as (user, state) pairs.
    pub fn get_all_sessions(&self) -> (r: Vec<(String, WorkbenchState)>)
        ensures
            r@.len() == self.model().len(),
            forall|i: int| 0 <= i < r@.len() ==> self.model().contains_key(#[trigger] r@[i].0@) && r@[i].1@
                == self.model()[r@[i].0@],
    {
        self.sessions.entry_facts();
        proof {
            self.lemma_model_finite();
        }
        let n = self.sessions.len();
        let mut out: Vec<(String, WorkbenchState)> = Vec::new();
        let mut i: usize = 0;
        while i < n
            invariant
                n == self.sessions.entry_seq().len(),
                i <= n,
                out@.len() == i,
                forall|j: int| 0 <= j < self.sessions.entry_seq().len() ==> #[trigger] self.sessions.model().contains_key(
                    self.sessions.entry_seq()[j].0,
                ) && self.sessions.model()[self.sessions.entry_seq()[j].0] == self.sessions.entry_seq()[j].1,
                forall|k: int| 0 <= k < i ==> self.model().contains_key(#[trigger] out@[k].0@) && out@[k].1@
                    == self.model()[out@[k].0@],
            decreases n - i,
        {
            let k = self.sessions.key_at(i);
            let v = self.sessions.value_at(i);
            proof {
                assert(self.sessions.model().contains_key(self.sessions.entry_seq()[i as int].0));
            }
            out.push((k.clone(), v.copy()));
            i = i + 1;
        }
        out
    }

    /// Clear all Workbench sessions
    pub fn clear_all_sessions(&mut self)
        ensures
            final(self).model() == Map::<Seq<char>, WorkbenchStateView>::empty(),
            final(self).max() == old(self).max(),
            final(self).timeout() == old(self).timeout(),
    {
        self.sessions.clear();
        assert(self.model() =~= Map::<Seq<char>, WorkbenchStateView>::empty());
    }

    /// Clear a specific user's session
    pub fn clear_session(&mut self, user_id: &str)
        ensures
            final(self).model() == old(self).model().remove(user_id@),
            final(self).max() == old(self).max(),
            final(self).timeout() == old(self).timeout(),
    {
        let ghost m = self.model();
        self.sessions.remove(user_id);
        assert(self.model() =~= m.remove(user_id@));
    }
}

} // verus!
