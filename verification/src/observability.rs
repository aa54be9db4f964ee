//! Structured logging and observability for Composio tool executions: log
//! levels and their filter, log entries whose context never carries a secret,
//! latency samples, and the counters behind the metrics.
//!
//! Serializing and emitting an entry, and turning counters into ratios, is the
//! caller's part.

use vstd::prelude::*;
use vstd::relations::{sorted_by, total_ordering};
use vstd::seq_lib::lemma_sorted_unique;
use crate::clock::now_millis;
use crate::json::{Json, JsonV, first_key_index};
use crate::text::{chars_of, contains_any, seq_contains, spec_to_lowercase, to_lowercase};

verus! {

broadcast use vstd::seq_lib::group_to_multiset_ensures;

/// Log level for structured logging
#[derive(Debug, Clone, Copy, PartialEq, Eq, Structural)]
pub enum LogLevel {
    Error,
    Warn,
    Info,
    Debug,
    Trace,
}

/// The verbosity of a level: Error 0, Warn 1, Info 2, Debug 3, Trace 4.
pub open spec fn rank(level: LogLevel) -> int {
    match level {
        LogLevel::Error => 0,
        LogLevel::Warn => 1,
        LogLevel::Info => 2,
        LogLevel::Debug => 3,
        LogLevel::Trace => 4,
    }
}

impl LogLevel {
    /// The verbosity of the level.
    pub fn priority(&self) -> (r: u8)
        ensures
            r == rank(*self),
    {
        match self {
            LogLevel::Error => 0,
            LogLevel::Warn => 1,
            LogLevel::Info => 2,
            LogLevel::Debug => 3,
            LogLevel::Trace => 4,
        }
    }

    /// Check if this log level should be emitted based on configured filter:
    /// a message is emitted when it is no more verbose than the filter.
    pub fn should_log(&self, filter: LogLevel) -> (r: bool)
        ensures
            r == (rank(*self) <= rank(filter)),
    {
        self.priority() <= filter.priority()
    }
}

/// Every filter lets errors through, and every level passes a filter set to
/// itself.
pub proof fn law_errors_always_logged(filter: LogLevel, level: LogLevel)
    ensures
        rank(LogLevel::Error) <= rank(filter),
        rank(level) <= rank(level),
{
}

/// A message that passes a filter passes every more verbose filter, and a
/// message that a filter drops is dropped by every less verbose one.
pub proof fn law_filter_monotone(level: LogLevel, f1: LogLevel, f2: LogLevel)
    requires
        rank(f1) <= rank(f2),
    ensures
        rank(level) <= rank(f1) ==> rank(level) <= rank(f2),
        !(rank(level) <= rank(f2)) ==> !(rank(level) <= rank(f1)),
{
}

/// Two different levels never have the same verbosity: the filter orders
/// the levels totally.
pub proof fn law_levels_totally_ordered(a: LogLevel, b: LogLevel)
    ensures
        rank(a) <= rank(b) || rank(b) <= rank(a),
        rank(a) == rank(b) ==> a == b,
{
}

/// Key fragments that mark a context field as sensitive.
pub open spec fn sensitive_patterns() -> Seq<Seq<char>> {
    seq![
        "api_key"@,
        "apikey"@,
        "key"@,
        "token"@,
        "access_token"@,
        "refresh_token"@,
        "password"@,
        "secret"@,
        "credential"@,
        "authorization"@,
        "auth"@,
        "bearer"@,
        "oauth"@,
    ]
}

/// A key is sensitive when its lowercase form contains a sensitive fragment.
pub open spec fn is_sensitive_key(key: Seq<char>) -> bool {
    names_sensitive_pattern(spec_to_lowercase(key))
}

/// A lowercase text names one of the sensitive patterns.
pub open spec fn names_sensitive_pattern(lower: Seq<char>) -> bool {
    exists|i: int| 0 <= i < sensitive_patterns().len() && seq_contains(lower, #[trigger] sensitive_patterns()[i])
}

/// The value put in place of a sensitive field.
pub open spec fn redacted() -> JsonV {
    JsonV::Str("[REDACTED]"@)
}

/// The sanitized form of a context: every field whose key is sensitive is
/// replaced by `"[REDACTED]"`, at every depth of objects and arrays.
pub open spec fn spec_sanitize(v: JsonV) -> JsonV
    decreases v,
{
    match v {
        JsonV::Object(es) => JsonV::Object(
            Seq::new(
                es.len(),
                |i: int|
                    if 0 <= i < es.len() {
                        if is_sensitive_key(es[i].0) {
                            (es[i].0, redacted())
                        } else {
                            (es[i].0, spec_sanitize(es[i].1))
                        }
                    } else {
                        (Seq::empty(), JsonV::Null)
                    },
            ),
        ),
        JsonV::Array(items) => JsonV::Array(
            Seq::new(
                items.len(),
                |i: int|
                    if 0 <= i < items.len() {
                        spec_sanitize(items[i])
                    } else {
                        JsonV::Null
                    },
            ),
        ),
        _ => v,
    }
}

/// A document holds no secret: at every depth, a field with a sensitive key
/// holds `"[REDACTED]"`.
pub open spec fn no_secrets(v: JsonV) -> bool
    decreases v,
{
    match v {
        JsonV::Object(es) => forall|i: int|
            0 <= i < es.len() ==> if is_sensitive_key(#[trigger] es[i].0) {
                es[i].1 == redacted()
            } else {
                no_secrets(es[i].1)
            },
        JsonV::Array(items) => forall|i: int| 0 <= i < items.len() ==> no_secrets(#[trigger] items[i]),
        _ => true,
    }
}

/// A sanitized context never carries a secret: every sensitive field, at
/// every depth, is redacted.
pub proof fn law_sanitized_has_no_secrets(v: JsonV)
    ensures
        no_secrets(spec_sanitize(v)),
    decreases v,
{
    match v {
        JsonV::Object(es) => {
            let r = spec_sanitize(v);
            let res = r->Object_0;
            assert forall|i: int| 0 <= i < res.len() implies if is_sensitive_key(#[trigger] res[i].0) {
                res[i].1 == redacted()
            } else {
                no_secrets(res[i].1)
            } by {
                if !is_sensitive_key(es[i].0) {
                    assert(decreases_to!(v => es));
                    assert(decreases_to!(es => es[i]));
                    assert(decreases_to!(es[i] => es[i].1));
                    law_sanitized_has_no_secrets(es[i].1);
                }
            }
        },
        JsonV::Array(items) => {
            let r = spec_sanitize(v);
            let res = r->Array_0;
            assert forall|i: int| 0 <= i < res.len() implies no_secrets(#[trigger] res[i]) by {
                assert(decreases_to!(v => items));
                assert(decreases_to!(items => items[i]));
                law_sanitized_has_no_secrets(items[i]);
            }
        },
        _ => {},
    }
}

/// Sanitizing keeps the shape of a document: the same keys in the same
/// order, and every field that is not sensitive keeps its scalar value.
pub proof fn law_sanitize_keeps_keys(v: JsonV)
    ensures
        v is Object ==> spec_sanitize(v) is Object && spec_sanitize(v)->Object_0.len() == v->Object_0.len()
            && forall|i: int| 0 <= i < v->Object_0.len() ==> #[trigger] spec_sanitize(v)->Object_0[i].0 == v->Object_0[i].0,
        v is Array ==> spec_sanitize(v) is Array && spec_sanitize(v)->Array_0.len() == v->Array_0.len(),
        !(v is Object) && !(v is Array) ==> spec_sanitize(v) == v,
{
}

/// Sanitizing is idempotent: sanitizing a sanitized context changes nothing.
pub proof fn law_sanitize_idempotent(v: JsonV)
    ensures
        spec_sanitize(spec_sanitize(v)) == spec_sanitize(v),
    decreases v,
{
    match v {
        JsonV::Object(es) => {
            let r = spec_sanitize(v)->Object_0;
            let rr = spec_sanitize(spec_sanitize(v))->Object_0;
            assert forall|i: int| 0 <= i < r.len() implies #[trigger] rr[i] == r[i] by {
                if !is_sensitive_key(es[i].0) {
                    assert(decreases_to!(v => es));
                    assert(decreases_to!(es => es[i]));
                    assert(decreases_to!(es[i] => es[i].1));
                    law_sanitize_idempotent(es[i].1);
                }
            }
            assert(rr =~= r);
        },
        JsonV::Array(items) => {
            let r = spec_sanitize(v)->Array_0;
            let rr = spec_sanitize(spec_sanitize(v))->Array_0;
            assert forall|i: int| 0 <= i < r.len() implies #[trigger] rr[i] == r[i] by {
                assert(decreases_to!(v => items));
                assert(decreases_to!(items => items[i]));
                law_sanitize_idempotent(items[i]);
            }
            assert(rr =~= r);
        },
        _ => {},
    }
}

/// Whether a lowercase text names one of the sensitive patterns.
pub fn sensitive_pattern_in(lower: &str) -> (r: bool)
    ensures
        r == names_sensitive_pattern(lower@),
{
    let chars = chars_of(lower);
    let pats: [&str; 13] = [
        "api_key",
        "apikey",
        "key",
        "token",
        "access_token",
        "refresh_token",
        "password",
        "secret",
        "credential",
        "authorization",
        "auth",
        "bearer",
        "oauth",
    ];
    proof {
        reveal_strlit("api_key");
        reveal_strlit("apikey");
        reveal_strlit("key");
        reveal_strlit("token");
        reveal_strlit("access_token");
        reveal_strlit("refresh_token");
        reveal_strlit("password");
        reveal_strlit("secret");
        reveal_strlit("credential");
        reveal_strlit("authorization");
        reveal_strlit("auth");
        reveal_strlit("bearer");
        reveal_strlit("oauth");
        assert(pats@.len() == 13);
        assert forall|k: int| 0 <= k < 13 implies #[trigger] pats@[k]@ == sensitive_patterns()[k] by {
        }
    }
    let r = contains_any(chars.as_slice(), pats.as_slice());
    proof {
        if r {
            let k = choose|k: int| 0 <= k < pats@.len() && seq_contains(chars@, pats@[k]@);
            assert(seq_contains(lower@, sensitive_patterns()[k]));
        }
        if names_sensitive_pattern(lower@) {
            let i = choose|i: int| 0 <= i < sensitive_patterns().len() && seq_contains(lower@, #[trigger] sensitive_patterns()[i]);
            assert(seq_contains(chars@, pats@[i]@));
        }
    }
    r
}

/// Whether a key is sensitive.
pub fn is_sensitive(key: &str) -> (r: bool)
    ensures
        r == is_sensitive_key(key@),
{
    let lower = to_lowercase(key);
    sensitive_pattern_in(lower.as_str())
}

/// Sanitize context to remove sensitive data: every field whose key holds an
/// API key, token or credential marker is replaced by `"[REDACTED]"`, in
/// nested objects and arrays too.
pub fn sanitize_context(context: &Json) -> (r: Json)
    ensures
        r.jv() == spec_sanitize(context.jv()),
    decreases context,
{
    match context {
        Json::Object(entries) => {
            let mut out: Vec<(String, Json)> = Vec::new();
            let mut i: usize = 0;
            while i < entries.len()
                invariant
                    *context == Json::Object(*entries),
                    i <= entries@.len(),
                    out@.len() == i,
                    forall|k: int| 0 <= k < i ==> (#[trigger] out@[k]).0@ == entries@[k].0@ && out@[k].1.jv() == (
                    if is_sensitive_key(entries@[k].0@) {
                        redacted()
                    } else {
                        spec_sanitize(entries@[k].1.jv())
                    }),
                decreases entries.len() - i,
            {
                if is_sensitive(entries[i].0.as_str()) {
                    proof {
                        reveal_strlit("[REDACTED]");
                    }
                    out.push((entries[i].0.clone(), Json::string("[REDACTED]")));
                } else {
                    proof {
                        assert(decreases_to!(*context => context->Object_0));
                        assert(decreases_to!(context->Object_0 => context->Object_0@));
                        assert(decreases_to!(context->Object_0@ => context->Object_0@[i as int]));
                        assert(decreases_to!(context->Object_0@[i as int] => context->Object_0@[i as int].1));
                    }
                    out.push((entries[i].0.clone(), sanitize_context(&entries[i].1)));
                }
                i = i + 1;
            }
            let r = Json::Object(out);
            proof {
                let a = r.jv()->Object_0;
                let b = spec_sanitize(context.jv())->Object_0;
                assert(a.len() == b.len());
                assert forall|k: int| 0 <= k < a.len() implies a[k] == b[k] by {
                    assert(r->Object_0@[k].0@ == entries@[k].0@);
                }
                assert(a =~= b);
            }
            r
        },
        Json::Array(items) => {
            let mut out: Vec<Json> = Vec::new();
            let mut i: usize = 0;
            while i < items.len()
                invariant
                    *context == Json::Array(*items),
                    i <= items@.len(),
                    out@.len() == i,
                    forall|k: int| 0 <= k < i ==> #[trigger] out@[k].jv() == spec_sanitize(items@[k].jv()),
                decreases items.len() - i,
            {
                proof {
                    assert(decreases_to!(*context => context->Array_0));
                    assert(decreases_to!(context->Array_0 => context->Array_0@));
                    assert(decreases_to!(context->Array_0@ => context->Array_0@[i as int]));
                }
                out.push(sanitize_context(&items[i]));
                i = i + 1;
            }
            let r = Json::Array(out);
            proof {
                let a = r.jv()->Array_0;
                let b = spec_sanitize(context.jv())->Array_0;
                assert(a.len() == b.len());
                assert forall|k: int| 0 <= k < a.len() implies a[k] == b[k] by {
                    assert(r->Array_0@[k].jv() == spec_sanitize(items@[k].jv()));
                }
                assert(a =~= b);
            }
            r
        },
        _ => context.deep_clone(),
    }
}

/// Structured log entry for Composio tool execution
#[derive(Debug)]
pub struct ExecutionLog {
    /// Milliseconds since the Unix epoch.
    pub timestamp: i64,
    pub level: LogLevel,
    /// Component identifier (e.g., "composio.meta_tools", "composio.workbench")
    pub component: String,
    /// Event type (e.g., "tool_execution", "oauth_connection", "cache_hit")
    pub event: String,
    pub user_id: String,
    pub tool_name: Option<String>,
    /// Execution duration in milliseconds
    pub duration_ms: Option<u64>,
    pub success: bool,
    /// Additional context (sanitized, no secrets)
    pub context: Option<Json>,
}

/// What a log entry says, but for its timestamp.
pub struct LogView {
    pub level: LogLevel,
    pub component: Seq<char>,
    pub event: Seq<char>,
    pub user_id: Seq<char>,
    pub tool_name: Option<Seq<char>>,
    pub duration_ms: Option<u64>,
    pub success: bool,
    pub context: Option<JsonV>,
}

impl View for ExecutionLog {
    type V = LogView;

    open spec fn view(&self) -> LogView {
        LogView {
            level: self.level,
            component: self.component@,
            event: self.event@,
            user_id: self.user_id@,
            tool_name: match self.tool_name {
                Some(t) => Some(t@),
                None => None,
            },
            duration_ms: self.duration_ms,
            success: self.success,
            context: context_view(self.context),
        }
    }
}

/// The sanitized value of an optional context.
pub open spec fn sanitized_opt(c: Option<&Json>) -> Option<JsonV> {
    match c {
        Some(j) => Some(spec_sanitize(j.jv())),
        None => None,
    }
}

/// The entries with `key` set to `v`: in place at its first entry, or
/// appended.
pub open spec fn object_set(es: Seq<(Seq<char>, JsonV)>, key: Seq<char>, v: JsonV) -> Seq<(Seq<char>, JsonV)> {
    match first_key_index(es, key) {
        Some(i) => es.update(i, (key, v)),
        None => es.push((key, v)),
    }
}

/// The entries with every field of `ctx`, sanitized, set in turn.
pub open spec fn merge_entries(es: Seq<(Seq<char>, JsonV)>, ctx: Seq<(Seq<char>, JsonV)>) -> Seq<(Seq<char>, JsonV)>
    decreases ctx.len(),
{
    if ctx.len() == 0 {
        es
    } else {
        object_set(merge_entries(es, ctx.drop_last()), ctx.last().0, spec_sanitize(ctx.last().1))
    }
}

/// A base context, sanitized, with the fields of an object context merged in
/// (a context that is not an object adds nothing).
pub open spec fn merged_context(base: Seq<(Seq<char>, JsonV)>, ctx: Option<&Json>) -> JsonV {
    let b = spec_sanitize(JsonV::Object(base))->Object_0;
    match ctx {
        Some(c) => match c.jv() {
            JsonV::Object(ces) => JsonV::Object(merge_entries(b, ces)),
            _ => JsonV::Object(b),
        },
        None => JsonV::Object(b),
    }
}

/// A one-field object `{key: value}`.
fn single_field(key: &str, value: &str) -> (r: Json)
    ensures
        r.jv() == JsonV::Object(seq![(key@, JsonV::Str(value@))]),
{
    let r = Json::Object(vec![(key.to_owned(), Json::string(value))]);
    proof {
        assert(r.jv()->Object_0 =~= seq![(key@, JsonV::Str(value@))]);
    }
    r
}

/// Sets `key` to `v` in an entry list.
pub fn set_entry(es: &mut Vec<(String, Json)>, key: String, v: Json)
    ensures
        final(es)@.map_values(|e: (String, Json)| (e.0@, e.1.jv())) == object_set(
            old(es)@.map_values(|e: (String, Json)| (e.0@, e.1.jv())),
            key@,
            v.jv(),
        ),
{
    let ghost s = es@.map_values(|e: (String, Json)| (e.0@, e.1.jv()));
    let ghost k = key@;
    let ghost vj = v.jv();
    let mut i: usize = 0;
    while i < es.len()
        invariant
            i <= es@.len(),
            es@ == old(es)@,
            k == key@,
            vj == v.jv(),
            s == es@.map_values(|e: (String, Json)| (e.0@, e.1.jv())),
            forall|j: int| 0 <= j < i ==> s[j].0 != k,
        decreases es.len() - i,
    {
        proof {
            assert(s[i as int] == (es@[i as int].0@, es@[i as int].1.jv()));
        }
        if crate::text::str_eq(es[i].0.as_str(), key.as_str()) {
            proof {
                assert(s[i as int].0 == k);
                let w = choose|x: int| 0 <= x < s.len() && s[x].0 == k && forall|j: int| 0 <= j < x ==> s[j].0 != k;
                if w < i {
                    assert(s[w].0 != k);
                } else if w > i {
                    assert(s[i as int].0 != k);
                }
                assert(first_key_index(s, k) == Some(i as int));
            }
            es.set(i, (key, v));
            proof {
                assert(es@.map_values(|e: (String, Json)| (e.0@, e.1.jv())) =~= s.update(i as int, (k, vj)));
            }
            return;
        }
        i = i + 1;
    }
    proof {
        assert(!(exists|x: int| 0 <= x < s.len() && s[x].0 == k));
    }
    es.push((key, v));
    proof {
        assert(es@.map_values(|e: (String, Json)| (e.0@, e.1.jv())) =~= s.push((k, vj)));
    }
}

/// The base object, sanitized, with the fields of `ctx` (when it is an
/// object) sanitized and merged in.
fn merge_into(base: &Json, ctx: Option<&Json>) -> (r: Json)
    requires
        base.jv() is Object,
    ensures
        r.jv() == merged_context(base.jv()->Object_0, ctx),
{
    let sb = sanitize_context(base);
    let mut es: Vec<(String, Json)> = match sb {
        Json::Object(e) => e,
        _ => Vec::new(),
    };
    let ghost b = spec_sanitize(base.jv())->Object_0;
    proof {
        assert(es@.map_values(|e: (String, Json)| (e.0@, e.1.jv())) =~= b);
    }
    match ctx {
        Some(c) => match c {
            Json::Object(ces) => {
                let ghost cs = c.jv()->Object_0;
                let mut i: usize = 0;
                while i < ces.len()
                    invariant
                        *c == Json::Object(*ces),
                        cs == c.jv()->Object_0,
                        i <= ces@.len(),
                        es@.map_values(|e: (String, Json)| (e.0@, e.1.jv())) == merge_entries(b, cs.subrange(0, i as int)),
                    decreases ces.len() - i,
                {
                    let v = sanitize_context(&ces[i].1);
                    set_entry(&mut es, ces[i].0.clone(), v);
                    proof {
                        assert(cs.subrange(0, i + 1).drop_last() =~= cs.subrange(0, i as int));
                        assert(cs.subrange(0, i + 1).last() == cs[i as int]);
                    }
                    i = i + 1;
                }
                proof {
                    assert(cs.subrange(0, cs.len() as int) =~= cs);
                }
            },
            _ => {},
        },
        None => {},
    }
    let r = Json::Object(es);
    proof {
        assert(r.jv()->Object_0 =~= es@.map_values(|e: (String, Json)| (e.0@, e.1.jv())));
    }
    r
}

/// The value of an optional context.
pub open spec fn context_view(c: Option<Json>) -> Option<JsonV> {
    match c {
        Some(j) => Some(j.jv()),
        None => None,
    }
}

impl ExecutionLog {
    /// Create a new execution log entry stamped `now`.
    pub fn new_at(level: LogLevel, component: String, event: String, user_id: String, success: bool, now: i64) -> (r: Self)
        ensures
            r.timestamp == now,
            r.level == level,
            r.component == component,
            r.event == event,
            r.user_id == user_id,
            r.tool_name is None,
            r.duration_ms is None,
            r.success == success,
            r.context is None,
    {
        ExecutionLog {
            timestamp: now,
            level,
            component,
            event,
            user_id,
            tool_name: None,
            duration_ms: None,
            success,
            context: None,
        }
    }

    /// Create a new execution log entry stamped now.
    pub fn new(level: LogLevel, component: String, event: String, user_id: String, success: bool) -> (r: Self)
        ensures
            r.level == level,
            r.component == component,
            r.event == event,
            r.user_id == user_id,
            r.tool_name is None,
            r.duration_ms is None,
            r.success == success,
            r.context is None,
    {
        Self::new_at(level, component, event, user_id, success, now_millis())
    }

    /// Set tool name
    pub fn with_tool_name(self, tool_name: String) -> (r: Self)
        ensures
            r == (ExecutionLog { tool_name: Some(tool_name), ..self }),
    {
        ExecutionLog { tool_name: Some(tool_name), ..self }
    }

    /// Set execution duration, in milliseconds
    pub fn with_duration(self, duration_ms: u64) -> (r: Self)
        ensures
            r == (ExecutionLog { duration_ms: Some(duration_ms), ..self }),
    {
        ExecutionLog { duration_ms: Some(duration_ms), ..self }
    }

    /// Set additional context, sanitized
    pub fn with_context(self, context: &Json) -> (r: Self)
        ensures
            r.timestamp == self.timestamp && r.level == self.level && r.component == self.component
                && r.event == self.event && r.user_id == self.user_id && r.tool_name == self.tool_name
                && r.duration_ms == self.duration_ms && r.success == self.success,
            context_view(r.context) == Some(spec_sanitize(context.jv())),
    {
        let c = sanitize_context(context);
        ExecutionLog { context: Some(c), ..self }
    }

    /// Whether the entry passes the filter.
    pub fn passes(&self, filter: LogLevel) -> (r: bool)
        ensures
            r == (rank(self.level) <= rank(filter)),
    {
        self.level.should_log(filter)
    }
}

/// Rolling window of latency samples, in milliseconds.
pub struct LatencyCollector {
    samples: Vec<u64>,
    max_samples: usize,
}

/// The ascending order of samples.
pub open spec fn ascending() -> spec_fn(u64, u64) -> bool {
    |x: u64, y: u64| x <= y
}

/// The last `max` samples of a sequence.
pub open spec fn sample_window(s: Seq<u64>, max: usize) -> Seq<u64> {
    if s.len() > max {
        s.subrange(s.len() - max, s.len() as int)
    } else {
        s
    }
}

/// Sorts samples in ascending order.
pub fn sort_samples(v: &Vec<u64>) -> (r: Vec<u64>)
    ensures
        r@ == v@.sort_by(ascending()),
{
    let mut r: Vec<u64> = Vec::new();
    let mut i: usize = 0;
    while i < v.len()
        invariant
            i <= v@.len(),
            sorted_by(r@, ascending()),
            r@.to_multiset() == v@.subrange(0, i as int).to_multiset(),
        decreases v.len() - i,
    {
        let x = v[i];
        let mut pos: usize = 0;
        while pos < r.len() && r[pos] <= x
            invariant
                pos <= r@.len(),
                forall|k: int| 0 <= k < pos ==> #[trigger] r@[k] <= x,
            decreases r.len() - pos,
        {
            pos = pos + 1;
        }
        let ghost old_r = r@;
        r.insert(pos, x);
        proof {
            assert(r@ == old_r.insert(pos as int, x));
            assert forall|a: int, b: int| 0 <= a < b < r@.len() implies #[trigger] (ascending())(r@[a], r@[b]) by {
                assert((ascending())(old_r[0], old_r[0]) == (old_r[0] <= old_r[0]));
                if b < pos {
                    assert((ascending())(old_r[a], old_r[b]));
                } else if b == pos {
                } else if a < pos {
                    assert(r@[b] == old_r[b - 1]);
                    if pos < old_r.len() {
                        assert(x < old_r[pos as int]);
                        if b - 1 > pos {
                            assert((ascending())(old_r[pos as int], old_r[b - 1]));
                        }
                    }
                } else if a == pos {
                    assert(x < old_r[pos as int]);
                    if b - 1 > pos {
                        assert((ascending())(old_r[pos as int], old_r[b - 1]));
                    }
                } else {
                    assert((ascending())(old_r[a - 1], old_r[b - 1]));
                }
            }
            assert(v@.subrange(0, i + 1) =~= v@.subrange(0, i as int).push(x));
        }
        i = i + 1;
    }
    proof {
        assert(v@.subrange(0, v@.len() as int) =~= v@);
        v@.lemma_sort_by_ensures(ascending());
        lemma_sorted_unique(r@, v@.sort_by(ascending()), ascending());
    }
    r
}

impl LatencyCollector {
    /// The samples kept, oldest first.
    pub closed spec fn samples(self) -> Seq<u64> {
        self.samples@
    }

    /// The most samples kept.
    pub closed spec fn max(self) -> usize {
        self.max_samples
    }

    /// A collector keeping up to `max_samples` samples.
    pub fn new(max_samples: usize) -> (c: Self)
        ensures
            c.samples().len() == 0,
            c.max() == max_samples,
    {
        LatencyCollector { samples: Vec::new(), max_samples }
    }

    /// Record a sample, keeping only the most recent `max` samples.
    pub fn record(&mut self, latency_ms: u64)
        ensures
            final(self).max() == old(self).max(),
            final(self).samples() == sample_window(old(self).samples().push(latency_ms), old(self).max()),
    {
        let ghost pushed = self.samples@.push(latency_ms);
        self.samples.push(latency_ms);
        if self.samples.len() > self.max_samples {
            let excess = self.samples.len() - self.max_samples;
            let mut kept: Vec<u64> = Vec::new();
            let mut i: usize = excess;
            while i < self.samples.len()
                invariant
                    excess <= i <= self.samples@.len(),
                    self.samples@ == pushed,
                    kept@ == pushed.subrange(excess as int, i as int),
                decreases self.samples.len() - i,
            {
                kept.push(self.samples[i]);
                i = i + 1;
            }
            self.samples = kept;
        }
    }

    /// Number of samples kept.
    pub fn len(&self) -> (n: usize)
        ensures
            n == self.samples().len(),
    {
        self.samples.len()
    }

    /// The samples in ascending order.
    pub fn sorted(&self) -> (r: Vec<u64>)
        ensures
            r@ == self.samples().sort_by(ascending()),
    {
        sort_samples(&self.samples)
    }

    /// The sample at `rank` (0-based) in ascending order, or 0 when there is
    /// no such sample.
    pub fn sample_at_rank(&self, rank: usize) -> (r: u64)
        ensures
            rank < self.samples().len() ==> r == self.samples().sort_by(ascending())[rank as int],
            rank >= self.samples().len() ==> r == 0,
    {
        let s = self.sorted();
        proof {
            self.samples().lemma_sort_by_ensures(ascending());
            assert(s@.len() == self.samples().len()) by {
                assert(s@.to_multiset().len() == self.samples().to_multiset().len());
            }
        }
        if rank < s.len() {
            s[rank]
        } else {
            0
        }
    }
}

/// The counters behind the metrics.
#[derive(Debug, Clone, Copy, PartialEq, Eq, Structural)]
pub struct MetricCounts {
    pub composio_api_requests: u64,
    pub composio_api_failures: u64,
    pub mcp_server_requests: u64,
    pub mcp_server_failures: u64,
    pub cache_hits: u64,
    pub cache_misses: u64,
    pub tool_executions: u64,
    pub oauth_connections: u64,
    pub workbench_executions: u64,
    pub composio_errors: u64,
    pub auth_failures: u64,
    pub rate_limit_hits: u64,
}

/// Counters below their maximum, so that one more event can be counted.
pub open spec fn room(c: MetricCounts) -> bool {
    &&& c.composio_api_requests < u64::MAX
    &&& c.composio_api_failures < u64::MAX
    &&& c.mcp_server_requests < u64::MAX
    &&& c.mcp_server_failures < u64::MAX
    &&& c.cache_hits < u64::MAX
    &&& c.cache_misses < u64::MAX
    &&& c.tool_executions < u64::MAX
    &&& c.oauth_connections < u64::MAX
    &&& c.workbench_executions < u64::MAX
    &&& c.composio_errors < u64::MAX
    &&& c.auth_failures < u64::MAX
    &&& c.rate_limit_hits < u64::MAX
}

/// One count more when `b` holds.
pub open spec fn bump(n: u64, b: bool) -> u64 {
    if b {
        (n + 1) as u64
    } else {
        n
    }
}

/// Logger for Composio tool operations
pub struct ComposioLogger {
    filter: LogLevel,
    counts: MetricCounts,
    request_latencies: LatencyCollector,
    execution_durations: LatencyCollector,
}

impl ComposioLogger {
    /// The counters.
    pub closed spec fn counts(self) -> MetricCounts {
        self.counts
    }

    /// The request latency samples.
    pub closed spec fn request_samples(self) -> Seq<u64> {
        self.request_latencies.samples()
    }

    /// The execution duration samples.
    pub closed spec fn duration_samples(self) -> Seq<u64> {
        self.execution_durations.samples()
    }

    /// The level filter.
    pub closed spec fn filter_level(self) -> LogLevel {
        self.filter
    }

    /// How many request latency samples are kept.
    pub closed spec fn window(self) -> usize {
        self.request_latencies.max()
    }

    /// How many execution duration samples are kept.
    pub closed spec fn duration_window(self) -> usize {
        self.execution_durations.max()
    }

    /// Nothing but the counters and the request samples changed.
    pub closed spec fn unchanged_except_requests(self, before: Self) -> bool {
        &&& self.execution_durations == before.execution_durations
        &&& self.request_latencies.max() == before.request_latencies.max()
        &&& self.filter == before.filter
    }

    /// Nothing but the counters and the duration samples changed.
    pub closed spec fn unchanged_except_durations(self, before: Self) -> bool {
        &&& self.request_latencies == before.request_latencies
        &&& self.execution_durations.max() == before.execution_durations.max()
        &&& self.filter == before.filter
    }


    /// Create a new logger with the specified filter level (1000 latency
    /// samples kept of each kind)
    pub fn new(filter: LogLevel) -> (l: Self)
        ensures
            l.filter_level() == filter,
            l.counts() == (MetricCounts {
                composio_api_requests: 0,
                composio_api_failures: 0,
                mcp_server_requests: 0,
                mcp_server_failures: 0,
                cache_hits: 0,
                cache_misses: 0,
                tool_executions: 0,
                oauth_connections: 0,
                workbench_executions: 0,
                composio_errors: 0,
                auth_failures: 0,
                rate_limit_hits: 0,
            }),
            l.request_samples().len() == 0,
            l.duration_samples().len() == 0,
            l.window() == 1000,
            l.duration_window() == 1000,
    {
        ComposioLogger {
            filter,
            counts: MetricCounts {
                composio_api_requests: 0,
                composio_api_failures: 0,
                mcp_server_requests: 0,
                mcp_server_failures: 0,
                cache_hits: 0,
                cache_misses: 0,
                tool_executions: 0,
                oauth_connections: 0,
                workbench_executions: 0,
                composio_errors: 0,
                auth_failures: 0,
                rate_limit_hits: 0,
            },
            request_latencies: LatencyCollector::new(1000),
            execution_durations: LatencyCollector::new(1000),
        }
    }

    /// The level filter.
    pub fn filter(&self) -> (r: LogLevel)
        ensures
            r == self.filter_level(),
    {
        self.filter
    }

    /// The current counters.
    pub fn metric_counts(&self) -> (r: MetricCounts)
        ensures
            r == self.counts(),
    {
        self.counts
    }

    /// The request latency sample at `rank` in ascending order (0 if none).
    pub fn request_latency_at_rank(&self, rank: usize) -> (r: (u64, usize))
        ensures
            r.1 == self.request_samples().len(),
            rank < self.request_samples().len() ==> r.0 == self.request_samples().sort_by(ascending())[rank as int],
            rank >= self.request_samples().len() ==> r.0 == 0,
    {
        (self.request_latencies.sample_at_rank(rank), self.request_latencies.len())
    }

    /// The execution duration sample at `rank` in ascending order (0 if none).
    pub fn execution_duration_at_rank(&self, rank: usize) -> (r: (u64, usize))
        ensures
            r.1 == self.duration_samples().len(),
            rank < self.duration_samples().len() ==> r.0 == self.duration_samples().sort_by(ascending())[rank as int],
            rank >= self.duration_samples().len() ==> r.0 == 0,
    {
        (self.execution_durations.sample_at_rank(rank), self.execution_durations.len())
    }

    /// Record a Composio API request
    pub fn record_composio_api_request(&mut self, success: bool, latency_ms: u64)
        requires
            room(old(self).counts()),
        ensures
            final(self).counts() == (MetricCounts {
                composio_api_requests: (old(self).counts().composio_api_requests + 1) as u64,
                composio_api_failures: bump(old(self).counts().composio_api_failures, !success),
                ..old(self).counts()
            }),
            final(self).request_samples() == sample_window(
                old(self).request_samples().push(latency_ms),
                old(self).window(),
            ),
            final(self).unchanged_except_requests(*old(self)),
    {
        self.counts.composio_api_requests = self.counts.composio_api_requests + 1;
        if !success {
            self.counts.composio_api_failures = self.counts.composio_api_failures + 1;
        }
        self.request_latencies.record(latency_ms);
    }

    /// Record an MCP server request
    pub fn record_mcp_server_request(&mut self, success: bool, latency_ms: u64)
        requires
            room(old(self).counts()),
        ensures
            final(self).counts() == (MetricCounts {
                mcp_server_requests: (old(self).counts().mcp_server_requests + 1) as u64,
                mcp_server_failures: bump(old(self).counts().mcp_server_failures, !success),
                ..old(self).counts()
            }),
            final(self).request_samples() == sample_window(
                old(self).request_samples().push(latency_ms),
                old(self).window(),
            ),
            final(self).unchanged_except_requests(*old(self)),
    {
        self.counts.mcp_server_requests = self.counts.mcp_server_requests + 1;
        if !success {
            self.counts.mcp_server_failures = self.counts.mcp_server_failures + 1;
        }
        self.request_latencies.record(latency_ms);
    }

    /// Record a rate limit hit
    pub fn record_rate_limit_hit(&mut self)
        requires
            room(old(self).counts()),
        ensures
            final(self).counts() == (MetricCounts {
                rate_limit_hits: (old(self).counts().rate_limit_hits + 1) as u64,
                ..old(self).counts()
            }),
            final(self).request_samples() == old(self).request_samples(),
            final(self).duration_samples() == old(self).duration_samples(),
            final(self).filter_level() == old(self).filter_level(),
            final(self).window() == old(self).window(),
            final(self).duration_window() == old(self).duration_window(),
    {
        self.counts.rate_limit_hits = self.counts.rate_limit_hits + 1;
    }

    /// Log a tool execution: counts it (and its failure), records its
    /// duration, and returns the entry to emit.
    pub fn log_tool_execution(
        &mut self,
        user_id: String,
        tool_name: String,
        duration_ms: u64,
        success: bool,
        context: Option<&Json>,
    ) -> (r: ExecutionLog)
        requires
            room(old(self).counts()),
        ensures
            final(self).counts() == (MetricCounts {
                tool_executions: (old(self).counts().tool_executions + 1) as u64,
                composio_errors: bump(old(self).counts().composio_errors, !success),
                ..old(self).counts()
            }),
            final(self).duration_samples() == sample_window(
                old(self).duration_samples().push(duration_ms),
                old(self).duration_window(),
            ),
            final(self).unchanged_except_durations(*old(self)),
            r@ == (LogView {
                level: if success { LogLevel::Info } else { LogLevel::Error },
                component: "composio.tool_execution"@,
                event: "tool_executed"@,
                user_id: user_id@,
                tool_name: Some(tool_name@),
                duration_ms: Some(duration_ms),
                success,
                context: sanitized_opt(context),
            }),
    {
        self.counts.tool_executions = self.counts.tool_executions + 1;
        self.execution_durations.record(duration_ms);
        if !success {
            self.counts.composio_errors = self.counts.composio_errors + 1;
        }
        let level = if success {
            LogLevel::Info
        } else {
            LogLevel::Error
        };
        let log = ExecutionLog::new(
            level,
            "composio.tool_execution".to_owned(),
            "tool_executed".to_owned(),
            user_id,
            success,
        ).with_tool_name(tool_name).with_duration(duration_ms);
        match context {
            Some(c) => log.with_context(c),
            None => log,
        }
    }

    /// Log an OAuth connection attempt: counts it (and its failure) and
    /// returns the entry to emit.
    pub fn log_oauth_connection(&mut self, user_id: String, toolkit: String, success: bool, context: Option<&Json>) -> (r: ExecutionLog)
        requires
            room(old(self).counts()),
        ensures
            final(self).counts() == (MetricCounts {
                oauth_connections: (old(self).counts().oauth_connections + 1) as u64,
                auth_failures: bump(old(self).counts().auth_failures, !success),
                ..old(self).counts()
            }),
            final(self).request_samples() == old(self).request_samples(),
            final(self).duration_samples() == old(self).duration_samples(),
            final(self).filter_level() == old(self).filter_level(),
            final(self).window() == old(self).window(),
            final(self).duration_window() == old(self).duration_window(),
            r@ == (LogView {
                level: if success { LogLevel::Info } else { LogLevel::Warn },
                component: "composio.oauth"@,
                event: "oauth_connection"@,
                user_id: user_id@,
                tool_name: Some(toolkit@),
                duration_ms: None,
                success,
                context: sanitized_opt(context),
            }),
    {
        self.counts.oauth_connections = self.counts.oauth_connections + 1;
        if !success {
            self.counts.auth_failures = self.counts.auth_failures + 1;
        }
        let level = if success {
            LogLevel::Info
        } else {
            LogLevel::Warn
        };
        let log = ExecutionLog::new(level, "composio.oauth".to_owned(), "oauth_connection".to_owned(), user_id, success)
            .with_tool_name(toolkit);
        match context {
            Some(c) => log.with_context(c),
            None => log,
        }
    }

    /// Log a cache operation: counts the hit or miss and returns the entry to
    /// emit.
    pub fn log_cache_operation(&mut self, user_id: String, cache_type: &str, hit: bool) -> (r: ExecutionLog)
        requires
            room(old(self).counts()),
        ensures
            final(self).counts() == (MetricCounts {
                cache_hits: bump(old(self).counts().cache_hits, hit),
                cache_misses: bump(old(self).counts().cache_misses, !hit),
                ..old(self).counts()
            }),
            final(self).request_samples() == old(self).request_samples(),
            final(self).duration_samples() == old(self).duration_samples(),
            final(self).filter_level() == old(self).filter_level(),
            final(self).window() == old(self).window(),
            final(self).duration_window() == old(self).duration_window(),
            r@ == (LogView {
                level: LogLevel::Debug,
                component: "composio.cache"@,
                event: if hit { "cache_hit"@ } else { "cache_miss"@ },
                user_id: user_id@,
                tool_name: None,
                duration_ms: None,
                success: true,
                context: Some(spec_sanitize(JsonV::Object(seq![("cache_type"@, JsonV::Str(cache_type@))]))),
            }),
    {
        if hit {
            self.counts.cache_hits = self.counts.cache_hits + 1;
        } else {
            self.counts.cache_misses = self.counts.cache_misses + 1;
        }
        let event = if hit {
            "cache_hit".to_owned()
        } else {
            "cache_miss".to_owned()
        };
        let ctx = single_field("cache_type", cache_type);
        ExecutionLog::new(LogLevel::Debug, "composio.cache".to_owned(), event, user_id, true).with_context(&ctx)
    }

    /// Log a Workbench operation: counts it (and its failure), records its
    /// duration, and returns the entry to emit, whose context is the session
    /// id with the given context's fields merged in.
    pub fn log_workbench_operation(
        &mut self,
        user_id: String,
        session_id: &str,
        duration_ms: u64,
        success: bool,
        context: Option<&Json>,
    ) -> (r: ExecutionLog)
        requires
            room(old(self).counts()),
        ensures
            final(self).counts() == (MetricCounts {
                workbench_executions: (old(self).counts().workbench_executions + 1) as u64,
                composio_errors: bump(old(self).counts().composio_errors, !success),
                ..old(self).counts()
            }),
            final(self).duration_samples() == sample_window(
                old(self).duration_samples().push(duration_ms),
                old(self).duration_window(),
            ),
            final(self).unchanged_except_durations(*old(self)),
            r@ == (LogView {
                level: if success { LogLevel::Info } else { LogLevel::Error },
                component: "composio.workbench"@,
                event: "workbench_execution"@,
                user_id: user_id@,
                tool_name: None,
                duration_ms: Some(duration_ms),
                success,
                context: Some(merged_context(seq![("session_id"@, JsonV::Str(session_id@))], context)),
            }),
    {
        self.counts.workbench_executions = self.counts.workbench_executions + 1;
        self.execution_durations.record(duration_ms);
        if !success {
            self.counts.composio_errors = self.counts.composio_errors + 1;
        }
        let level = if success {
            LogLevel::Info
        } else {
            LogLevel::Error
        };
        let base = single_field("session_id", session_id);
        let log = ExecutionLog::new(
            level,
            "composio.workbench".to_owned(),
            "workbench_execution".to_owned(),
            user_id,
            success,
        ).with_duration(duration_ms);
        let merged = merge_into(&base, context);
        ExecutionLog { context: Some(merged), ..log }
    }

    /// Log an MCP client operation: returns the entry to emit.
    pub fn log_mcp_operation(
        &self,
        user_id: String,
        operation: String,
        duration_ms: u64,
        success: bool,
        context: Option<&Json>,
    ) -> (r: ExecutionLog)
        ensures
            r@ == (LogView {
                level: if success { LogLevel::Debug } else { LogLevel::Error },
                component: "composio.mcp_client"@,
                event: operation@,
                user_id: user_id@,
                tool_name: None,
                duration_ms: Some(duration_ms),
                success,
                context: sanitized_opt(context),
            }),
    {
        let level = if success {
            LogLevel::Debug
        } else {
            LogLevel::Error
        };
        let log = ExecutionLog::new(level, "composio.mcp_client".to_owned(), operation, user_id, success)
            .with_duration(duration_ms);
        match context {
            Some(c) => log.with_context(c),
            None => log,
        }
    }

    /// Log a security policy check: returns the entry to emit.
    pub fn log_security_check(&self, user_id: String, tool_name: &str, allowed: bool, reason: Option<String>) -> (r: ExecutionLog)
        ensures
            r@ == (LogView {
                level: if allowed { LogLevel::Debug } else { LogLevel::Warn },
                component: "composio.security"@,
                event: if allowed { "access_granted"@ } else { "access_denied"@ },
                user_id: user_id@,
                tool_name: None,
                duration_ms: None,
                success: allowed,
                context: Some(spec_sanitize(JsonV::Object(match reason {
                    Some(x) => seq![("tool_name"@, JsonV::Str(tool_name@)), ("reason"@, JsonV::Str(x@))],
                    None => seq![("tool_name"@, JsonV::Str(tool_name@))],
                }))),
            }),
    {
        let ghost rv = reason;
        let ctx = match reason {
            Some(x) => {
                let rj = Json::Str(x);
                assert(rj.jv() == JsonV::Str(rv->0@));
                let j = Json::Object(
                    vec![("tool_name".to_owned(), Json::string(tool_name)), ("reason".to_owned(), rj)],
                );
                proof {
                    assert(j.jv()->Object_0 =~= seq![("tool_name"@, JsonV::Str(tool_name@)), ("reason"@, JsonV::Str(rv->0@))]);
                }
                j
            },
            None => single_field("tool_name", tool_name),
        };
        let level = if allowed {
            LogLevel::Debug
        } else {
            LogLevel::Warn
        };
        let event = if allowed {
            "access_granted".to_owned()
        } else {
            "access_denied".to_owned()
        };
        ExecutionLog::new(level, "composio.security".to_owned(), event, user_id, allowed).with_context(&ctx)
    }

    /// Log an error: counts it and returns the entry to emit, whose context
    /// is the error with the given context's fields merged in.
    pub fn log_error(&mut self, user_id: String, component: String, error: &str, context: Option<&Json>) -> (r: ExecutionLog)
        requires
            room(old(self).counts()),
        ensures
            final(self).counts() == (MetricCounts {
                composio_errors: (old(self).counts().composio_errors + 1) as u64,
                ..old(self).counts()
            }),
            final(self).request_samples() == old(self).request_samples(),
            final(self).duration_samples() == old(self).duration_samples(),
            final(self).filter_level() == old(self).filter_level(),
            final(self).window() == old(self).window(),
            final(self).duration_window() == old(self).duration_window(),
            r@ == (LogView {
                level: LogLevel::Error,
                component: component@,
                event: "error"@,
                user_id: user_id@,
                tool_name: None,
                duration_ms: None,
                success: false,
                context: Some(merged_context(seq![("error"@, JsonV::Str(error@))], context)),
            }),
    {
        self.counts.composio_errors = self.counts.composio_errors + 1;
        let base = single_field("error", error);
        let log = ExecutionLog::new(LogLevel::Error, component, "error".to_owned(), user_id, false);
        let merged = merge_into(&base, context);
        ExecutionLog { context: Some(merged), ..log }
    }
}

} // verus!
