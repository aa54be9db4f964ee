//! The dynamic Composio tool (search, schema, connection and execution
//! through Composio's meta-tools), kept for compatibility: its session and
//! schema cache with their lifetimes, the parameters of each meta-tool call,
//! what it reads from each reply, and its argument heuristics.
//!
//! Times are milliseconds since the Unix epoch; the MCP calls are the
//! caller's part, which hands over the `data` of the first content item of
//! each reply.

use vstd::prelude::*;
use crate::extraction::{
    Junk, find_ch, find_in, find_text, spec_trim_matches, tail, trim_matches,
};
use crate::json::{
    Json, JsonV, entries_view, json_as_str, json_first, json_get, json_get_str, object_of, push_entry,
};
use crate::text::{
    append_str, chars_of, lowercase_chars, spec_first_word, spec_to_lowercase, spec_trim, string_from_chars,
    sub_chars, trim_chars, width_aligned,
};

verus! {

/// How long a session stays valid: 30 minutes.
pub const SESSION_TTL_MS: u64 = 1_800_000;

/// How long a fetched schema stays cached: one hour.
pub const SCHEMA_CACHE_TTL_MS: u64 = 3_600_000;

/// Session state for the Tool Router pattern: the session id and when it was
/// created.
#[derive(Debug, Clone)]
pub struct ComposioSession {
    pub session_id: String,
    pub created_at: u64,
}

/// A discovered tool.
#[derive(Debug)]
pub struct ToolCacheEntry {
    pub tool_slug: String,
    pub description: String,
    pub input_schema: Option<Json>,
    pub schema_ref: Option<String>,
    pub toolkit: String,
    pub cached_at: u64,
}

/// What a discovered tool holds, as values.
pub struct ToolEntryView {
    pub tool_slug: Seq<char>,
    pub description: Seq<char>,
    pub input_schema: Option<JsonV>,
    pub schema_ref: Option<Seq<char>>,
    pub toolkit: Seq<char>,
    pub cached_at: u64,
}

impl View for ToolCacheEntry {
    type V = ToolEntryView;

    open spec fn view(&self) -> ToolEntryView {
        ToolEntryView {
            tool_slug: self.tool_slug@,
            description: self.description@,
            input_schema: match self.input_schema {
                Some(j) => Some(j.jv()),
                None => None,
            },
            schema_ref: match self.schema_ref {
                Some(s) => Some(s@),
                None => None,
            },
            toolkit: self.toolkit@,
            cached_at: self.cached_at,
        }
    }
}

/// Where the schema of a discovered tool comes from.
#[derive(Debug)]
pub enum SchemaSource {
    /// The search gave it.
    Inline(Json),
    /// It is fetched by the tool's slug.
    Fetch,
    /// There is none: the empty object stands for it.
    Empty,
}

/// The schema source of a discovered tool: its own schema, else a fetch when
/// it carries a schema reference, else none.
pub fn schema_source(entry: &ToolCacheEntry) -> (r: SchemaSource)
    ensures
        match entry@.input_schema {
            Some(s) => r matches SchemaSource::Inline(j) && j.jv() == s,
            None => if entry@.schema_ref is Some {
                r is Fetch
            } else {
                r is Empty
            },
        },
{
    match &entry.input_schema {
        Some(s) => SchemaSource::Inline(s.deep_clone()),
        None => match &entry.schema_ref {
            Some(_) => SchemaSource::Fetch,
            None => SchemaSource::Empty,
        },
    }
}

/// A cached schema and when it was fetched.
#[derive(Debug)]
pub struct SchemaCacheEntry {
    pub schema: Json,
    pub cached_at: u64,
}

/// Time since `from`, none when the clock went back.
pub open spec fn elapsed(from: u64, now: u64) -> int {
    if now >= from {
        now - from
    } else {
        0
    }
}

/// Time since `from`.
fn elapsed_ms(from: u64, now: u64) -> (r: u64)
    ensures
        r == elapsed(from, now),
{
    if now >= from {
        now - from
    } else {
        0
    }
}

/// The last cached schema entry for a slug.
pub open spec fn schema_entry_of(cache: Seq<(Seq<char>, (JsonV, u64))>, slug: Seq<char>) -> Option<(JsonV, u64)>
    decreases cache.len(),
{
    if cache.len() == 0 {
        None
    } else if cache.last().0 == slug {
        Some(cache.last().1)
    } else {
        schema_entry_of(cache.drop_last(), slug)
    }
}

/// The mutable state of the dynamic tool: the current session and the schema
/// cache (at most one entry per slug).
pub struct MetaState {
    session: Option<ComposioSession>,
    schemas: Vec<(String, SchemaCacheEntry)>,
}

impl MetaState {
    /// The session: its id and creation time.
    pub closed spec fn session_view(&self) -> Option<(Seq<char>, u64)> {
        match self.session {
            Some(s) => Some((s.session_id@, s.created_at)),
            None => None,
        }
    }

    /// The schema cache, in the order entries were made.
    pub closed spec fn schema_cache(&self) -> Seq<(Seq<char>, (JsonV, u64))> {
        self.schemas@.map_values(|e: (String, SchemaCacheEntry)| (e.0@, (e.1.schema.jv(), e.1.cached_at)))
    }

    /// No session, no cached schema.
    pub fn new() -> (r: Self)
        ensures
            r.session_view() is None,
            r.schema_cache().len() == 0,
    {
        MetaState { session: None, schemas: Vec::new() }
    }

    /// The id of the session when it is younger than its lifetime at `now`.
    pub fn valid_session_at(&self, now: u64) -> (r: Option<String>)
        ensures
            match self.session_view() {
                Some((id, at)) => if elapsed(at, now) < SESSION_TTL_MS {
                    r matches Some(x) && x@ == id
                } else {
                    r is None
                },
                None => r is None,
            },
    {
        match &self.session {
            Some(s) => {
                if elapsed_ms(s.created_at, now) < SESSION_TTL_MS {
                    Some(s.session_id.clone())
                } else {
                    None
                }
            },
            None => None,
        }
    }

    /// Starts a session created at `now`.
    pub fn start_session_at(&mut self, session_id: String, now: u64)
        ensures
            final(self).session_view() == Some((session_id@, now)),
            final(self).schema_cache() == old(self).schema_cache(),
    {
        self.session = Some(ComposioSession { session_id, created_at: now });
    }

    /// The cached schema of a slug when younger than its lifetime at `now`.
    pub fn cached_schema_at(&self, slug: &str, now: u64) -> (r: Option<Json>)
        ensures
            match schema_entry_of(self.schema_cache(), slug@) {
                Some((s, at)) => if elapsed(at, now) < SCHEMA_CACHE_TTL_MS {
                    r matches Some(j) && j.jv() == s
                } else {
                    r is None
                },
                None => r is None,
            },
    {
        let ghost c = self.schema_cache();
        let mut i = self.schemas.len();
        assert(c.subrange(0, i as int) =~= c);
        while i > 0
            invariant
                i <= self.schemas@.len(),
                c == self.schema_cache(),
                schema_entry_of(c.subrange(0, i as int), slug@) == schema_entry_of(c, slug@),
            decreases i,
        {
            let ghost sub = c.subrange(0, i as int);
            assert(sub.last() == c[i - 1]);
            if crate::text::str_eq(self.schemas[i - 1].0.as_str(), slug) {
                let e = &self.schemas[i - 1].1;
                if elapsed_ms(e.cached_at, now) < SCHEMA_CACHE_TTL_MS {
                    return Some(e.schema.deep_clone());
                } else {
                    return None;
                }
            }
            assert(sub.drop_last() =~= c.subrange(0, i - 1));
            i = i - 1;
        }
        None
    }

    /// Caches a schema fetched at `now`, replacing the slug's entry.
    pub fn cache_schema_at(&mut self, slug: &str, schema: Json, now: u64)
        ensures
            schema_entry_of(final(self).schema_cache(), slug@) == Some((schema.jv(), now)),
            forall|k: Seq<char>|
                k != slug@ ==> schema_entry_of(final(self).schema_cache(), k) == schema_entry_of(
                    old(self).schema_cache(),
                    k,
                ),
            final(self).session_view() == old(self).session_view(),
    {
        let ghost before = self.schema_cache();
        let ghost sj = schema.jv();
        self.schemas.push((slug.to_owned(), SchemaCacheEntry { schema, cached_at: now }));
        proof {
            let after = self.schema_cache();
            assert(after =~= before.push((slug@, (sj, now))));
            assert(after.drop_last() =~= before);
        }
    }
}

/// `{"generate_id": true}`.
pub open spec fn generate_id() -> JsonV {
    JsonV::Object(seq![("generate_id"@, JsonV::Bool(true))])
}

/// A one-element array.
pub open spec fn one(v: JsonV) -> JsonV {
    JsonV::Array(seq![v])
}

/// Parameters of the COMPOSIO_SEARCH_TOOLS call that opens a session.
pub open spec fn spec_session_init_params() -> JsonV {
    JsonV::Object(
        seq![
            ("queries"@, one(JsonV::Object(seq![("use_case"@, JsonV::Str("initialize session"@))]))),
            ("session"@, generate_id()),
        ],
    )
}

/// A one-element array of a document.
fn one_of(j: Json) -> (r: Json)
    ensures
        r.jv() == one(j.jv()),
{
    let ghost v = j.jv();
    let r = Json::Array(vec![j]);
    assert(r.jv()->Array_0 =~= seq![v]);
    r
}

/// An object of one text field.
fn text_object(key: &str, value: &str) -> (r: Json)
    ensures
        r.jv() == JsonV::Object(seq![(key@, JsonV::Str(value@))]),
{
    let mut es: Vec<(String, Json)> = Vec::new();
    push_entry(&mut es, key, Json::string(value));
    assert(entries_view(es@) =~= seq![(key@, JsonV::Str(value@))]);
    object_of(es)
}

/// Parameters of the call that opens a session.
pub fn session_init_params() -> (r: Json)
    ensures
        r.jv() == spec_session_init_params(),
{
    let q = one_of(text_object("use_case", "initialize session"));
    let mut g: Vec<(String, Json)> = Vec::new();
    push_entry(&mut g, "generate_id", Json::Bool(true));
    assert(entries_view(g@) =~= generate_id()->Object_0);
    let mut es: Vec<(String, Json)> = Vec::new();
    push_entry(&mut es, "queries", q);
    push_entry(&mut es, "session", object_of(g));
    assert(entries_view(es@) =~= spec_session_init_params()->Object_0);
    object_of(es)
}

/// The new session's id in the reply data.
pub fn session_id_from(data: Option<&Json>) -> (r: Result<String, String>)
    ensures
        match data {
            Some(d) => match json_get_str(d.jv(), "session_id"@) {
                Some(id) => r matches Ok(x) && x@ == id,
                None => r matches Err(e) && e@ == "No session_id in COMPOSIO_SEARCH_TOOLS response"@,
            },
            None => r matches Err(e) && e@ == "No session_id in COMPOSIO_SEARCH_TOOLS response"@,
        },
{
    match data {
        Some(d) => match d.get_str("session_id") {
            Some(id) => Ok(id.to_owned()),
            None => Err("No session_id in COMPOSIO_SEARCH_TOOLS response".to_owned()),
        },
        None => Err("No session_id in COMPOSIO_SEARCH_TOOLS response".to_owned()),
    }
}

/// Parameters of a COMPOSIO_SEARCH_TOOLS call in a session.
pub open spec fn spec_meta_search_params(query: Seq<char>, session_id: Seq<char>) -> JsonV {
    JsonV::Object(
        seq![
            ("queries"@, one(JsonV::Object(seq![("use_case"@, JsonV::Str(query))]))),
            ("session"@, JsonV::Object(seq![("id"@, JsonV::Str(session_id))])),
        ],
    )
}

/// Parameters of a search in a session.
pub fn meta_search_params(query: &str, session_id: &str) -> (r: Json)
    ensures
        r.jv() == spec_meta_search_params(query@, session_id@),
{
    let q = one_of(text_object("use_case", query));
    let s = text_object("id", session_id);
    let mut es: Vec<(String, Json)> = Vec::new();
    push_entry(&mut es, "queries", q);
    push_entry(&mut es, "session", s);
    assert(entries_view(es@) =~= spec_meta_search_params(query@, session_id@)->Object_0);
    object_of(es)
}

/// The discovered tool a tool item gives, when it has a slug.
pub open spec fn spec_tool_entry(toolkit: Seq<char>, tool: JsonV, now: u64) -> Option<ToolEntryView> {
    match json_get_str(tool, "tool_slug"@) {
        None => None,
        Some(slug) => Some(
            ToolEntryView {
                tool_slug: slug,
                description: match json_get_str(tool, "description"@) {
                    Some(d) => d,
                    None => Seq::empty(),
                },
                input_schema: json_get(tool, "input_schema"@),
                schema_ref: json_get_str(tool, "schemaRef"@),
                toolkit,
                cached_at: now,
            },
        ),
    }
}

/// The discovered tools of a list of tool items, in order.
pub open spec fn tool_entries(toolkit: Seq<char>, tools: Seq<JsonV>, now: u64) -> Seq<ToolEntryView>
    decreases tools.len(),
{
    if tools.len() == 0 {
        Seq::empty()
    } else {
        let prev = tool_entries(toolkit, tools.drop_last(), now);
        match spec_tool_entry(toolkit, tools.last(), now) {
            Some(e) => prev.push(e),
            None => prev,
        }
    }
}

/// The tools of one toolkit item (its name, or `unknown`).
pub open spec fn toolkit_entries(tk: JsonV, now: u64) -> Seq<ToolEntryView> {
    let name = match json_get_str(tk, "toolkit"@) {
        Some(n) => n,
        None => "unknown"@,
    };
    match json_get(tk, "tools"@) {
        Some(JsonV::Array(ts)) => tool_entries(name, ts, now),
        _ => Seq::empty(),
    }
}

/// The tools of all toolkit items, in order.
pub open spec fn all_toolkit_entries(tks: Seq<JsonV>, now: u64) -> Seq<ToolEntryView>
    decreases tks.len(),
{
    if tks.len() == 0 {
        Seq::empty()
    } else {
        all_toolkit_entries(tks.drop_last(), now) + toolkit_entries(tks.last(), now)
    }
}

/// The tools a search reply's data lists under `toolkits`.
pub open spec fn spec_search_entries(data: JsonV, now: u64) -> Seq<ToolEntryView> {
    match json_get(data, "toolkits"@) {
        Some(JsonV::Array(tks)) => all_toolkit_entries(tks, now),
        _ => Seq::empty(),
    }
}

/// The discovered tool a tool item gives.
fn tool_entry(toolkit: &str, tool: &Json, now: u64) -> (r: Option<ToolCacheEntry>)
    ensures
        match spec_tool_entry(toolkit@, tool.jv(), now) {
            Some(e) => r matches Some(x) && x@ == e,
            None => r is None,
        },
{
    let slug = match tool.get_str("tool_slug") {
        Some(s) => s,
        None => return None,
    };
    let description = match tool.get_str("description") {
        Some(d) => d.to_owned(),
        None => String::new(),
    };
    let input_schema = match tool.get("input_schema") {
        Some(s) => Some(s.deep_clone()),
        None => None,
    };
    let schema_ref = match tool.get_str("schemaRef") {
        Some(s) => Some(s.to_owned()),
        None => None,
    };
    Some(
        ToolCacheEntry {
            tool_slug: slug.to_owned(),
            description,
            input_schema,
            schema_ref,
            toolkit: toolkit.to_owned(),
            cached_at: now,
        },
    )
}

/// The values of a list of documents.
pub open spec fn jvs(items: Seq<Json>) -> Seq<JsonV> {
    Seq::new(items.len(), |i: int| items[i].jv())
}

/// Appends the tools of a list of tool items.
fn push_tool_entries(out: &mut Vec<ToolCacheEntry>, name: &str, ts: &Vec<Json>, now: u64)
    ensures
        final(out)@.map_values(|e: ToolCacheEntry| e@) == old(out)@.map_values(|e: ToolCacheEntry| e@)
            + tool_entries(name@, jvs(ts@), now),
{
    let ghost start = out@.map_values(|e: ToolCacheEntry| e@);
    let ghost tv = jvs(ts@);
    let mut i: usize = 0;
    assert(tv.subrange(0, 0) =~= Seq::<JsonV>::empty());
    assert(start + Seq::<ToolEntryView>::empty() =~= start);
    while i < ts.len()
        invariant
            i <= ts@.len(),
            tv == jvs(ts@),
            out@.map_values(|e: ToolCacheEntry| e@) == start + tool_entries(name@, tv.subrange(0, i as int), now),
        decreases ts.len() - i,
    {
        let ghost before = out@.map_values(|e: ToolCacheEntry| e@);
        let ghost sub = tv.subrange(0, i + 1);
        assert(sub.drop_last() =~= tv.subrange(0, i as int));
        assert(sub.last() == ts@[i as int].jv());
        match tool_entry(name, &ts[i], now) {
            Some(e) => {
                let ghost ev = e@;
                out.push(e);
                assert(out@.map_values(|e: ToolCacheEntry| e@) =~= before.push(ev));
                assert(start + tool_entries(name@, sub, now) =~= before.push(ev));
            },
            None => {
                assert(start + tool_entries(name@, sub, now) =~= before);
            },
        }
        i = i + 1;
    }
    assert(tv.subrange(0, ts@.len() as int) =~= tv);
}

/// Appends the tools of one toolkit item.
fn push_toolkit_entries(out: &mut Vec<ToolCacheEntry>, tk: &Json, now: u64)
    ensures
        final(out)@.map_values(|e: ToolCacheEntry| e@) == old(out)@.map_values(|e: ToolCacheEntry| e@)
            + toolkit_entries(tk.jv(), now),
{
    let name: &str = match tk.get_str("toolkit") {
        Some(n) => n,
        None => "unknown",
    };
    let ghost start = out@.map_values(|e: ToolCacheEntry| e@);
    let tools = tk.get("tools");
    match tools {
        Some(Json::Array(ts)) => {
            proof {
                assert(Json::Array(*ts).jv()->Array_0 =~= jvs(ts@));
            }
            push_tool_entries(out, name, ts, now);
        },
        _ => {
            proof {
                match tools {
                    Some(j) => {
                        assert(!(j.jv() is Array));
                    },
                    None => {},
                }
            }
            assert(out@.map_values(|e: ToolCacheEntry| e@) =~= start + Seq::empty());
        },
    }
}

/// The tools of a list of toolkit items.
fn entries_of_toolkits(items: &Vec<Json>, now: u64) -> (r: Vec<ToolCacheEntry>)
    ensures
        r@.map_values(|e: ToolCacheEntry| e@) == all_toolkit_entries(jvs(items@), now),
{
    let ghost tv = jvs(items@);
    let mut out: Vec<ToolCacheEntry> = Vec::new();
    assert(out@.map_values(|e: ToolCacheEntry| e@) =~= Seq::<ToolEntryView>::empty());
    assert(tv.subrange(0, 0) =~= Seq::<JsonV>::empty());
    let mut i: usize = 0;
    while i < items.len()
        invariant
            i <= items@.len(),
            tv == jvs(items@),
            out@.map_values(|e: ToolCacheEntry| e@) == all_toolkit_entries(tv.subrange(0, i as int), now),
        decreases items.len() - i,
    {
        let ghost sub = tv.subrange(0, i + 1);
        assert(sub.drop_last() =~= tv.subrange(0, i as int));
        assert(sub.last() == items@[i as int].jv());
        push_toolkit_entries(&mut out, &items[i], now);
        i = i + 1;
    }
    assert(tv.subrange(0, items@.len() as int) =~= tv);
    out
}

/// The tools a search reply lists, discovered at `now`; an error when the
/// reply has no data.
pub fn parse_meta_search(data: Option<&Json>, now: u64) -> (r: Result<Vec<ToolCacheEntry>, String>)
    ensures
        match data {
            Some(d) => r matches Ok(v) && v@.map_values(|e: ToolCacheEntry| e@) == spec_search_entries(d.jv(), now),
            None => r matches Err(e) && e@ == "No data in COMPOSIO_SEARCH_TOOLS response"@,
        },
{
    let d = match data {
        Some(d) => d,
        None => return Err("No data in COMPOSIO_SEARCH_TOOLS response".to_owned()),
    };
    let tks = d.get("toolkits");
    match tks {
        Some(Json::Array(items)) => {
            proof {
                assert(Json::Array(*items).jv()->Array_0 =~= jvs(items@));
            }
            Ok(entries_of_toolkits(items, now))
        },
        _ => {
            proof {
                match tks {
                    Some(j) => {
                        assert(!(j.jv() is Array));
                    },
                    None => {},
                }
            }
            let out: Vec<ToolCacheEntry> = Vec::new();
            assert(out@.map_values(|e: ToolCacheEntry| e@) =~= Seq::<ToolEntryView>::empty());
            Ok(out)
        },
    }
}

/// Parameters of a COMPOSIO_GET_TOOL_SCHEMAS call in a session.
pub open spec fn spec_meta_schema_params(slug: Seq<char>, session_id: Seq<char>) -> JsonV {
    JsonV::Object(seq![("tool_slugs"@, one(JsonV::Str(slug))), ("session_id"@, JsonV::Str(session_id))])
}

/// Parameters of a schema request in a session.
pub fn meta_schema_params(slug: &str, session_id: &str) -> (r: Json)
    ensures
        r.jv() == spec_meta_schema_params(slug@, session_id@),
{
    let mut es: Vec<(String, Json)> = Vec::new();
    push_entry(&mut es, "tool_slugs", one_of(Json::string(slug)));
    push_entry(&mut es, "session_id", Json::string(session_id));
    assert(entries_view(es@) =~= spec_meta_schema_params(slug@, session_id@)->Object_0);
    object_of(es)
}

/// The input schema of the first schema a reply's data lists.
pub open spec fn spec_schema_from_data(data: Option<JsonV>) -> Option<JsonV> {
    match data {
        Some(d) => match json_get(d, "schemas"@) {
            Some(ss) => match json_first(ss) {
                Some(s) => json_get(s, "input_schema"@),
                None => None,
            },
            None => None,
        },
        None => None,
    }
}

/// The input schema a schema reply gives.
pub fn schema_from_data(data: Option<&Json>) -> (r: Result<Json, String>)
    ensures
        match spec_schema_from_data(crate::json::opt_jv(data)) {
            Some(s) => r matches Ok(j) && j.jv() == s,
            None => r matches Err(e) && e@ == "No schema in response"@,
        },
{
    let s = match data {
        Some(d) => match d.get("schemas") {
            Some(ss) => match ss.first() {
                Some(s) => s.get("input_schema"),
                None => None,
            },
            None => None,
        },
        None => None,
    };
    match s {
        Some(j) => Ok(j.deep_clone()),
        None => Err("No schema in response".to_owned()),
    }
}

/// Parameters of a COMPOSIO_MANAGE_CONNECTIONS call in a session.
pub open spec fn spec_meta_connection_params(toolkit: Seq<char>, session_id: Seq<char>) -> JsonV {
    JsonV::Object(seq![("toolkits"@, one(JsonV::Str(toolkit))), ("session_id"@, JsonV::Str(session_id))])
}

/// Parameters of a connection check in a session.
pub fn meta_connection_params(toolkit: &str, session_id: &str) -> (r: Json)
    ensures
        r.jv() == spec_meta_connection_params(toolkit@, session_id@),
{
    let mut es: Vec<(String, Json)> = Vec::new();
    push_entry(&mut es, "toolkits", one_of(Json::string(toolkit)));
    push_entry(&mut es, "session_id", Json::string(session_id));
    assert(entries_view(es@) =~= spec_meta_connection_params(toolkit@, session_id@)->Object_0);
    object_of(es)
}

/// What a connection check calls for next.
#[derive(Debug)]
pub enum ConnectionStep {
    /// The toolkit is connected.
    Connected,
    /// Not connected: run the onboarding flow.
    Onboard,
    /// Not connected and no onboarding: fail with this message.
    Authorize(String),
}

/// The message that asks the user to authorize a toolkit at a link.
pub open spec fn spec_authorize_message(toolkit: Seq<char>, url: Seq<char>) -> Seq<char> {
    "OAuth authorization required for "@ + crate::text::spec_to_uppercase(toolkit)
        + ".\n\nPlease click this link to authorize:\n"@ + url
        + "\n\nAfter authorizing, please retry your request.\nThe authorization link expires in 10 minutes."@
}

/// What a connection reply calls for: when its data holds a `redirect_url`,
/// the onboarding flow if there is one, else the message with the link;
/// else nothing more.
pub fn connection_step(toolkit: &str, data: Option<&Json>, has_onboarding: bool) -> (r: ConnectionStep)
    ensures
        match data {
            Some(d) => match json_get_str(d.jv(), "redirect_url"@) {
                Some(url) => if has_onboarding {
                    r is Onboard
                } else {
                    r matches ConnectionStep::Authorize(m) && m@ == spec_authorize_message(toolkit@, url)
                },
                None => r is Connected,
            },
            None => r is Connected,
        },
{
    let url = match data {
        Some(d) => d.get_str("redirect_url"),
        None => None,
    };
    match url {
        Some(u) => {
            if has_onboarding {
                ConnectionStep::Onboard
            } else {
                let up = crate::text::to_uppercase(toolkit);
                let mut v: Vec<char> = Vec::new();
                append_str(&mut v, "OAuth authorization required for ");
                append_str(&mut v, up.as_str());
                append_str(&mut v, ".\n\nPlease click this link to authorize:\n");
                append_str(&mut v, u);
                append_str(&mut v, "\n\nAfter authorizing, please retry your request.\nThe authorization link expires in 10 minutes.");
                ConnectionStep::Authorize(string_from_chars(v.as_slice()))
            }
        },
        None => ConnectionStep::Connected,
    }
}

/// Parameters of a COMPOSIO_MULTI_EXECUTE_TOOL call in a session.
pub open spec fn spec_meta_execute_params(slug: Seq<char>, arguments: JsonV, session_id: Seq<char>) -> JsonV {
    JsonV::Object(
        seq![
            ("tools"@, one(JsonV::Object(seq![("tool_slug"@, JsonV::Str(slug)), ("arguments"@, arguments)]))),
            ("sync_response_to_workbench"@, JsonV::Bool(false)),
            ("session_id"@, JsonV::Str(session_id)),
        ],
    )
}

/// Parameters of an execution in a session.
pub fn meta_execute_params(slug: &str, arguments: Json, session_id: &str) -> (r: Json)
    ensures
        r.jv() == spec_meta_execute_params(slug@, arguments.jv(), session_id@),
{
    let ghost aj = arguments.jv();
    let mut t: Vec<(String, Json)> = Vec::new();
    push_entry(&mut t, "tool_slug", Json::string(slug));
    push_entry(&mut t, "arguments", arguments);
    let tool = object_of(t);
    assert(tool.jv()->Object_0 =~= seq![("tool_slug"@, JsonV::Str(slug@)), ("arguments"@, aj)]);
    let mut es: Vec<(String, Json)> = Vec::new();
    push_entry(&mut es, "tools", one_of(tool));
    push_entry(&mut es, "sync_response_to_workbench", Json::Bool(false));
    push_entry(&mut es, "session_id", Json::string(session_id));
    assert(entries_view(es@) =~= spec_meta_execute_params(slug@, aj, session_id@)->Object_0);
    object_of(es)
}

/// What an execution reply's data gives: the first result, unless it holds
/// an `error` (its text, or "Unknown error").
pub open spec fn spec_execution_from_data(data: Option<JsonV>) -> Result<JsonV, Seq<char>> {
    let first = match data {
        Some(d) => match json_get(d, "results"@) {
            Some(rs) => json_first(rs),
            None => None,
        },
        None => None,
    };
    match first {
        None => Err("No result in COMPOSIO_MULTI_EXECUTE_TOOL response"@),
        Some(t) => match json_get(t, "error"@) {
            Some(e) => Err(
                "Tool execution failed: "@ + match json_as_str(e) {
                    Some(m) => m,
                    None => "Unknown error"@,
                },
            ),
            None => Ok(t),
        },
    }
}

/// The result an execution reply gives.
pub fn execution_from_data(data: Option<&Json>) -> (r: Result<Json, String>)
    ensures
        match spec_execution_from_data(crate::json::opt_jv(data)) {
            Ok(v) => r matches Ok(j) && j.jv() == v,
            Err(e) => r matches Err(x) && x@ == e,
        },
{
    let first = match data {
        Some(d) => match d.get("results") {
            Some(rs) => rs.first(),
            None => None,
        },
        None => None,
    };
    let t = match first {
        Some(t) => t,
        None => return Err("No result in COMPOSIO_MULTI_EXECUTE_TOOL response".to_owned()),
    };
    match t.get("error") {
        Some(e) => {
            let m: &str = match e.as_str() {
                Some(m) => m,
                None => "Unknown error",
            };
            let mut v: Vec<char> = Vec::new();
            append_str(&mut v, "Tool execution failed: ");
            append_str(&mut v, m);
            Err(string_from_chars(v.as_slice()))
        },
        None => Ok(t.deep_clone()),
    }
}

/// The text after the first `c` up to the next `c` or the end
/// (`split(c).nth(1)`).
pub open spec fn second_piece(t: Seq<char>, c: char) -> Option<Seq<char>> {
    match find_in(t, seq![c]) {
        Some(b) => {
            let rest = tail(t, b + 1);
            Some(
                match find_in(rest, seq![c]) {
                    Some(e) => rest.subrange(0, e),
                    None => rest,
                },
            )
        },
        None => None,
    }
}

/// The trimmed query text after a keyword (looked up in the lowercased
/// query), when the keyword occurs and the lowercase is width-aligned.
pub open spec fn after_keyword(q: Seq<char>, kw: Seq<char>) -> Option<Seq<char>> {
    let l = spec_to_lowercase(q);
    if !width_aligned(q, l) {
        None
    } else {
        match find_in(l, kw) {
            Some(i) => Some(spec_trim(tail(q, i + kw.len()))),
            None => None,
        }
    }
}

/// The folder to list: the first word from the first `/` after "folder",
/// quotes trimmed (`/` when nothing follows); else the root, `""`.
pub open spec fn folder_path(q: Seq<char>) -> Seq<char> {
    match after_keyword(q, "folder"@) {
        Some(af) => match find_in(af, seq!['/']) {
            Some(ps) => spec_trim_matches(
                Junk::Quote,
                match spec_first_word(tail(af, ps)) {
                    Some(w) => w,
                    None => "/"@,
                },
            ),
            None => Seq::empty(),
        },
        None => Seq::empty(),
    }
}

/// The recipient of an email: the first word after "to ", when it holds `@`.
pub open spec fn gmail_to(q: Seq<char>) -> Option<Seq<char>> {
    match after_keyword(q, "to "@) {
        Some(a) => match spec_first_word(a) {
            Some(w) => if w.contains('@') {
                Some(w)
            } else {
                None
            },
            None => None,
        },
        None => None,
    }
}

/// The subject of an email: what follows the first double (else single)
/// quote after "subject".
pub open spec fn gmail_subject(q: Seq<char>) -> Option<Seq<char>> {
    match after_keyword(q, "subject"@) {
        Some(a) => match second_piece(a, '"') {
            Some(x) => Some(x),
            None => second_piece(a, '\''),
        },
        None => None,
    }
}

/// The defaults a schema's properties declare, in order.
pub open spec fn schema_defaults(props: Seq<(Seq<char>, JsonV)>) -> Seq<(Seq<char>, JsonV)>
    decreases props.len(),
{
    if props.len() == 0 {
        Seq::empty()
    } else {
        let prev = schema_defaults(props.drop_last());
        match json_get(props.last().1, "default"@) {
            Some(d) => prev.push((props.last().0, d)),
            None => prev,
        }
    }
}

/// The defaults of a schema.
pub open spec fn defaults_of(schema: JsonV) -> Seq<(Seq<char>, JsonV)> {
    match json_get(schema, "properties"@) {
        Some(JsonV::Object(props)) => schema_defaults(props),
        _ => Seq::empty(),
    }
}

/// Arguments read from a query by simple patterns: a folder to list for a
/// Dropbox folder listing; recipient and subject for a Gmail send (when it
/// finds one); the repository for GitHub (when a word follows "repo"); else
/// the defaults the schema declares (when it declares some); else null.
pub open spec fn spec_meta_arguments(q: Seq<char>, slug: Seq<char>, schema: JsonV) -> JsonV {
    let gmail = crate::extraction::opt_field("to"@, gmail_to(q)) + crate::extraction::opt_field(
        "subject"@,
        gmail_subject(q),
    );
    let repo = match after_keyword(q, "repo"@) {
        Some(a) => spec_first_word(a),
        None => None,
    };
    if crate::text::seq_contains(slug, "LIST"@) && crate::text::seq_contains(slug, "FOLDER"@) {
        JsonV::Object(
            seq![
                ("path"@, JsonV::Str(folder_path(q))),
                ("recursive"@, JsonV::Bool(false)),
                ("limit"@, JsonV::Number(Some(2000), crate::text::spec_decimal(2000))),
            ],
        )
    } else if crate::text::seq_contains(slug, "GMAIL"@) && crate::text::seq_contains(slug, "SEND"@) && gmail.len() > 0 {
        JsonV::Object(gmail)
    } else if crate::text::seq_contains(slug, "GITHUB"@) && repo is Some {
        JsonV::Object(seq![("repo"@, JsonV::Str(repo->0))])
    } else if defaults_of(schema).len() > 0 {
        JsonV::Object(defaults_of(schema))
    } else {
        JsonV::Null
    }
}

/// The trimmed query text after a keyword.
fn after_keyword_of(query: &str, kw: &str) -> (r: Option<Vec<char>>)
    ensures
        match after_keyword(query@, kw@) {
            Some(x) => r matches Some(v) && v@ == x,
            None => r is None,
        },
{
    let q = chars_of(query);
    let l = lowercase_chars(q.as_slice());
    if !crate::text::aligned(q.as_slice(), l.as_slice()) {
        return None;
    }
    match find_text(l.as_slice(), kw) {
        Some(i) => {
            let n = chars_of(kw).len();
            assert(i + n <= q.len());
            let rest = sub_chars(q.as_slice(), i + n, q.len());
            Some(trim_chars(rest.as_slice()))
        },
        None => None,
    }
}

/// The text after the first `c` up to the next one or the end.
fn second_piece_of(t: &[char], c: char) -> (r: Option<Vec<char>>)
    ensures
        match second_piece(t@, c) {
            Some(x) => r matches Some(v) && v@ == x,
            None => r is None,
        },
{
    match find_ch(t, c) {
        Some(b) => {
            let rest = sub_chars(t, b + 1, t.len());
            match find_ch(rest.as_slice(), c) {
                Some(e) => Some(sub_chars(rest.as_slice(), 0, e)),
                None => Some(rest),
            }
        },
        None => None,
    }
}

/// The folder to list.
fn folder_path_of(query: &str) -> (r: Vec<char>)
    ensures
        r@ == folder_path(query@),
{
    match after_keyword_of(query, "folder") {
        Some(af) => match find_ch(af.as_slice(), '/') {
            Some(ps) => {
                let pp = sub_chars(af.as_slice(), ps, af.len());
                let w = match crate::text::first_word(pp.as_slice()) {
                    Some(w) => w,
                    None => chars_of("/"),
                };
                trim_matches(Junk::Quote, w.as_slice())
            },
            None => Vec::new(),
        },
        None => Vec::new(),
    }
}

/// The recipient of an email.
fn gmail_to_of(query: &str) -> (r: Option<String>)
    ensures
        crate::extraction::opt_view(r) == gmail_to(query@),
{
    match after_keyword_of(query, "to ") {
        Some(a) => match crate::text::first_word(a.as_slice()) {
            Some(w) => if crate::extraction::contains_ch(w.as_slice(), '@') {
                Some(string_from_chars(w.as_slice()))
            } else {
                None
            },
            None => None,
        },
        None => None,
    }
}

/// The subject of an email.
fn gmail_subject_of(query: &str) -> (r: Option<String>)
    ensures
        crate::extraction::opt_view(r) == gmail_subject(query@),
{
    match after_keyword_of(query, "subject") {
        Some(a) => {
            let p = match second_piece_of(a.as_slice(), '"') {
                Some(x) => Some(x),
                None => second_piece_of(a.as_slice(), '\''),
            };
            match p {
                Some(x) => Some(string_from_chars(x.as_slice())),
                None => None,
            }
        },
        None => None,
    }
}

/// The defaults a schema declares.
fn defaults_of_schema(schema: &Json) -> (r: Vec<(String, Json)>)
    ensures
        entries_view(r@) == defaults_of(schema.jv()),
{
    let mut out: Vec<(String, Json)> = Vec::new();
    assert(entries_view(out@) =~= Seq::<(Seq<char>, JsonV)>::empty());
    let props = schema.get("properties");
    match props {
        Some(Json::Object(ps)) => {
            let ghost pv = entries_view(ps@);
            proof {
                assert(Json::Object(*ps).jv()->Object_0 =~= pv);
                assert(pv.subrange(0, 0) =~= Seq::<(Seq<char>, JsonV)>::empty());
            }
            let mut i: usize = 0;
            while i < ps.len()
                invariant
                    i <= ps@.len(),
                    pv == entries_view(ps@),
                    entries_view(out@) == schema_defaults(pv.subrange(0, i as int)),
                decreases ps.len() - i,
            {
                let ghost sub = pv.subrange(0, i + 1);
                assert(sub.drop_last() =~= pv.subrange(0, i as int));
                assert(sub.last() == (ps@[i as int].0@, ps@[i as int].1.jv()));
                match ps[i].1.get("default") {
                    Some(d) => {
                        push_entry(&mut out, ps[i].0.as_str(), d.deep_clone());
                    },
                    None => {},
                }
                i = i + 1;
            }
            assert(pv.subrange(0, ps@.len() as int) =~= pv);
        },
        _ => {
            proof {
                match props {
                    Some(j) => {
                        assert(!(j.jv() is Object));
                    },
                    None => {},
                }
            }
        },
    }
    out
}

/// Reads simple arguments from a query for the dynamic tool.
pub fn meta_extract_arguments(query: &str, tool_slug: &str, schema: &Json) -> (r: Json)
    ensures
        r.jv() == spec_meta_arguments(query@, tool_slug@, schema.jv()),
{
    if crate::text::str_contains(tool_slug, "LIST") && crate::text::str_contains(tool_slug, "FOLDER") {
        let path = folder_path_of(query);
        let mut es: Vec<(String, Json)> = Vec::new();
        push_entry(&mut es, "path", Json::string(string_from_chars(path.as_slice()).as_str()));
        push_entry(&mut es, "recursive", Json::Bool(false));
        push_entry(&mut es, "limit", Json::integer(2000));
        assert(entries_view(es@) =~= spec_meta_arguments(query@, tool_slug@, schema.jv())->Object_0);
        return object_of(es);
    }
    if crate::text::str_contains(tool_slug, "GMAIL") && crate::text::str_contains(tool_slug, "SEND") {
        let mut es: Vec<(String, Json)> = Vec::new();
        assert(entries_view(es@) =~= Seq::<(Seq<char>, JsonV)>::empty());
        crate::extraction::push_opt(&mut es, "to", gmail_to_of(query));
        crate::extraction::push_opt(&mut es, "subject", gmail_subject_of(query));
        if es.len() > 0 {
            assert(entries_view(es@).len() == es@.len());
            return object_of(es);
        }
        assert(entries_view(es@).len() == es@.len());
    }
    if crate::text::str_contains(tool_slug, "GITHUB") {
        match after_keyword_of(query, "repo") {
            Some(a) => match crate::text::first_word(a.as_slice()) {
                Some(w) => {
                    let mut es: Vec<(String, Json)> = Vec::new();
                    push_entry(&mut es, "repo", Json::string(string_from_chars(w.as_slice()).as_str()));
                    assert(entries_view(es@) =~= seq![("repo"@, JsonV::Str(w@))]);
                    return object_of(es);
                },
                None => {},
            },
            None => {},
        }
    }
    let d = defaults_of_schema(schema);
    if d.len() > 0 {
        assert(entries_view(d@).len() == d@.len());
        return object_of(d);
    }
    assert(entries_view(d@).len() == d@.len());
    Json::Null
}

/// Arguments the dynamic tool cannot run with: null, not an object, or an
/// empty object.
pub open spec fn spec_arguments_missing(args: JsonV) -> bool {
    !(args matches JsonV::Object(es) && es.len() > 0)
}

/// Whether the extracted arguments are missing.
pub fn arguments_missing(args: &Json) -> (r: bool)
    ensures
        r == spec_arguments_missing(args.jv()),
{
    match args {
        Json::Object(es) => {
            assert(args.jv()->Object_0.len() == es@.len());
            es.len() == 0
        },
        _ => true,
    }
}

/// The answer when a tool was found but its arguments could not be read: the
/// tool, its description and schema (pretty JSON) with a tip, and the error.
pub fn missing_arguments_result(tool_slug: &str, description: &str, schema: &Json) -> (r: crate::tool_result::ToolResult)
    ensures
        !r.success,
        r.output@ == "Tool found: "@ + tool_slug@ + "\nDescription: "@ + description@ + "\n\nRequired parameters:\n"@
            + crate::json::spec_json_pretty(schema.jv())
            + "\n\nTip: You can call this tool again with the 'arguments' parameter, or I can help you construct the arguments."@,
        (r.error matches Some(e) && e@ == "Missing required arguments for "@ + tool_slug@
            + ". Please provide the 'arguments' parameter with the required fields."@),
{
    let pretty = crate::json::json_pretty(schema);
    let mut o: Vec<char> = Vec::new();
    append_str(&mut o, "Tool found: ");
    append_str(&mut o, tool_slug);
    append_str(&mut o, "\nDescription: ");
    append_str(&mut o, description);
    append_str(&mut o, "\n\nRequired parameters:\n");
    append_str(&mut o, pretty.as_str());
    append_str(&mut o, "\n\nTip: You can call this tool again with the 'arguments' parameter, or I can help you construct the arguments.");
    let mut e: Vec<char> = Vec::new();
    append_str(&mut e, "Missing required arguments for ");
    append_str(&mut e, tool_slug);
    append_str(&mut e, ". Please provide the 'arguments' parameter with the required fields.");
    crate::tool_result::ToolResult {
        success: false,
        output: string_from_chars(o.as_slice()),
        error: Some(string_from_chars(e.as_slice())),
    }
}

/// The dynamic tool's name.
pub fn meta_tool_name() -> (r: &'static str)
    ensures
        r@ == "composio_dynamic"@,
{
    "composio_dynamic"
}


/// What the dynamic tool tells the agent it does.
pub const META_DESCRIPTION: &'static str = "Access 1000+ apps (Dropbox, Gmail, GitHub, Slack, etc.) through Composio. Simply describe what you want to do in natural language. Examples: 'list my Dropbox folder /Documents', 'send email via Gmail to john@example.com', 'create GitHub issue in my-repo'. The tool will automatically discover the right action and execute it. You can optionally provide specific arguments if you know the exact parameters needed.";

/// The documentation of the `query` parameter.
pub const META_QUERY_DOC: &'static str = "Natural language description of what you want to do. Examples: 'list my Dropbox folder /Documents', 'send email to john@example.com', 'create GitHub issue in my-repo'";

/// The documentation of the `arguments` parameter.
pub const META_ARGUMENTS_DOC: &'static str = "Optional: Specific arguments for the tool if you know them. If not provided, the tool will be discovered and you'll be prompted for required parameters.";

/// The parameters of the dynamic tool: a required `query` and an optional
/// `arguments` object.
pub open spec fn spec_meta_parameters_schema() -> JsonV {
    JsonV::Object(
        seq![
            ("type"@, JsonV::Str("object"@)),
            ("properties"@, JsonV::Object(seq![
                ("query"@, crate::json::spec_property("string"@, META_QUERY_DOC@)),
                ("arguments"@, JsonV::Object(crate::json::spec_property("object"@, META_ARGUMENTS_DOC@)->Object_0.push(("additionalProperties"@, JsonV::Bool(true))))),
            ])),
            ("required"@, JsonV::Array(seq![JsonV::Str("query"@)])),
        ],
    )
}

/// The parameters schema of the dynamic tool.
pub fn meta_parameters_schema() -> (r: Json)
    ensures
        r.jv() == spec_meta_parameters_schema(),
{
    let mut props: Vec<(String, Json)> = Vec::new();
    push_entry(&mut props, "query", crate::json::property("string", META_QUERY_DOC));
    push_entry(
        &mut props,
        "arguments",
        crate::json::with_entry(crate::json::property("object", META_ARGUMENTS_DOC), "additionalProperties", Json::Bool(true)),
    );
    let ghost pv = spec_meta_parameters_schema()->Object_0[1].1;
    assert(entries_view(props@) =~= pv->Object_0);
    let mut es: Vec<(String, Json)> = Vec::new();
    push_entry(&mut es, "type", Json::string("object"));
    push_entry(&mut es, "properties", object_of(props));
    push_entry(&mut es, "required", crate::json::one_string("query"));
    assert(entries_view(es@) =~= spec_meta_parameters_schema()->Object_0);
    object_of(es)
}


/// The dynamic tool's answer to an execution: the pretty JSON of the result,
/// or the error as it is.
pub fn meta_execution_result(outcome: &Result<Json, String>) -> (r: crate::tool_result::ToolResult)
    ensures
        match outcome {
            Ok(j) => r.success && r.output@ == crate::json::spec_json_pretty(j.jv()) && r.error is None,
            Err(e) => !r.success && r.output@ == Seq::<char>::empty() && r.error == Some(*e),
        },
{
    match outcome {
        Ok(j) => crate::tool_result::ToolResult { success: true, output: crate::json::json_pretty(j), error: None },
        Err(e) => crate::tool_result::ToolResult { success: false, output: String::new(), error: Some(e.clone()) },
    }
}

} // verus!
