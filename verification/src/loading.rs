//! How the tool registry is assembled: which Composio pattern the
//! configuration selects, which MCP server and credentials the Composio tools
//! use, which onboarding flow serves them, and which tools the full registry
//! holds.

use vstd::prelude::*;
use crate::text::{append_str, chars_of, seq_starts_with, spec_trim, string_from_chars};

verus! {

/// What loading the Composio tools does with a configuration.
#[derive(Debug, Clone, PartialEq, Eq)]
pub enum ComposioLoad {
    /// Composio is disabled: no tools.
    Disabled,
    /// Load the MCP tools (pattern 2) with this API key.
    Mcp(String),
    /// MCP is enabled but no API key is configured: no tools.
    McpWithoutKey,
    /// Load the REST tool (pattern 1, deprecated) with this API key.
    Rest(String),
    /// The API key is empty: no tools.
    EmptyKey,
    /// Enabled, but neither an API key nor MCP is configured: no tools.
    Unconfigured,
}

/// The pattern selection of a configuration: MCP first, then REST.
pub open spec fn spec_select_pattern(enabled: bool, mcp_enabled: bool, api_key: Option<Seq<char>>) -> ComposioLoadView {
    if !enabled {
        ComposioLoadView::Disabled
    } else if mcp_enabled {
        match api_key {
            Some(k) => ComposioLoadView::Mcp(k),
            None => ComposioLoadView::McpWithoutKey,
        }
    } else {
        match api_key {
            Some(k) => if k.len() > 0 {
                ComposioLoadView::Rest(k)
            } else {
                ComposioLoadView::EmptyKey
            },
            None => ComposioLoadView::Unconfigured,
        }
    }
}

/// The value of a load decision.
pub enum ComposioLoadView {
    Disabled,
    Mcp(Seq<char>),
    McpWithoutKey,
    Rest(Seq<char>),
    EmptyKey,
    Unconfigured,
}

impl View for ComposioLoad {
    type V = ComposioLoadView;

    open spec fn view(&self) -> ComposioLoadView {
        match self {
            ComposioLoad::Disabled => ComposioLoadView::Disabled,
            ComposioLoad::Mcp(k) => ComposioLoadView::Mcp(k@),
            ComposioLoad::McpWithoutKey => ComposioLoadView::McpWithoutKey,
            ComposioLoad::Rest(k) => ComposioLoadView::Rest(k@),
            ComposioLoad::EmptyKey => ComposioLoadView::EmptyKey,
            ComposioLoad::Unconfigured => ComposioLoadView::Unconfigured,
        }
    }
}

/// Selects the Composio pattern for loading: none when disabled; MCP when
/// enabled (which needs an API key); else REST with a non-empty API key.
pub fn select_pattern(enabled: bool, mcp_enabled: bool, api_key: Option<&str>) -> (r: ComposioLoad)
    ensures
        r@ == spec_select_pattern(
            enabled,
            mcp_enabled,
            match api_key {
                Some(k) => Some(k@),
                None => None,
            },
        ),
{
    if !enabled {
        ComposioLoad::Disabled
    } else if mcp_enabled {
        match api_key {
            Some(k) => ComposioLoad::Mcp(k.to_owned()),
            None => ComposioLoad::McpWithoutKey,
        }
    } else {
        match api_key {
            Some(k) => if chars_of(k).len() > 0 {
                ComposioLoad::Rest(k.to_owned())
            } else {
                ComposioLoad::EmptyKey
            },
            None => ComposioLoad::Unconfigured,
        }
    }
}

/// Selects the Composio pattern for a refresh: the same selection as a load
/// (none when disabled), where a configuration without key or MCP loads none.
pub fn select_refresh_pattern(enabled: bool, mcp_enabled: bool, api_key: Option<&str>) -> (r: ComposioLoad)
    ensures
        r@ == match spec_select_pattern(
            enabled,
            mcp_enabled,
            match api_key {
                Some(k) => Some(k@),
                None => None,
            },
        ) {
            ComposioLoadView::Unconfigured => ComposioLoadView::Disabled,
            other => other,
        },
{
    match select_pattern(enabled, mcp_enabled, api_key) {
        ComposioLoad::Unconfigured => ComposioLoad::Disabled,
        other => other,
    }
}

/// The API key for MCP: the MCP one when set, else the main one.
pub fn mcp_api_key<'a>(mcp_key: Option<&'a str>, api_key: &'a str) -> (r: &'a str)
    ensures
        r@ == match mcp_key {
            Some(k) => k@,
            None => api_key@,
        },
{
    match mcp_key {
        Some(k) => k,
        None => api_key,
    }
}

/// The user id for MCP: the MCP one when set, else the fallback entity id.
pub fn mcp_user_id<'a>(user_id: Option<&'a str>, fallback: &'a str) -> (r: &'a str)
    ensures
        r@ == match user_id {
            Some(u) => u@,
            None => fallback@,
        },
{
    match user_id {
        Some(u) => u,
        None => fallback,
    }
}

/// The MCP server a client talks to.
#[derive(Debug, Clone, PartialEq, Eq)]
pub enum McpTarget {
    /// A generated MCP URL (recommended).
    Url(String),
    /// A server id (legacy).
    ServerId(String),
}

/// The MCP server to use: the URL when configured, else the server id;
/// neither is an error.
pub fn mcp_target(mcp_url: Option<&str>, server_id: Option<&str>) -> (r: Result<McpTarget, String>)
    ensures
        match mcp_url {
            Some(u) => r matches Ok(McpTarget::Url(x)) && x@ == u@,
            None => match server_id {
                Some(s) => r matches Ok(McpTarget::ServerId(x)) && x@ == s@,
                None => r matches Err(e) && e@ == "MCP configuration requires either mcp_url or server_id"@,
            },
        },
{
    match mcp_url {
        Some(u) => Ok(McpTarget::Url(u.to_owned())),
        None => match server_id {
            Some(s) => Ok(McpTarget::ServerId(s.to_owned())),
            None => Err("MCP configuration requires either mcp_url or server_id".to_owned()),
        },
    }
}

/// Whether a server offers the meta-tools (pattern 2): both
/// COMPOSIO_SEARCH_TOOLS and COMPOSIO_MULTI_EXECUTE_TOOL.
pub open spec fn spec_is_pattern_2(names: Seq<Seq<char>>) -> bool {
    names.contains("COMPOSIO_SEARCH_TOOLS"@) && names.contains("COMPOSIO_MULTI_EXECUTE_TOOL"@)
}

/// Whether a name occurs in a list.
fn has_name(names: &Vec<String>, name: &str) -> (r: bool)
    ensures
        r == names@.map_values(|n: String| n@).contains(name@),
{
    let ghost nv = names@.map_values(|n: String| n@);
    let mut i: usize = 0;
    while i < names.len()
        invariant
            i <= names@.len(),
            nv == names@.map_values(|n: String| n@),
            forall|k: int| 0 <= k < i ==> nv[k] != name@,
        decreases names.len() - i,
    {
        if crate::text::str_eq(names[i].as_str(), name) {
            assert(nv[i as int] == name@);
            return true;
        }
        i = i + 1;
    }
    false
}

/// Whether the tools a server lists are the meta-tools (pattern 2).
pub fn is_pattern_2(names: &Vec<String>) -> (r: bool)
    ensures
        r == spec_is_pattern_2(names@.map_values(|n: String| n@)),
{
    has_name(names, "COMPOSIO_SEARCH_TOOLS") && has_name(names, "COMPOSIO_MULTI_EXECUTE_TOOL")
}

/// What loading the MCP tools yields, once the server has answered the
/// tool listing.
#[derive(Debug, Clone, PartialEq, Eq)]
pub enum McpToolsPlan {
    /// No tools: MCP is disabled, the server could not be reached, or it
    /// listed no tools.
    NoTools,
    /// The server offers the meta-tools (pattern 2): one natural-language tool.
    NaturalLanguage,
    /// Direct app tools (pattern 1): one tool per listed name, in order.
    Direct(Vec<String>),
}

/// The value of an MCP tools plan.
pub enum McpToolsPlanView {
    NoTools,
    NaturalLanguage,
    Direct(Seq<Seq<char>>),
}

impl View for McpToolsPlan {
    type V = McpToolsPlanView;

    open spec fn view(&self) -> McpToolsPlanView {
        match self {
            McpToolsPlan::NoTools => McpToolsPlanView::NoTools,
            McpToolsPlan::NaturalLanguage => McpToolsPlanView::NaturalLanguage,
            McpToolsPlan::Direct(names) => McpToolsPlanView::Direct(names@.map_values(|n: String| n@)),
        }
    }
}

/// The MCP tools plan: none when MCP is disabled, when the listing failed
/// (`None`) or when it is empty; the natural-language tool for the
/// meta-tools; else the listed tools themselves.
pub open spec fn spec_plan_mcp_tools(mcp_enabled: bool, listed: Option<Seq<Seq<char>>>) -> McpToolsPlanView {
    if !mcp_enabled {
        McpToolsPlanView::NoTools
    } else {
        match listed {
            None => McpToolsPlanView::NoTools,
            Some(names) => if names.len() == 0 {
                McpToolsPlanView::NoTools
            } else if spec_is_pattern_2(names) {
                McpToolsPlanView::NaturalLanguage
            } else {
                McpToolsPlanView::Direct(names)
            },
        }
    }
}

/// Plans the MCP tools from the server's tool listing (the names it lists,
/// or the error of the listing), degrading to no tools on failure.
pub fn plan_mcp_tools(mcp_enabled: bool, listed: Result<Vec<String>, String>) -> (r: McpToolsPlan)
    ensures
        r@ == spec_plan_mcp_tools(
            mcp_enabled,
            match listed {
                Ok(names) => Some(names@.map_values(|n: String| n@)),
                Err(_) => None,
            },
        ),
{
    if !mcp_enabled {
        return McpToolsPlan::NoTools;
    }
    match listed {
        Err(_) => McpToolsPlan::NoTools,
        Ok(names) => {
            if names.len() == 0 {
                McpToolsPlan::NoTools
            } else if is_pattern_2(&names) {
                McpToolsPlan::NaturalLanguage
            } else {
                McpToolsPlan::Direct(names)
            }
        },
    }
}

/// The tool router URL of a server id for a user.
pub open spec fn spec_tool_router_url(server_id: Seq<char>, user_id: Seq<char>) -> Seq<char> {
    "https://backend.composio.dev/tool_router/"@ + server_id + "/mcp?include_composio_helper_actions=true&user_id="@
        + user_id
}

/// The URL of the meta-tools: the configured MCP URL, else the tool router
/// URL of the server id; neither is an error.
pub fn meta_tools_url(mcp_url: Option<&str>, server_id: Option<&str>, user_id: &str) -> (r: Result<String, String>)
    ensures
        match mcp_url {
            Some(u) => r matches Ok(x) && x@ == u@,
            None => match server_id {
                Some(s) => r matches Ok(x) && x@ == spec_tool_router_url(s@, user_id@),
                None => r matches Err(e) && e@ == "MCP configuration requires either mcp_url or server_id"@,
            },
        },
{
    match mcp_url {
        Some(u) => Ok(u.to_owned()),
        None => match server_id {
            Some(s) => {
                let mut v: Vec<char> = Vec::new();
                append_str(&mut v, "https://backend.composio.dev/tool_router/");
                append_str(&mut v, s);
                append_str(&mut v, "/mcp?include_composio_helper_actions=true&user_id=");
                append_str(&mut v, user_id);
                Ok(string_from_chars(v.as_slice()))
            },
            None => Err("MCP configuration requires either mcp_url or server_id".to_owned()),
        },
    }
}

/// The onboarding flow for direct app tools.
#[derive(Debug, Clone, Copy, PartialEq, Eq, Structural)]
pub enum OnboardingChoice {
    /// Server mode: links are handed to the client.
    Server,
    /// Command line, opening the browser.
    CliAutoOpen,
    /// Command line, printing the link only.
    CliPrintOnly,
    /// No onboarding.
    Unavailable,
}

/// The code of a character's ASCII lowercase.
pub open spec fn ascii_lower(c: char) -> u32 {
    if 'A' <= c <= 'Z' {
        ((c as u32) + 32) as u32
    } else {
        c as u32
    }
}

/// `str::eq_ignore_ascii_case`.
pub open spec fn eq_ignore_ascii_case(a: Seq<char>, b: Seq<char>) -> bool {
    a.len() == b.len() && forall|i: int| 0 <= i < a.len() ==> ascii_lower(#[trigger] a[i]) == ascii_lower(b[i])
}

/// The code of a character's ASCII lowercase.
fn ascii_lower_of(c: char) -> (r: u32)
    ensures
        r == ascii_lower(c),
{
    if 'A' <= c && c <= 'Z' {
        (c as u32) + 32
    } else {
        c as u32
    }
}

/// Compares two texts ignoring ASCII case.
pub fn eq_ignoring_ascii_case(a: &str, b: &str) -> (r: bool)
    ensures
        r == eq_ignore_ascii_case(a@, b@),
{
    let x = chars_of(a);
    let y = chars_of(b);
    if x.len() != y.len() {
        return false;
    }
    let mut i: usize = 0;
    while i < x.len()
        invariant
            x@ == a@,
            y@ == b@,
            x@.len() == y@.len(),
            i <= x@.len(),
            forall|k: int| 0 <= k < i ==> ascii_lower(#[trigger] x@[k]) == ascii_lower(y@[k]),
        decreases x.len() - i,
    {
        if ascii_lower_of(x[i]) != ascii_lower_of(y[i]) {
            return false;
        }
        i = i + 1;
    }
    true
}

/// Whether the no-browser setting asks not to open a browser: `1` or `true`
/// in any ASCII case.
pub open spec fn spec_no_browser(v: Option<Seq<char>>) -> bool {
    match v {
        Some(s) => s == "1"@ || eq_ignore_ascii_case(s, "true"@),
        None => false,
    }
}

/// The onboarding flow the UI mode selects (`cli` when unset).
pub open spec fn spec_onboarding_choice(ui_mode: Option<Seq<char>>, no_browser: Option<Seq<char>>) -> OnboardingChoice {
    let mode = match ui_mode {
        Some(m) => m,
        None => "cli"@,
    };
    if mode == "server"@ {
        OnboardingChoice::Server
    } else if mode == "cli"@ {
        if spec_no_browser(no_browser) {
            OnboardingChoice::CliPrintOnly
        } else {
            OnboardingChoice::CliAutoOpen
        }
    } else {
        OnboardingChoice::Unavailable
    }
}

/// Selects the onboarding flow from the UI mode and no-browser settings.
pub fn onboarding_choice(ui_mode: Option<&str>, no_browser: Option<&str>) -> (r: OnboardingChoice)
    ensures
        r == spec_onboarding_choice(
            match ui_mode {
                Some(m) => Some(m@),
                None => None,
            },
            match no_browser {
                Some(v) => Some(v@),
                None => None,
            },
        ),
{
    let mode: &str = match ui_mode {
        Some(m) => m,
        None => "cli",
    };
    if crate::text::str_eq(mode, "server") {
        OnboardingChoice::Server
    } else if crate::text::str_eq(mode, "cli") {
        let nb = match no_browser {
            Some(v) => crate::text::str_eq(v, "1") || eq_ignoring_ascii_case(v, "true"),
            None => false,
        };
        if nb {
            OnboardingChoice::CliPrintOnly
        } else {
            OnboardingChoice::CliAutoOpen
        }
    } else {
        OnboardingChoice::Unavailable
    }
}

/// The tools of the full registry.
#[derive(Debug, Clone, Copy, PartialEq, Eq, Structural)]
pub enum ToolKind {
    Shell,
    FileRead,
    FileWrite,
    FileEdit,
    GlobSearch,
    ContentSearch,
    CronAdd,
    CronList,
    CronRemove,
    CronUpdate,
    CronRun,
    CronRuns,
    MemoryStore,
    MemoryRecall,
    MemoryForget,
    Schedule,
    ModelRoutingConfig,
    ProxyConfig,
    GitOperations,
    Pushover,
    BrowserOpen,
    Browser,
    HttpRequest,
    WebSearch,
    PdfRead,
    Screenshot,
    ImageInfo,
    Delegate,
}

/// The tools every registry starts with.
pub open spec fn base_tools() -> Seq<ToolKind> {
    seq![
        ToolKind::Shell,
        ToolKind::FileRead,
        ToolKind::FileWrite,
        ToolKind::FileEdit,
        ToolKind::GlobSearch,
        ToolKind::ContentSearch,
        ToolKind::CronAdd,
        ToolKind::CronList,
        ToolKind::CronRemove,
        ToolKind::CronUpdate,
        ToolKind::CronRun,
        ToolKind::CronRuns,
        ToolKind::MemoryStore,
        ToolKind::MemoryRecall,
        ToolKind::MemoryForget,
        ToolKind::Schedule,
        ToolKind::ModelRoutingConfig,
        ToolKind::ProxyConfig,
        ToolKind::GitOperations,
        ToolKind::Pushover,
    ]
}

/// The tools of the full registry, in order: the base tools; the two
/// browser tools when the browser is enabled; the HTTP tool and the web
/// search when enabled; PDF reading, screenshots and image info; delegation
/// when agents are configured. (Composio tools follow, when loaded.)
pub open spec fn spec_registry_plan(browser: bool, http: bool, web_search: bool, has_agents: bool) -> Seq<ToolKind> {
    base_tools() + (if browser {
        seq![ToolKind::BrowserOpen, ToolKind::Browser]
    } else {
        Seq::empty()
    }) + (if http {
        seq![ToolKind::HttpRequest]
    } else {
        Seq::empty()
    }) + (if web_search {
        seq![ToolKind::WebSearch]
    } else {
        Seq::empty()
    }) + seq![ToolKind::PdfRead, ToolKind::Screenshot, ToolKind::ImageInfo] + (if has_agents {
        seq![ToolKind::Delegate]
    } else {
        Seq::empty()
    })
}

/// The tools the full registry holds, in order.
pub fn registry_plan(browser: bool, http: bool, web_search: bool, has_agents: bool) -> (r: Vec<ToolKind>)
    ensures
        r@ == spec_registry_plan(browser, http, web_search, has_agents),
{
    let mut v: Vec<ToolKind> = vec![
        ToolKind::Shell,
        ToolKind::FileRead,
        ToolKind::FileWrite,
        ToolKind::FileEdit,
        ToolKind::GlobSearch,
        ToolKind::ContentSearch,
        ToolKind::CronAdd,
        ToolKind::CronList,
        ToolKind::CronRemove,
        ToolKind::CronUpdate,
        ToolKind::CronRun,
        ToolKind::CronRuns,
        ToolKind::MemoryStore,
        ToolKind::MemoryRecall,
        ToolKind::MemoryForget,
        ToolKind::Schedule,
        ToolKind::ModelRoutingConfig,
        ToolKind::ProxyConfig,
        ToolKind::GitOperations,
        ToolKind::Pushover,
    ];
    assert(v@ =~= base_tools());
    let ghost a = v@;
    if browser {
        v.push(ToolKind::BrowserOpen);
        v.push(ToolKind::Browser);
    }
    let ghost b = v@;
    assert(b =~= a + (if browser {
        seq![ToolKind::BrowserOpen, ToolKind::Browser]
    } else {
        Seq::empty()
    }));
    if http {
        v.push(ToolKind::HttpRequest);
    }
    let ghost c = v@;
    assert(c =~= b + (if http {
        seq![ToolKind::HttpRequest]
    } else {
        Seq::empty()
    }));
    if web_search {
        v.push(ToolKind::WebSearch);
    }
    let ghost d = v@;
    assert(d =~= c + (if web_search {
        seq![ToolKind::WebSearch]
    } else {
        Seq::empty()
    }));
    v.push(ToolKind::PdfRead);
    v.push(ToolKind::Screenshot);
    v.push(ToolKind::ImageInfo);
    let ghost e = v@;
    assert(e =~= d + seq![ToolKind::PdfRead, ToolKind::Screenshot, ToolKind::ImageInfo]);
    if has_agents {
        v.push(ToolKind::Delegate);
    }
    assert(v@ =~= e + (if has_agents {
        seq![ToolKind::Delegate]
    } else {
        Seq::empty()
    }));
    v
}

/// Whether the full registry loads Composio tools: a non-empty Composio key
/// and Composio enabled.
pub fn wants_composio(key: Option<&str>, enabled: bool) -> (r: bool)
    ensures
        r == match key {
            Some(k) => k@.len() > 0 && enabled,
            None => false,
        },
{
    match key {
        Some(k) => chars_of(k).len() > 0 && enabled,
        None => false,
    }
}

/// The credential a delegated agent falls back to: the trimmed key, when not
/// empty.
pub fn delegate_fallback_credential(value: Option<&str>) -> (r: Option<String>)
    ensures
        match value {
            Some(v) => if spec_trim(v@).len() > 0 {
                r matches Some(x) && x@ == spec_trim(v@)
            } else {
                r is None
            },
            None => r is None,
        },
{
    match value {
        Some(v) => {
            let t = crate::text::trim_str(v);
            if chars_of(t.as_str()).len() > 0 {
                Some(t)
            } else {
                None
            }
        },
        None => None,
    }
}

/// The tools of the default registry: shell, file read, write and edit,
/// glob search and content search.
pub open spec fn spec_default_tools() -> Seq<ToolKind> {
    base_tools().subrange(0, 6)
}

/// Create the default tool registry: the tools every security policy gets.
pub fn default_tools(security: &crate::office_edit::SecurityPolicy) -> (r: Vec<ToolKind>)
    ensures
        r@ == spec_default_tools(),
        r@.len() == 6,
{
    let v = vec![
        ToolKind::Shell,
        ToolKind::FileRead,
        ToolKind::FileWrite,
        ToolKind::FileEdit,
        ToolKind::GlobSearch,
        ToolKind::ContentSearch,
    ];
    assert(v@ =~= spec_default_tools());
    v
}


/// A registry entry that runs a tool shared with other registries.
pub struct ArcDelegatingTool<T: ?Sized> {
    pub inner: std::sync::Arc<T>,
}

/// Boxes shared tools for a registry, one entry per tool, in order.
pub fn boxed_registry_from_arcs<T: ?Sized>(tools: Vec<std::sync::Arc<T>>) -> (r: Vec<Box<ArcDelegatingTool<T>>>)
    ensures
        r@.len() == tools@.len(),
        forall|i: int| 0 <= i < r@.len() ==> (#[trigger] r@[i]).inner == tools@[i],
{
    let ghost all = tools@;
    let mut rest = tools;
    let mut out: Vec<Box<ArcDelegatingTool<T>>> = Vec::new();
    while rest.len() > 0
        invariant
            out@.len() + rest@.len() == all.len(),
            rest@ == all.subrange(out@.len() as int, all.len() as int),
            forall|i: int| 0 <= i < out@.len() ==> (#[trigger] out@[i]).inner == all[i],
        decreases rest@.len(),
    {
        let t = rest.remove(0);
        out.push(Box::new(ArcDelegatingTool { inner: t }));
    }
    out
}

} // verus!
