//! Decisions of a Composio MCP tool run: whether a failure asks for OAuth,
//! which toolkit a tool belongs to, and what the first attempt, the
//! onboarding and the single retry hand back. The calls are the caller's part.

use vstd::prelude::*;
use crate::text::{spec_is_uppercase, append_str, chars_of, seq_contains, spec_to_lowercase, str_contains, string_from_chars, to_lowercase};
use crate::tool_result::{ToolResult, ToolResultView};
use crate::json::{Json, JsonV};

verus! {

/// Fragments that mark an error message as asking for an OAuth connection
/// ("authentication" among them: an "Authentication required" error asks for
/// one too).
pub open spec fn oauth_markers() -> Seq<Seq<char>> {
    seq![
        "disconnected"@,
        "not connected"@,
        "authorization"@,
        "oauth"@,
        "connected account"@,
        "connect"@,
        "authenticate"@,
        "authentication"@,
        "permission"@,
        "unauthorized"@,
    ]
}

/// A lowercase text names one of the OAuth markers.
pub open spec fn names_oauth_marker(lower: Seq<char>) -> bool {
    exists|i: int| 0 <= i < oauth_markers().len() && seq_contains(lower, #[trigger] oauth_markers()[i])
}

/// An error message asks for OAuth when its lowercase form contains one of
/// the markers.
pub open spec fn spec_oauth_needed(msg: Seq<char>) -> bool {
    names_oauth_marker(spec_to_lowercase(msg))
}

/// Whether a lowercase text names one of the OAuth markers.
pub fn oauth_marker_in(lower: &str) -> (r: bool)
    ensures
        r == names_oauth_marker(lower@),
{
    let chars = chars_of(lower);
    let pats: [&str; 10] = [
        "disconnected",
        "not connected",
        "authorization",
        "oauth",
        "connected account",
        "connect",
        "authenticate",
        "authentication",
        "permission",
        "unauthorized",
    ];
    proof {
        reveal_strlit("disconnected");
        reveal_strlit("not connected");
        reveal_strlit("authorization");
        reveal_strlit("oauth");
        reveal_strlit("connected account");
        reveal_strlit("connect");
        reveal_strlit("authenticate");
        reveal_strlit("authentication");
        reveal_strlit("permission");
        reveal_strlit("unauthorized");
        assert forall|k: int| 0 <= k < 10 implies #[trigger] pats@[k]@ == oauth_markers()[k] by {}
    }
    let r = crate::text::contains_any(chars.as_slice(), pats.as_slice());
    proof {
        if r {
            let k = choose|k: int| 0 <= k < pats@.len() && seq_contains(chars@, pats@[k]@);
            assert(seq_contains(lower@, oauth_markers()[k]));
        }
        if names_oauth_marker(lower@) {
            let i = choose|i: int| 0 <= i < oauth_markers().len() && seq_contains(lower@, #[trigger] oauth_markers()[i]);
            assert(seq_contains(chars@, pats@[i]@));
        }
    }
    r
}

/// Check if an error message indicates OAuth is needed
pub fn is_oauth_needed_message(msg: &str) -> (r: bool)
    ensures
        r == spec_oauth_needed(msg@),
{
    let lower = to_lowercase(msg);
    oauth_marker_in(lower.as_str())
}


/// The text before the first `sep`, or all of it.
pub open spec fn before_sep(s: Seq<char>, sep: char) -> Seq<char> {
    if exists|i: int| 0 <= i < s.len() && s[i] == sep {
        s.subrange(0, choose|i: int| 0 <= i < s.len() && s[i] == sep && forall|j: int| 0 <= j < i ==> s[j] != sep)
    } else {
        s
    }
}

/// The text before the first uppercase letter, when it has one.
pub open spec fn before_upper(s: Seq<char>) -> Option<Seq<char>> {
    if exists|i: int| 0 <= i < s.len() && spec_is_uppercase(s[i]) {
        Some(s.subrange(0, choose|i: int| 0 <= i < s.len() && spec_is_uppercase(s[i]) && forall|j: int| 0 <= j < i ==> !spec_is_uppercase(s[j])))
    } else {
        None
    }
}

/// The toolkit prefixes a tool name offers, in the order they are tried:
/// the part before the first `_`, the part before the first `-`, and, in a
/// camel-case name, the part before the first capital; empty ones left out.
pub open spec fn spec_slug_candidates(name: Seq<char>) -> Seq<Seq<char>> {
    let a = before_sep(name, '_');
    let b = before_sep(name, '-');
    let c = before_upper(name);
    let s1 = if a.len() > 0 { seq![a] } else { Seq::empty() };
    let s2 = if b.len() > 0 { s1.push(b) } else { s1 };
    match c {
        Some(x) => if x.len() > 0 { s2.push(x) } else { s2 },
        None => s2,
    }
}

fn prefix_before_char(s: &[char], sep: char) -> (r: Vec<char>)
    ensures
        r@ == before_sep(s@, sep),
{
    let mut i: usize = 0;
    while i < s.len()
        invariant
            i <= s@.len(),
            forall|j: int| 0 <= j < i ==> #[trigger] s@[j] != sep,
        decreases s.len() - i,
    {
        if s[i] == sep {
            proof {
                let w = choose|k: int| 0 <= k < s@.len() && s@[k] == sep && forall|j: int| 0 <= j < k ==> s@[j] != sep;
                if w < i {
                    assert(s@[w] != sep);
                }
                if w > i {
                    assert(s@[i as int] != sep);
                }
                assert(w == i);
            }
            return crate::text::sub_chars(s, 0, i);
        }
        i = i + 1;
    }
    crate::text::sub_chars(s, 0, s.len())
}

fn prefix_before_upper(s: &[char]) -> (r: Option<Vec<char>>)
    ensures
        match before_upper(s@) {
            Some(x) => r matches Some(v) && v@ == x,
            None => r is None,
        },
{
    let mut i: usize = 0;
    while i < s.len()
        invariant
            i <= s@.len(),
            forall|j: int| 0 <= j < i ==> !spec_is_uppercase(#[trigger] s@[j]),
        decreases s.len() - i,
    {
        if crate::text::is_uppercase(s[i]) {
            proof {
                let w = choose|k: int| 0 <= k < s@.len() && spec_is_uppercase(s@[k]) && forall|j: int| 0 <= j < k ==> !spec_is_uppercase(s@[j]);
                if w < i {
                    assert(!spec_is_uppercase(s@[w]));
                }
                if w > i {
                    assert(!spec_is_uppercase(s@[i as int]));
                }
                assert(w == i);
            }
            return Some(crate::text::sub_chars(s, 0, i));
        }
        i = i + 1;
    }
    None
}

/// The toolkit prefixes of a tool name, in the order they are tried; the
/// first that normalizes to a known toolkit slug names the toolkit.
pub fn toolkit_slug_candidates(name: &str) -> (r: Vec<String>)
    ensures
        r@.len() == spec_slug_candidates(name@).len(),
        forall|i: int| 0 <= i < r@.len() ==> #[trigger] r@[i]@ == spec_slug_candidates(name@)[i],
{
    let s = chars_of(name);
    let a = prefix_before_char(s.as_slice(), '_');
    let b = prefix_before_char(s.as_slice(), '-');
    let c = prefix_before_upper(s.as_slice());
    let ghost s1: Seq<Seq<char>> = if a@.len() > 0 { seq![a@] } else { Seq::empty() };
    let ghost s2: Seq<Seq<char>> = if b@.len() > 0 { s1.push(b@) } else { s1 };
    let mut out: Vec<String> = Vec::new();
    if a.len() > 0 {
        out.push(string_from_chars(a.as_slice()));
    }
    assert(out@.map_values(|x: String| x@) =~= s1);
    if b.len() > 0 {
        out.push(string_from_chars(b.as_slice()));
    }
    assert(out@.map_values(|x: String| x@) =~= s2);
    match c {
        Some(cv) => {
            if cv.len() > 0 {
                out.push(string_from_chars(cv.as_slice()));
            }
        },
        None => {},
    }
    proof {
        let spec = spec_slug_candidates(name@);
        assert(out@.map_values(|x: String| x@) =~= spec);
        assert forall|i: int| 0 <= i < out@.len() implies #[trigger] out@[i]@ == spec[i] by {
            assert(out@.map_values(|x: String| x@)[i] == out@[i]@);
        }
    }
    out
}

/// The description of a tool without one of its own.
pub open spec fn spec_default_description(tool_name: Seq<char>) -> Seq<char> {
    "Composio MCP tool: "@ + tool_name + " (via MCP server)"@
}

/// The description of a tool without one of its own.
pub fn default_description(tool_name: &str) -> (r: String)
    ensures
        r@ == spec_default_description(tool_name@),
{
    let mut v: Vec<char> = Vec::new();
    append_str(&mut v, "Composio MCP tool: ");
    append_str(&mut v, tool_name);
    append_str(&mut v, " (via MCP server)");
    string_from_chars(v.as_slice())
}

/// What an MCP tool call returned: whether the server flagged it as an
/// error, and its text.
#[derive(Debug)]
pub struct McpToolOutput {
    pub is_error: bool,
    pub text: String,
}

/// What the first attempt leads to.
#[derive(Debug)]
pub enum FirstAttempt {
    /// The run is over, with this result.
    Finished(ToolResult),
    /// Connect this toolkit, then retry once.
    Onboard(String),
}

/// A failed tool result carrying only an error.
pub open spec fn failure(e: Seq<char>) -> ToolResultView {
    ToolResultView { success: false, output: ""@, error: Some(e) }
}

/// The result of a run refused by the security policy.
pub fn security_blocked(error: String) -> (r: ToolResult)
    ensures
        r@ == failure(error@),
{
    proof {
        reveal_strlit("");
    }
    ToolResult { success: false, output: "".to_owned(), error: Some(error) }
}

/// Decides after the first attempt: success ends the run; a server error
/// that asks for OAuth, when onboarding is available and the toolkit is
/// known, leads to onboarding; any other server error is returned as it is;
/// a failed call is reported.
pub fn decide_after_first_attempt(
    attempt: Result<McpToolOutput, String>,
    onboarding_available: bool,
    toolkit: Option<String>,
) -> (r: FirstAttempt)
    ensures
        match attempt {
            Ok(o) => if !o.is_error {
                r matches FirstAttempt::Finished(t) && t@ == (ToolResultView { success: true, output: o.text@, error: None })
            } else if spec_oauth_needed(o.text@) && onboarding_available && toolkit is Some {
                r matches FirstAttempt::Onboard(k) && k == toolkit->0
            } else {
                r matches FirstAttempt::Finished(t) && t@ == failure(o.text@)
            },
            Err(e) => r matches FirstAttempt::Finished(t) && t@ == failure("MCP execution failed: "@ + e@),
        },
{
    proof {
        reveal_strlit("");
    }
    match attempt {
        Ok(o) => {
            if !o.is_error {
                FirstAttempt::Finished(ToolResult { success: true, output: o.text, error: None })
            } else if is_oauth_needed_message(o.text.as_str()) && onboarding_available && toolkit.is_some() {
                match toolkit {
                    Some(k) => FirstAttempt::Onboard(k),
                    None => FirstAttempt::Finished(ToolResult { success: false, output: "".to_owned(), error: Some(o.text) }),
                }
            } else {
                FirstAttempt::Finished(ToolResult { success: false, output: "".to_owned(), error: Some(o.text) })
            }
        },
        Err(e) => {
            let mut v: Vec<char> = Vec::new();
            append_str(&mut v, "MCP execution failed: ");
            append_str(&mut v, e.as_str());
            FirstAttempt::Finished(ToolResult { success: false, output: "".to_owned(), error: Some(string_from_chars(v.as_slice())) })
        },
    }
}

/// What onboarding leads to.
#[derive(Debug)]
pub enum AfterOnboarding {
    /// The toolkit is connected: retry the tool once.
    Retry,
    /// The run is over, with this result.
    Finished(ToolResult),
}

/// Decides after onboarding: a connection leads to the retry; an error that
/// carries an authorization link is handed back as it is, any other error is
/// reported with the toolkit.
pub fn decide_after_onboarding(toolkit: &str, result: Result<(), String>) -> (r: AfterOnboarding)
    ensures
        match result {
            Ok(()) => r is Retry,
            Err(m) => if seq_contains(m@, "Please click this link to authorize:"@) {
                r matches AfterOnboarding::Finished(t) && t@ == failure(m@)
            } else {
                r matches AfterOnboarding::Finished(t) && t@ == failure("OAuth onboarding failed for "@ + toolkit@ + ": "@ + m@)
            },
        },
{
    proof {
        reveal_strlit("");
    }
    match result {
        Ok(()) => AfterOnboarding::Retry,
        Err(m) => {
            if str_contains(m.as_str(), "Please click this link to authorize:") {
                AfterOnboarding::Finished(ToolResult { success: false, output: "".to_owned(), error: Some(m) })
            } else {
                let mut v: Vec<char> = Vec::new();
                append_str(&mut v, "OAuth onboarding failed for ");
                append_str(&mut v, toolkit);
                append_str(&mut v, ": ");
                append_str(&mut v, m.as_str());
                AfterOnboarding::Finished(ToolResult { success: false, output: "".to_owned(), error: Some(string_from_chars(v.as_slice())) })
            }
        },
    }
}

/// The result of the one retry after onboarding.
pub fn decide_after_retry(retry: Result<McpToolOutput, String>) -> (r: ToolResult)
    ensures
        match retry {
            Ok(o) => if o.is_error {
                r@ == failure("Tool failed after OAuth connection: "@ + o.text@)
            } else {
                r@ == (ToolResultView { success: true, output: o.text@, error: None })
            },
            Err(e) => r@ == failure("Retry failed: "@ + e@),
        },
{
    proof {
        reveal_strlit("");
    }
    match retry {
        Ok(o) => {
            if o.is_error {
                let mut v: Vec<char> = Vec::new();
                append_str(&mut v, "Tool failed after OAuth connection: ");
                append_str(&mut v, o.text.as_str());
                ToolResult { success: false, output: "".to_owned(), error: Some(string_from_chars(v.as_slice())) }
            } else {
                ToolResult { success: true, output: o.text, error: None }
            }
        },
        Err(e) => {
            let mut v: Vec<char> = Vec::new();
            append_str(&mut v, "Retry failed: ");
            append_str(&mut v, e.as_str());
            ToolResult { success: false, output: "".to_owned(), error: Some(string_from_chars(v.as_slice())) }
        },
    }
}

/// An MCP tool definition as the server lists it.
#[derive(Debug)]
pub struct McpTool {
    pub name: String,
    pub description: Option<String>,
    pub input_schema: Json,
}

/// A Composio MCP tool as the agent sees it: its name, its description (a
/// default one when the server gives none) and its parameter schema.
#[derive(Debug)]
pub struct ComposioMcpTool {
    tool_name: String,
    description: String,
    schema: Json,
}

impl ComposioMcpTool {
    /// The tool's name.
    pub closed spec fn spec_name(&self) -> Seq<char> {
        self.tool_name@
    }

    /// The tool's description.
    pub closed spec fn spec_description(&self) -> Seq<char> {
        self.description@
    }

    /// The tool's schema.
    pub closed spec fn spec_schema(&self) -> JsonV {
        self.schema.jv()
    }

    /// Wraps an MCP tool definition.
    pub fn new(mcp_tool: McpTool) -> (r: Self)
        ensures
            r.spec_name() == mcp_tool.name@,
            r.spec_description() == match mcp_tool.description {
                Some(d) => d@,
                None => spec_default_description(mcp_tool.name@),
            },
            r.spec_schema() == mcp_tool.input_schema.jv(),
    {
        let description = match mcp_tool.description {
            Some(d) => d,
            None => default_description(mcp_tool.name.as_str()),
        };
        ComposioMcpTool { tool_name: mcp_tool.name, description, schema: mcp_tool.input_schema }
    }

    /// The tool's name.
    pub fn name(&self) -> (r: &str)
        ensures
            r@ == self.spec_name(),
    {
        self.tool_name.as_str()
    }

    /// The name of the MCP tool it calls.
    pub fn mcp_tool_name(&self) -> (r: &str)
        ensures
            r@ == self.spec_name(),
    {
        self.tool_name.as_str()
    }

    /// The tool's description.
    pub fn description(&self) -> (r: &str)
        ensures
            r@ == self.spec_description(),
    {
        self.description.as_str()
    }

    /// The tool's parameter schema.
    pub fn parameters_schema(&self) -> (r: Json)
        ensures
            r.jv() == self.spec_schema(),
    {
        self.schema.deep_clone()
    }
}

} // verus!
