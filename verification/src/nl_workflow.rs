//! The decisions of one run of the natural-language Composio tool, as a
//! step function: the caller performs each action (a search, a policy
//! check, an MCP call, a model call) and hands back what came of it as the
//! next event, until the run finishes with a tool result or fails.
//!
//! The workflow is SEARCH (or the tool slug the caller gave) → the toolkit
//! policy, when one is configured → MANAGE (the toolkit's connection) →
//! argument extraction → EXECUTE.

use vstd::prelude::*;
use crate::composio_nl::{
    direct_tool, execution_result, failure_result, find_schema, is_office_edit, merge_arguments, no_tools_message,
    oauth_required_result, schema_lookup, spec_direct_tool, spec_merge_arguments, spec_no_tools_message,
    spec_oauth_required_output, spec_office_edit, ConnectionStatus, DiscoveredTool, DiscoveredView,
};
use crate::json::{Json, JsonV, entries_view, json_get, json_get_str, spec_json_pretty};
use crate::tool_result::{ToolResult, ToolResultView};

verus! {

/// Where a run of the natural-language tool stands between two steps.
pub enum NlRun {
    /// Not started.
    Start,
    /// Waiting for the schema of the tool slug the caller gave.
    Schemas { query: String, slug: String, provided: Option<Json>, gate_user: Option<String> },
    /// Waiting for the tools a search of the query found.
    Search { query: String, provided: Option<Json>, gate_user: Option<String> },
    /// Waiting for the toolkit policy's verdict on the chosen tool.
    Toolkit { query: String, tool: DiscoveredTool, provided: Option<Json> },
    /// Waiting for the connection status of the chosen tool's toolkit.
    Connection { query: String, tool: DiscoveredTool, provided: Option<Json> },
    /// Waiting for the arguments extracted from the query.
    Arguments { tool: DiscoveredTool, provided: Option<Json> },
    /// Waiting for the result of the execution.
    Execution,
    /// Finished.
    Done,
}

/// What came of the last action.
pub enum NlEvent {
    /// The run begins: whether the core security policy allows the tool (or
    /// its refusal), the tool's arguments, and whether a toolkit policy is
    /// configured.
    Start { allowed: Result<(), String>, args: Json, toolkit_policy: bool },
    /// The schemas fetched for the given slug (none when fetching failed).
    Schemas(Vec<(String, Json)>),
    /// The tools the search found, or why it failed.
    Searched(Result<Vec<DiscoveredTool>, String>),
    /// The toolkit policy's verdict.
    ToolkitChecked(Result<(), String>),
    /// The toolkit's connection status, or why it could not be checked.
    Connection(Result<ConnectionStatus, String>),
    /// The arguments extracted from the query.
    Extracted(Json),
    /// The execution's result, or why it failed.
    Executed(Result<Json, String>),
}

/// What the caller does next.
pub enum NlAction {
    /// The run is over: answer this tool result.
    Finish(ToolResult),
    /// The run is over: fail with this error.
    Fail(String),
    /// The query edits an Office file: run it in the workbench instead.
    RunOfficeWorkbench(String),
    /// Fetch the schema of this tool slug.
    FetchSchemas(String),
    /// Search the tools for this query.
    Search(String),
    /// Ask the toolkit policy whether this user may run this toolkit.
    CheckToolkit(String, String),
    /// Check the connection of this toolkit.
    CheckConnection(String),
    /// Extract the arguments of this tool from this query.
    Extract(String, DiscoveredTool),
    /// Execute this tool slug with these arguments.
    Execute(String, Json),
}

/// A run, as values.
pub enum NlRunView {
    Start,
    Schemas { query: Seq<char>, slug: Seq<char>, provided: Option<JsonV>, gate_user: Option<Seq<char>> },
    Search { query: Seq<char>, provided: Option<JsonV>, gate_user: Option<Seq<char>> },
    Toolkit { query: Seq<char>, tool: DiscoveredView, provided: Option<JsonV> },
    Connection { query: Seq<char>, tool: DiscoveredView, provided: Option<JsonV> },
    Arguments { tool: DiscoveredView, provided: Option<JsonV> },
    Execution,
    Done,
}

/// A connection status, as values.
pub enum ConnectionView {
    Connected,
    NeedsOAuth(Seq<char>),
}

/// An event, as values.
pub enum NlEventView {
    Start { allowed: Result<(), Seq<char>>, args: JsonV, toolkit_policy: bool },
    Schemas(Seq<(Seq<char>, JsonV)>),
    Searched(Result<Seq<DiscoveredView>, Seq<char>>),
    ToolkitChecked(Result<(), Seq<char>>),
    Connection(Result<ConnectionView, Seq<char>>),
    Extracted(JsonV),
    Executed(Result<JsonV, Seq<char>>),
}

/// An action, as values.
pub enum NlActionView {
    Finish(ToolResultView),
    Fail(Seq<char>),
    RunOfficeWorkbench(Seq<char>),
    FetchSchemas(Seq<char>),
    Search(Seq<char>),
    CheckToolkit(Seq<char>, Seq<char>),
    CheckConnection(Seq<char>),
    Extract(Seq<char>, DiscoveredView),
    Execute(Seq<char>, JsonV),
}

/// The value of an optional owned JSON document.
pub open spec fn opt_json(o: Option<Json>) -> Option<JsonV> {
    match o {
        Some(j) => Some(j.jv()),
        None => None,
    }
}

/// The text of an optional string.
pub open spec fn opt_str(o: Option<String>) -> Option<Seq<char>> {
    match o {
        Some(s) => Some(s@),
        None => None,
    }
}

impl View for NlRun {
    type V = NlRunView;

    open spec fn view(&self) -> NlRunView {
        match self {
            NlRun::Start => NlRunView::Start,
            NlRun::Schemas { query, slug, provided, gate_user } => NlRunView::Schemas {
                query: query@,
                slug: slug@,
                provided: opt_json(*provided),
                gate_user: opt_str(*gate_user),
            },
            NlRun::Search { query, provided, gate_user } => NlRunView::Search {
                query: query@,
                provided: opt_json(*provided),
                gate_user: opt_str(*gate_user),
            },
            NlRun::Toolkit { query, tool, provided } => NlRunView::Toolkit {
                query: query@,
                tool: tool@,
                provided: opt_json(*provided),
            },
            NlRun::Connection { query, tool, provided } => NlRunView::Connection {
                query: query@,
                tool: tool@,
                provided: opt_json(*provided),
            },
            NlRun::Arguments { tool, provided } => NlRunView::Arguments { tool: tool@, provided: opt_json(*provided) },
            NlRun::Execution => NlRunView::Execution,
            NlRun::Done => NlRunView::Done,
        }
    }
}

impl View for NlEvent {
    type V = NlEventView;

    open spec fn view(&self) -> NlEventView {
        match self {
            NlEvent::Start { allowed, args, toolkit_policy } => NlEventView::Start {
                allowed: match allowed {
                    Ok(_) => Ok(()),
                    Err(e) => Err(e@),
                },
                args: args.jv(),
                toolkit_policy: *toolkit_policy,
            },
            NlEvent::Schemas(s) => NlEventView::Schemas(entries_view(s@)),
            NlEvent::Searched(r) => NlEventView::Searched(
                match r {
                    Ok(tools) => Ok(tools@.map_values(|t: DiscoveredTool| t@)),
                    Err(e) => Err(e@),
                },
            ),
            NlEvent::ToolkitChecked(r) => NlEventView::ToolkitChecked(
                match r {
                    Ok(_) => Ok(()),
                    Err(e) => Err(e@),
                },
            ),
            NlEvent::Connection(r) => NlEventView::Connection(
                match r {
                    Ok(ConnectionStatus::Connected) => Ok(ConnectionView::Connected),
                    Ok(ConnectionStatus::NeedsOAuth(url)) => Ok(ConnectionView::NeedsOAuth(url@)),
                    Err(e) => Err(e@),
                },
            ),
            NlEvent::Extracted(j) => NlEventView::Extracted(j.jv()),
            NlEvent::Executed(r) => NlEventView::Executed(
                match r {
                    Ok(j) => Ok(j.jv()),
                    Err(e) => Err(e@),
                },
            ),
        }
    }
}

impl View for NlAction {
    type V = NlActionView;

    open spec fn view(&self) -> NlActionView {
        match self {
            NlAction::Finish(t) => NlActionView::Finish(t@),
            NlAction::Fail(e) => NlActionView::Fail(e@),
            NlAction::RunOfficeWorkbench(q) => NlActionView::RunOfficeWorkbench(q@),
            NlAction::FetchSchemas(s) => NlActionView::FetchSchemas(s@),
            NlAction::Search(q) => NlActionView::Search(q@),
            NlAction::CheckToolkit(t, u) => NlActionView::CheckToolkit(t@, u@),
            NlAction::CheckConnection(t) => NlActionView::CheckConnection(t@),
            NlAction::Extract(q, t) => NlActionView::Extract(q@, t@),
            NlAction::Execute(s, a) => NlActionView::Execute(s@, a.jv()),
        }
    }
}

/// A failed tool result with no output and this error.
pub open spec fn refused(error: Seq<char>) -> ToolResultView {
    ToolResultView { success: false, output: Seq::empty(), error: Some(error) }
}

/// The final answer of an execution: the pretty JSON of its result, or the
/// error behind "Tool execution failed: ".
pub open spec fn spec_execution_answer(outcome: Result<JsonV, Seq<char>>) -> ToolResultView {
    match outcome {
        Ok(j) => ToolResultView { success: true, output: spec_json_pretty(j), error: None },
        Err(e) => refused("Tool execution failed: "@ + e),
    }
}

/// Once a tool is chosen: the toolkit policy is asked first when one is
/// configured (for the user the run names), else the connection is checked.
pub open spec fn after_choice(
    query: Seq<char>,
    tool: DiscoveredView,
    provided: Option<JsonV>,
    gate_user: Option<Seq<char>>,
) -> (NlRunView, NlActionView) {
    match gate_user {
        Some(u) => (NlRunView::Toolkit { query, tool, provided }, NlActionView::CheckToolkit(tool.toolkit, u)),
        None => (NlRunView::Connection { query, tool, provided }, NlActionView::CheckConnection(tool.toolkit)),
    }
}

/// How a run goes on once it has a query that is no Office edit: a given
/// tool slug has its schema fetched; otherwise the query is searched. The
/// toolkit policy, when configured, will be asked for the `user_id` argument
/// (`default_user` when absent).
pub open spec fn spec_nl_begin(args: JsonV, q: Seq<char>, toolkit_policy: bool) -> (NlRunView, NlActionView) {
    let provided = json_get(args, "arguments"@);
    let gate_user = if toolkit_policy {
        Some(
            match json_get_str(args, "user_id"@) {
                Some(u) => u,
                None => "default_user"@,
            },
        )
    } else {
        None
    };
    match json_get_str(args, "tool_slug"@) {
        Some(slug) => (NlRunView::Schemas { query: q, slug, provided, gate_user }, NlActionView::FetchSchemas(slug)),
        None => (NlRunView::Search { query: q, provided, gate_user }, NlActionView::Search(q)),
    }
}

/// How a run starts from the tool's arguments: a missing query fails; an
/// Office edit goes to the workbench; otherwise see `spec_nl_begin`.
pub open spec fn spec_nl_start(args: JsonV, toolkit_policy: bool) -> (NlRunView, NlActionView) {
    match json_get_str(args, "query"@) {
        None => (NlRunView::Done, NlActionView::Fail("Missing 'query' parameter"@)),
        Some(q) => if spec_office_edit(q) {
            (NlRunView::Done, NlActionView::RunOfficeWorkbench(q))
        } else {
            spec_nl_begin(args, q, toolkit_policy)
        },
    }
}

/// One step of a run of the natural-language tool.
pub open spec fn spec_nl_execute_step(run: NlRunView, event: NlEventView) -> (NlRunView, NlActionView) {
    match (run, event) {
        (NlRunView::Start, NlEventView::Start { allowed, args, toolkit_policy }) => match allowed {
            Err(e) => (NlRunView::Done, NlActionView::Finish(refused(e))),
            Ok(_) => spec_nl_start(args, toolkit_policy),
        },
        (NlRunView::Schemas { query, slug, provided, gate_user }, NlEventView::Schemas(schemas)) => after_choice(
            query,
            spec_direct_tool(slug, query, schema_lookup(schemas, slug)),
            provided,
            gate_user,
        ),
        (NlRunView::Search { query, provided, gate_user }, NlEventView::Searched(found)) => match found {
            Err(e) => (NlRunView::Done, NlActionView::Finish(refused("Failed to search tools: "@ + e))),
            Ok(tools) => if tools.len() == 0 {
                (NlRunView::Done, NlActionView::Finish(refused(spec_no_tools_message(query))))
            } else {
                after_choice(query, tools[0], provided, gate_user)
            },
        },
        (NlRunView::Toolkit { query, tool, provided }, NlEventView::ToolkitChecked(verdict)) => match verdict {
            Err(e) => (NlRunView::Done, NlActionView::Finish(refused("Security policy denied execution: "@ + e))),
            Ok(_) => (NlRunView::Connection { query, tool, provided }, NlActionView::CheckConnection(tool.toolkit)),
        },
        (NlRunView::Connection { query, tool, provided }, NlEventView::Connection(status)) => match status {
            Err(e) => (NlRunView::Done, NlActionView::Finish(refused("Failed to check connection: "@ + e))),
            Ok(ConnectionView::Connected) => (NlRunView::Arguments { tool, provided }, NlActionView::Extract(query, tool)),
            Ok(ConnectionView::NeedsOAuth(url)) => (
                NlRunView::Done,
                NlActionView::Finish(
                    ToolResultView { success: false, output: spec_oauth_required_output(tool.toolkit, url), error: None },
                ),
            ),
        },
        (NlRunView::Arguments { tool, provided }, NlEventView::Extracted(extracted)) => (
            NlRunView::Execution,
            NlActionView::Execute(
                tool.tool_slug,
                match provided {
                    Some(p) => spec_merge_arguments(p, extracted),
                    None => extracted,
                },
            ),
        ),
        (NlRunView::Execution, NlEventView::Executed(outcome)) => (
            NlRunView::Done,
            NlActionView::Finish(spec_execution_answer(outcome)),
        ),
        _ => (NlRunView::Done, NlActionView::Fail("The run does not expect this event"@)),
    }
}

/// A failed tool result with no output and this error.
fn refusal(error: String) -> (r: ToolResult)
    ensures
        r@ == refused(error@),
{
    ToolResult { success: false, output: String::new(), error: Some(error) }
}

/// The next step once a tool is chosen.
fn choose_next(query: String, tool: DiscoveredTool, provided: Option<Json>, gate_user: Option<String>) -> (r: (NlRun, NlAction))
    ensures
        (r.0@, r.1@) == after_choice(query@, tool@, opt_json(provided), opt_str(gate_user)),
{
    let toolkit = tool.toolkit.clone();
    match gate_user {
        Some(u) => (NlRun::Toolkit { query, tool, provided }, NlAction::CheckToolkit(toolkit, u)),
        None => (NlRun::Connection { query, tool, provided }, NlAction::CheckConnection(toolkit)),
    }
}

/// How a run goes on once it has a query that is no Office edit.
fn nl_begin(args: Json, query: String, toolkit_policy: bool) -> (r: (NlRun, NlAction))
    ensures
        (r.0@, r.1@) == spec_nl_begin(args.jv(), query@, toolkit_policy),
{
    let provided: Option<Json> = match args.get("arguments") {
        Some(p) => Some(p.deep_clone()),
        None => None,
    };
    let gate_user: Option<String> = if toolkit_policy {
        Some(
            match args.get_str("user_id") {
                Some(u) => u.to_owned(),
                None => "default_user".to_owned(),
            },
        )
    } else {
        None
    };
    match args.get_str("tool_slug") {
        Some(slug) => {
            let s = slug.to_owned();
            let action = NlAction::FetchSchemas(slug.to_owned());
            (NlRun::Schemas { query, slug: s, provided, gate_user }, action)
        },
        None => {
            let action = NlAction::Search(query.clone());
            (NlRun::Search { query, provided, gate_user }, action)
        },
    }
}

/// How a run starts from the tool's arguments.
fn nl_start(args: Json, toolkit_policy: bool) -> (r: (NlRun, NlAction))
    ensures
        (r.0@, r.1@) == spec_nl_start(args.jv(), toolkit_policy),
{
    let query: String = match args.get_str("query") {
        Some(q) => q.to_owned(),
        None => {
            return (NlRun::Done, NlAction::Fail("Missing 'query' parameter".to_owned()));
        },
    };
    if is_office_edit(query.as_str()) {
        return (NlRun::Done, NlAction::RunOfficeWorkbench(query));
    }
    nl_begin(args, query, toolkit_policy)
}

/// One step of a run of the natural-language tool: from where the run
/// stands and what came of the last action, where it stands next and what
/// the caller does next (see `spec_nl_execute_step`).
pub fn nl_execute_step(run: NlRun, event: NlEvent) -> (r: (NlRun, NlAction))
    ensures
        (r.0@, r.1@) == spec_nl_execute_step(run@, event@),
{
    match (run, event) {
        (NlRun::Start, NlEvent::Start { allowed, args, toolkit_policy }) => match allowed {
            Err(e) => (NlRun::Done, NlAction::Finish(refusal(e))),
            Ok(_) => nl_start(args, toolkit_policy),
        },
        (NlRun::Schemas { query, slug, provided, gate_user }, NlEvent::Schemas(schemas)) => {
            let schema: Option<Json> = match find_schema(&schemas, slug.as_str()) {
                Some(s) => Some(s.deep_clone()),
                None => None,
            };
            let tool = direct_tool(slug.as_str(), query.as_str(), schema);
            choose_next(query, tool, provided, gate_user)
        },
        (NlRun::Search { query, provided, gate_user }, NlEvent::Searched(found)) => match found {
            Err(e) => (NlRun::Done, NlAction::Finish(failure_result("Failed to search tools: ", e.as_str()))),
            Ok(tools) => {
                let ghost tv = tools@.map_values(|t: DiscoveredTool| t@);
                if tools.len() == 0 {
                    (NlRun::Done, NlAction::Finish(refusal(no_tools_message(query.as_str()))))
                } else {
                    let mut tools = tools;
                    let tool = tools.swap_remove(0);
                    assert(tool@ == tv[0]);
                    choose_next(query, tool, provided, gate_user)
                }
            },
        },
        (NlRun::Toolkit { query, tool, provided }, NlEvent::ToolkitChecked(verdict)) => match verdict {
            Err(e) => (NlRun::Done, NlAction::Finish(failure_result("Security policy denied execution: ", e.as_str()))),
            Ok(_) => {
                let toolkit = tool.toolkit.clone();
                (NlRun::Connection { query, tool, provided }, NlAction::CheckConnection(toolkit))
            },
        },
        (NlRun::Connection { query, tool, provided }, NlEvent::Connection(status)) => match status {
            Err(e) => (NlRun::Done, NlAction::Finish(failure_result("Failed to check connection: ", e.as_str()))),
            Ok(ConnectionStatus::Connected) => {
                let ghost tv = tool@;
                let copy = DiscoveredTool {
                    tool_slug: tool.tool_slug.clone(),
                    description: tool.description.clone(),
                    toolkit: tool.toolkit.clone(),
                    use_case: tool.use_case.clone(),
                    input_schema: match &tool.input_schema {
                        Some(s) => Some(s.deep_clone()),
                        None => None,
                    },
                    schema_ref: match &tool.schema_ref {
                        Some(s) => Some(s.clone()),
                        None => None,
                    },
                };
                (NlRun::Arguments { tool, provided }, NlAction::Extract(query, copy))
            },
            Ok(ConnectionStatus::NeedsOAuth(url)) => (
                NlRun::Done,
                NlAction::Finish(oauth_required_result(tool.toolkit.as_str(), url.as_str())),
            ),
        },
        (NlRun::Arguments { tool, provided }, NlEvent::Extracted(extracted)) => {
            let arguments = match provided {
                Some(p) => merge_arguments(p, &extracted),
                None => extracted,
            };
            (NlRun::Execution, NlAction::Execute(tool.tool_slug, arguments))
        },
        (NlRun::Execution, NlEvent::Executed(outcome)) => (NlRun::Done, NlAction::Finish(execution_result(&outcome))),
        _ => (NlRun::Done, NlAction::Fail("The run does not expect this event".to_owned())),
    }
}

} // verus!
