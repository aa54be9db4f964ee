//! The decisions of one run of the dynamic Composio tool, as a step
//! function: the caller performs each action (the session, the search, a
//! schema fetch, the connection, the execution) and hands back what came of
//! it as the next event, until the run finishes with a tool result or fails.

use vstd::prelude::*;
use crate::composio_meta::{
    arguments_missing, meta_execution_result, meta_extract_arguments, missing_arguments_result, spec_arguments_missing,
    spec_meta_arguments, ToolCacheEntry, ToolEntryView,
};
use crate::composio_nl::{no_tools_message, spec_no_tools_message};
use crate::json::{Json, JsonV, json_get, json_get_str, spec_json_pretty};
use crate::nl_workflow::{opt_json, refused};
use crate::tool_result::{ToolResult, ToolResultView};

verus! {

/// Where a run of the dynamic tool stands between two steps.
pub enum MetaRun {
    /// Not started.
    Start,
    /// Waiting for the session.
    Session { query: String, provided: Option<Json> },
    /// Waiting for the tools the search found.
    Search { query: String, provided: Option<Json>, session_id: String },
    /// Waiting for the schema of the chosen tool.
    Schema { query: String, provided: Option<Json>, session_id: String, tool: ToolCacheEntry },
    /// Waiting for the toolkit's connection.
    Connection { session_id: String, slug: String, arguments: Json },
    /// Waiting for the execution's result.
    Execution,
    /// Finished.
    Done,
}

/// What came of the last action.
pub enum MetaEvent {
    /// The run begins: whether the security policy allows the tool (or its
    /// refusal), and the tool's arguments.
    Start { allowed: Result<(), String>, args: Json },
    /// The session id, or why there is none.
    Session(Result<String, String>),
    /// The tools the search found, or why it failed.
    Searched(Result<Vec<ToolCacheEntry>, String>),
    /// The fetched schema, or why fetching failed.
    SchemaFetched(Result<Json, String>),
    /// Whether the toolkit is connected, or why not.
    Connected(Result<(), String>),
    /// The execution's result, or why it failed.
    Executed(Result<Json, String>),
}

/// What the caller does next.
pub enum MetaAction {
    /// The run is over: answer this tool result.
    Finish(ToolResult),
    /// The run is over: fail with this error.
    Fail(String),
    /// Get a valid session.
    EnsureSession,
    /// Search the tools for this query in this session.
    Search(String, String),
    /// Fetch the schema of this tool slug in this session.
    FetchSchema(String, String),
    /// Make sure this toolkit is connected, in this session.
    Connect(String, String),
    /// Execute this tool slug with these arguments in this session.
    Execute(String, Json, String),
}

/// A run, as values.
pub enum MetaRunView {
    Start,
    Session { query: Seq<char>, provided: Option<JsonV> },
    Search { query: Seq<char>, provided: Option<JsonV>, session_id: Seq<char> },
    Schema { query: Seq<char>, provided: Option<JsonV>, session_id: Seq<char>, tool: ToolEntryView },
    Connection { session_id: Seq<char>, slug: Seq<char>, arguments: JsonV },
    Execution,
    Done,
}

/// An event, as values.
pub enum MetaEventView {
    Start { allowed: Result<(), Seq<char>>, args: JsonV },
    Session(Result<Seq<char>, Seq<char>>),
    Searched(Result<Seq<ToolEntryView>, Seq<char>>),
    SchemaFetched(Result<JsonV, Seq<char>>),
    Connected(Result<(), Seq<char>>),
    Executed(Result<JsonV, Seq<char>>),
}

/// An action, as values.
pub enum MetaActionView {
    Finish(ToolResultView),
    Fail(Seq<char>),
    EnsureSession,
    Search(Seq<char>, Seq<char>),
    FetchSchema(Seq<char>, Seq<char>),
    Connect(Seq<char>, Seq<char>),
    Execute(Seq<char>, JsonV, Seq<char>),
}

/// The values of discovered tools.
pub open spec fn entry_views(tools: Seq<ToolCacheEntry>) -> Seq<ToolEntryView> {
    tools.map_values(|t: ToolCacheEntry| t@)
}

/// The value of a result with a text error.
pub open spec fn text_result(r: Result<String, String>) -> Result<Seq<char>, Seq<char>> {
    match r {
        Ok(s) => Ok(s@),
        Err(e) => Err(e@),
    }
}

/// The value of a result with a JSON value and a text error.
pub open spec fn json_result(r: Result<Json, String>) -> Result<JsonV, Seq<char>> {
    match r {
        Ok(j) => Ok(j.jv()),
        Err(e) => Err(e@),
    }
}

/// The value of a result with nothing and a text error.
pub open spec fn unit_result(r: Result<(), String>) -> Result<(), Seq<char>> {
    match r {
        Ok(_) => Ok(()),
        Err(e) => Err(e@),
    }
}

impl View for MetaRun {
    type V = MetaRunView;

    open spec fn view(&self) -> MetaRunView {
        match self {
            MetaRun::Start => MetaRunView::Start,
            MetaRun::Session { query, provided } => MetaRunView::Session { query: query@, provided: opt_json(*provided) },
            MetaRun::Search { query, provided, session_id } => MetaRunView::Search {
                query: query@,
                provided: opt_json(*provided),
                session_id: session_id@,
            },
            MetaRun::Schema { query, provided, session_id, tool } => MetaRunView::Schema {
                query: query@,
                provided: opt_json(*provided),
                session_id: session_id@,
                tool: tool@,
            },
            MetaRun::Connection { session_id, slug, arguments } => MetaRunView::Connection {
                session_id: session_id@,
                slug: slug@,
                arguments: arguments.jv(),
            },
            MetaRun::Execution => MetaRunView::Execution,
            MetaRun::Done => MetaRunView::Done,
        }
    }
}

impl View for MetaEvent {
    type V = MetaEventView;

    open spec fn view(&self) -> MetaEventView {
        match self {
            MetaEvent::Start { allowed, args } => MetaEventView::Start { allowed: unit_result(*allowed), args: args.jv() },
            MetaEvent::Session(r) => MetaEventView::Session(text_result(*r)),
            MetaEvent::Searched(r) => MetaEventView::Searched(
                match r {
                    Ok(tools) => Ok(entry_views(tools@)),
                    Err(e) => Err(e@),
                },
            ),
            MetaEvent::SchemaFetched(r) => MetaEventView::SchemaFetched(json_result(*r)),
            MetaEvent::Connected(r) => MetaEventView::Connected(unit_result(*r)),
            MetaEvent::Executed(r) => MetaEventView::Executed(json_result(*r)),
        }
    }
}

impl View for MetaAction {
    type V = MetaActionView;

    open spec fn view(&self) -> MetaActionView {
        match self {
            MetaAction::Finish(t) => MetaActionView::Finish(t@),
            MetaAction::Fail(e) => MetaActionView::Fail(e@),
            MetaAction::EnsureSession => MetaActionView::EnsureSession,
            MetaAction::Search(q, s) => MetaActionView::Search(q@, s@),
            MetaAction::FetchSchema(t, s) => MetaActionView::FetchSchema(t@, s@),
            MetaAction::Connect(t, s) => MetaActionView::Connect(t@, s@),
            MetaAction::Execute(t, a, s) => MetaActionView::Execute(t@, a.jv(), s@),
        }
    }
}

/// The answer when a tool was found but its arguments could not be read.
pub open spec fn spec_missing_arguments(slug: Seq<char>, description: Seq<char>, schema: JsonV) -> ToolResultView {
    ToolResultView {
        success: false,
        output: "Tool found: "@ + slug + "\nDescription: "@ + description + "\n\nRequired parameters:\n"@
            + spec_json_pretty(schema)
            + "\n\nTip: You can call this tool again with the 'arguments' parameter, or I can help you construct the arguments."@,
        error: Some(
            "Missing required arguments for "@ + slug
                + ". Please provide the 'arguments' parameter with the required fields."@,
        ),
    }
}

/// The dynamic tool's answer to an execution: the pretty JSON of the result,
/// or the error as it is.
pub open spec fn spec_meta_answer(outcome: Result<JsonV, Seq<char>>) -> ToolResultView {
    match outcome {
        Ok(j) => ToolResultView { success: true, output: spec_json_pretty(j), error: None },
        Err(e) => refused(e),
    }
}

/// Once the schema of the chosen tool is known: the given arguments, or
/// those read from the query; when none could be read the run ends with the
/// tool's description and schema; otherwise the toolkit is connected.
pub open spec fn after_schema(
    query: Seq<char>,
    provided: Option<JsonV>,
    session_id: Seq<char>,
    tool: ToolEntryView,
    schema: JsonV,
) -> (MetaRunView, MetaActionView) {
    let extracted = spec_meta_arguments(query, tool.tool_slug, schema);
    match provided {
        Some(a) => (
            MetaRunView::Connection { session_id, slug: tool.tool_slug, arguments: a },
            MetaActionView::Connect(tool.toolkit, session_id),
        ),
        None => if spec_arguments_missing(extracted) {
            (MetaRunView::Done, MetaActionView::Finish(spec_missing_arguments(tool.tool_slug, tool.description, schema)))
        } else {
            (
                MetaRunView::Connection { session_id, slug: tool.tool_slug, arguments: extracted },
                MetaActionView::Connect(tool.toolkit, session_id),
            )
        },
    }
}

/// One step of a run of the dynamic tool. A missing query, or a failed
/// session, search or schema fetch, fails the run with that error; a refusal
/// of the security policy, no tool found, missing arguments, a failed
/// connection and the execution's outcome end it with a tool result.
pub open spec fn spec_meta_execute_step(run: MetaRunView, event: MetaEventView) -> (MetaRunView, MetaActionView) {
    match (run, event) {
        (MetaRunView::Start, MetaEventView::Start { allowed, args }) => match allowed {
            Err(e) => (MetaRunView::Done, MetaActionView::Finish(refused(e))),
            Ok(_) => match json_get_str(args, "query"@) {
                None => (MetaRunView::Done, MetaActionView::Fail("Missing 'query' parameter"@)),
                Some(q) => (
                    MetaRunView::Session { query: q, provided: json_get(args, "arguments"@) },
                    MetaActionView::EnsureSession,
                ),
            },
        },
        (MetaRunView::Session { query, provided }, MetaEventView::Session(r)) => match r {
            Err(e) => (MetaRunView::Done, MetaActionView::Fail(e)),
            Ok(s) => (MetaRunView::Search { query, provided, session_id: s }, MetaActionView::Search(query, s)),
        },
        (MetaRunView::Search { query, provided, session_id }, MetaEventView::Searched(r)) => match r {
            Err(e) => (MetaRunView::Done, MetaActionView::Fail(e)),
            Ok(tools) => if tools.len() == 0 {
                (MetaRunView::Done, MetaActionView::Finish(refused(spec_no_tools_message(query))))
            } else {
                let tool = tools[0];
                match tool.input_schema {
                    Some(s) => after_schema(query, provided, session_id, tool, s),
                    None => if tool.schema_ref is Some {
                        (
                            MetaRunView::Schema { query, provided, session_id, tool },
                            MetaActionView::FetchSchema(tool.tool_slug, session_id),
                        )
                    } else {
                        after_schema(query, provided, session_id, tool, JsonV::Object(Seq::empty()))
                    },
                }
            },
        },
        (MetaRunView::Schema { query, provided, session_id, tool }, MetaEventView::SchemaFetched(r)) => match r {
            Err(e) => (MetaRunView::Done, MetaActionView::Fail(e)),
            Ok(schema) => after_schema(query, provided, session_id, tool, schema),
        },
        (MetaRunView::Connection { session_id, slug, arguments }, MetaEventView::Connected(r)) => match r {
            Err(e) => (MetaRunView::Done, MetaActionView::Finish(refused(e))),
            Ok(_) => (MetaRunView::Execution, MetaActionView::Execute(slug, arguments, session_id)),
        },
        (MetaRunView::Execution, MetaEventView::Executed(outcome)) => (
            MetaRunView::Done,
            MetaActionView::Finish(spec_meta_answer(outcome)),
        ),
        _ => (MetaRunView::Done, MetaActionView::Fail("The run does not expect this event"@)),
    }
}

/// Once the schema of the chosen tool is known.
fn meta_after_schema(query: String, provided: Option<Json>, session_id: String, tool: ToolCacheEntry, schema: Json) -> (r: (
    MetaRun,
    MetaAction,
))
    ensures
        (r.0@, r.1@) == after_schema(query@, opt_json(provided), session_id@, tool@, schema.jv()),
{
    match provided {
        Some(a) => {
            let s2 = session_id.clone();
            (MetaRun::Connection { session_id, slug: tool.tool_slug, arguments: a }, MetaAction::Connect(tool.toolkit, s2))
        },
        None => {
            let extracted = meta_extract_arguments(query.as_str(), tool.tool_slug.as_str(), &schema);
            if arguments_missing(&extracted) {
                (
                    MetaRun::Done,
                    MetaAction::Finish(
                        missing_arguments_result(tool.tool_slug.as_str(), tool.description.as_str(), &schema),
                    ),
                )
            } else {
                let s2 = session_id.clone();
                (
                    MetaRun::Connection { session_id, slug: tool.tool_slug, arguments: extracted },
                    MetaAction::Connect(tool.toolkit, s2),
                )
            }
        },
    }
}

/// What the search found.
fn meta_searched(query: String, provided: Option<Json>, session_id: String, tools: Vec<ToolCacheEntry>) -> (r: (
    MetaRun,
    MetaAction,
))
    ensures
        (r.0@, r.1@) == spec_meta_execute_step(
            MetaRunView::Search { query: query@, provided: opt_json(provided), session_id: session_id@ },
            MetaEventView::Searched(Ok(entry_views(tools@))),
        ),
{
    let ghost tv = entry_views(tools@);
    if tools.len() == 0 {
        return (
            MetaRun::Done,
            MetaAction::Finish(
                ToolResult { success: false, output: String::new(), error: Some(no_tools_message(query.as_str())) },
            ),
        );
    }
    let mut list = tools;
    let tool = list.swap_remove(0);
    assert(tool@ == tv[0]);
    let schema: Option<Json> = match &tool.input_schema {
        Some(s) => Some(s.deep_clone()),
        None => None,
    };
    match schema {
        Some(s) => meta_after_schema(query, provided, session_id, tool, s),
        None => {
            if tool.schema_ref.is_some() {
                let slug = tool.tool_slug.clone();
                let s2 = session_id.clone();
                (MetaRun::Schema { query, provided, session_id, tool }, MetaAction::FetchSchema(slug, s2))
            } else {
                let empty = Json::Object(Vec::new());
                assert(empty.jv()->Object_0 =~= Seq::<(Seq<char>, JsonV)>::empty());
                meta_after_schema(query, provided, session_id, tool, empty)
            }
        },
    }
}

/// One step of a run of the dynamic tool: from where the run stands and
/// what came of the last action, where it stands next and what the caller
/// does next (see `spec_meta_execute_step`).
pub fn meta_execute_step(run: MetaRun, event: MetaEvent) -> (r: (MetaRun, MetaAction))
    ensures
        (r.0@, r.1@) == spec_meta_execute_step(run@, event@),
{
    match (run, event) {
        (MetaRun::Start, MetaEvent::Start { allowed, args }) => match allowed {
            Err(e) => (MetaRun::Done, MetaAction::Finish(ToolResult { success: false, output: String::new(), error: Some(e) })),
            Ok(_) => match args.get_str("query") {
                None => (MetaRun::Done, MetaAction::Fail("Missing 'query' parameter".to_owned())),
                Some(q) => {
                    let provided: Option<Json> = match args.get("arguments") {
                        Some(p) => Some(p.deep_clone()),
                        None => None,
                    };
                    (MetaRun::Session { query: q.to_owned(), provided }, MetaAction::EnsureSession)
                },
            },
        },
        (MetaRun::Session { query, provided }, MetaEvent::Session(r)) => match r {
            Err(e) => (MetaRun::Done, MetaAction::Fail(e)),
            Ok(s) => {
                let q2 = query.clone();
                let s2 = s.clone();
                (MetaRun::Search { query, provided, session_id: s }, MetaAction::Search(q2, s2))
            },
        },
        (MetaRun::Search { query, provided, session_id }, MetaEvent::Searched(r)) => match r {
            Err(e) => (MetaRun::Done, MetaAction::Fail(e)),
            Ok(tools) => meta_searched(query, provided, session_id, tools),
        },
        (MetaRun::Schema { query, provided, session_id, tool }, MetaEvent::SchemaFetched(r)) => match r {
            Err(e) => (MetaRun::Done, MetaAction::Fail(e)),
            Ok(schema) => meta_after_schema(query, provided, session_id, tool, schema),
        },
        (MetaRun::Connection { session_id, slug, arguments }, MetaEvent::Connected(r)) => match r {
            Err(e) => (MetaRun::Done, MetaAction::Finish(ToolResult { success: false, output: String::new(), error: Some(e) })),
            Ok(_) => (MetaRun::Execution, MetaAction::Execute(slug, arguments, session_id)),
        },
        (MetaRun::Execution, MetaEvent::Executed(outcome)) => (MetaRun::Done, MetaAction::Finish(meta_execution_result(&outcome))),
        _ => (MetaRun::Done, MetaAction::Fail("The run does not expect this event".to_owned())),
    }
}

} // verus!
