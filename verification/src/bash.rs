//! Remote bash tool: interpretation of COMPOSIO_REMOTE_BASH_TOOL responses.
//!
//! The MCP call itself is made by the caller; this module decides what the
//! response means.

use vstd::prelude::*;
use crate::json::{Json, JsonV, opt_jv, json_as_i64, content_text, spec_parse_json, parse_json, json_get_first3, json_get_first4, str_or_empty, get_first3, get_first4};
use crate::jsonrpc::JsonRpcResponse;
use crate::text::{append_str, spec_decimal, string_from_chars, i64_to_string};
use crate::tool_result::ToolResult;

verus! {

/// Bash execution result
#[derive(Debug, Clone)]
pub struct BashResult {
    pub exit_code: i32,
    pub stdout: String,
    pub stderr: String,
}

/// Bash handler for executing commands in Composio's remote sandbox
pub struct BashHandler;

/// The exit code a result object reports: the first present of `exit_code`,
/// `exitCode`, `code`, `return_code`, read as an integer (0 when absent or not
/// an `i64`), truncated to 32 bits.
pub open spec fn spec_exit_code(data: JsonV) -> i32 {
    match json_get_first4(data, "exit_code"@, "exitCode"@, "code"@, "return_code"@) {
        Some(v) => match json_as_i64(v) {
            Some(n) => n as i32,
            None => 0,
        },
        None => 0,
    }
}

/// Standard output a result object reports (`stdout`, `output` or `result`).
pub open spec fn spec_stdout(data: JsonV) -> Seq<char> {
    str_or_empty(json_get_first3(data, "stdout"@, "output"@, "result"@))
}

/// Standard error a result object reports (`stderr`, `error_output` or `errors`).
pub open spec fn spec_stderr(data: JsonV) -> Seq<char> {
    str_or_empty(json_get_first3(data, "stderr"@, "error_output"@, "errors"@))
}

/// The bash result a response payload stands for: the JSON object in
/// `content[0].text` when that text parses as JSON; the text itself as standard
/// output (exit code 0) when it does not; otherwise the payload object itself.
pub open spec fn spec_bash_result(result_data: JsonV) -> (i32, Seq<char>, Seq<char>) {
    match content_text(result_data) {
        Some(text) => match spec_parse_json(text) {
            Some(parsed) => (spec_exit_code(parsed), spec_stdout(parsed), spec_stderr(parsed)),
            None => (0, text, Seq::empty()),
        },
        None => (spec_exit_code(result_data), spec_stdout(result_data), spec_stderr(result_data)),
    }
}

/// Output shown for a finished command: standard output alone when standard
/// error is empty, otherwise both under headings.
pub open spec fn spec_bash_output(stdout: Seq<char>, stderr: Seq<char>) -> Seq<char> {
    if stderr.len() == 0 {
        stdout
    } else {
        "STDOUT:\n"@ + stdout + "\n\nSTDERR:\n"@ + stderr
    }
}

fn str_or_empty_exec(opt: Option<&Json>) -> (r: String)
    ensures
        r@ == str_or_empty(opt_jv(opt)),
{
    proof {
        reveal_strlit("");
    }
    match opt {
        Some(v) => match v.as_str() {
            Some(s) => s.to_owned(),
            None => "".to_owned(),
        },
        None => "".to_owned(),
    }
}

impl BashHandler {
    /// Create a new bash handler
    pub fn new() -> (h: Self) {
        BashHandler
    }

    /// Parse BashResult from a JSON value, trying several field names for
    /// each part.
    pub fn parse_bash_result_from_value(data: &Json) -> (r: Result<BashResult, String>)
        ensures
            r matches Ok(b) && b.exit_code == spec_exit_code(data.jv()) && b.stdout@ == spec_stdout(data.jv())
                && b.stderr@ == spec_stderr(data.jv()),
    {
        let exit_code: i32 = match get_first4(data, "exit_code", "exitCode", "code", "return_code") {
            Some(v) => match v.as_i64() {
                Some(n) => n as i32,
                None => 0,
            },
            None => 0,
        };
        let stdout = str_or_empty_exec(get_first3(data, "stdout", "output", "result"));
        let stderr = str_or_empty_exec(get_first3(data, "stderr", "error_output", "errors"));
        Ok(BashResult { exit_code, stdout, stderr })
    }

    /// Extract bash result from an MCP response payload
    pub fn extract_bash_result(result_data: &Json) -> (r: Result<BashResult, String>)
        ensures
            r matches Ok(b) && (b.exit_code, b.stdout@, b.stderr@) == spec_bash_result(result_data.jv()),
    {
        match result_data.content_text() {
            Some(text) => {
                match parse_json(text) {
                    Some(parsed) => Self::parse_bash_result_from_value(&parsed),
                    None => {
                        proof {
                            reveal_strlit("");
                        }
                        Ok(BashResult { exit_code: 0, stdout: text.to_owned(), stderr: "".to_owned() })
                    },
                }
            },
            None => Self::parse_bash_result_from_value(result_data),
        }
    }

    /// What a COMPOSIO_REMOTE_BASH_TOOL call answered, as a tool result: a
    /// JSON-RPC error becomes a failed result carrying its message; otherwise
    /// success is a zero exit code, with the output of `spec_bash_output` and,
    /// on failure, the exit code in the error. A response without result is an
    /// error.
    pub fn tool_result_from_response(rpc: JsonRpcResponse) -> (r: Result<ToolResult, String>)
        ensures
            rpc.error matches Some(e) ==> (r matches Ok(t) && !t.success && t@.output
                == "Bash execution failed: "@ + e.message@ && t@.error == Some(e.message@)),
            rpc.error is None && rpc.result is None ==> (r matches Err(m) && m@
                == "No result in JSON-RPC response"@),
            (rpc.error is None && rpc.result is Some) ==> {
                let data = rpc.result.unwrap();
                let (code, stdout, stderr) = spec_bash_result(data.jv());
                (r matches Ok(t) && t.success == (code == 0) && t@.output == spec_bash_output(
                    stdout,
                    stderr,
                ) && t@.error == (if code == 0 {
                    None
                } else {
                    Some("Command exited with code "@ + spec_decimal(code as int))
                }))
            },
    {
        match rpc.error {
            Some(e) => {
                let mut v: Vec<char> = Vec::new();
                append_str(&mut v, "Bash execution failed: ");
                append_str(&mut v, e.message.as_str());
                let output = string_from_chars(v.as_slice());
                Ok(ToolResult { success: false, output, error: Some(e.message) })
            },
            None => match rpc.result {
                None => Err("No result in JSON-RPC response".to_owned()),
                Some(data) => {
                    let b = Self::extract_bash_result(&data)?;
                    let success = b.exit_code == 0;
                    let output = if b.stderr.as_str().is_empty() {
                        b.stdout.clone()
                    } else {
                        let mut v: Vec<char> = Vec::new();
                        append_str(&mut v, "STDOUT:\n");
                        append_str(&mut v, b.stdout.as_str());
                        append_str(&mut v, "\n\nSTDERR:\n");
                        append_str(&mut v, b.stderr.as_str());
                        string_from_chars(v.as_slice())
                    };
                    let error = if success {
                        None
                    } else {
                        let mut v: Vec<char> = Vec::new();
                        append_str(&mut v, "Command exited with code ");
                        let n = i64_to_string(b.exit_code as i64);
                        append_str(&mut v, n.as_str());
                        Some(string_from_chars(v.as_slice()))
                    };
                    Ok(ToolResult { success, output, error })
                },
            },
        }
    }
}

/// Parameters of a COMPOSIO_REMOTE_BASH_TOOL call: the command, the user,
/// and the working directory (`/workspace` when not given).
pub open spec fn spec_bash_params(command: Seq<char>, user_id: Seq<char>, working_directory: Option<Seq<char>>) -> JsonV {
    JsonV::Object(
        seq![
            ("command"@, JsonV::Str(command)),
            ("user_id"@, JsonV::Str(user_id)),
            ("working_directory"@, JsonV::Str(match working_directory {
                Some(d) => d,
                None => "/workspace"@,
            })),
        ],
    )
}

/// Builds the parameters of a bash call.
pub fn bash_params(command: &str, user_id: &str, working_directory: Option<&str>) -> (r: Json)
    ensures
        r.jv() == spec_bash_params(
            command@,
            user_id@,
            match working_directory {
                Some(d) => Some(d@),
                None => None,
            },
        ),
{
    let dir: &str = match working_directory {
        Some(d) => d,
        None => "/workspace",
    };
    let mut es: Vec<(String, Json)> = Vec::new();
    crate::json::push_entry(&mut es, "command", Json::string(command));
    crate::json::push_entry(&mut es, "user_id", Json::string(user_id));
    crate::json::push_entry(&mut es, "working_directory", Json::string(dir));
    proof {
        let wd = match working_directory {
            Some(d) => Some(d@),
            None => None,
        };
        assert(crate::json::entries_view(es@) =~= spec_bash_params(command@, user_id@, wd)->Object_0);
    }
    crate::json::object_of(es)
}

} // verus!
