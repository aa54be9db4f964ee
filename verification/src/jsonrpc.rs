//! JSON-RPC response envelope of MCP tool calls.

use vstd::prelude::*;
use crate::json::{Json, JsonV};

verus! {

/// JSON-RPC error object
#[derive(Debug)]
pub struct JsonRpcError {
    pub code: i64,
    pub message: String,
    pub data: Option<Json>,
}

/// JSON-RPC response structure
#[derive(Debug)]
pub struct JsonRpcResponse {
    pub jsonrpc: String,
    pub id: i64,
    pub result: Option<Json>,
    pub error: Option<JsonRpcError>,
}

/// What the response logic reads of a JSON-RPC response: the error's code
/// and message, and the result document.
pub struct RpcView {
    pub error: Option<(i64, Seq<char>)>,
    pub result: Option<JsonV>,
}

impl View for JsonRpcResponse {
    type V = RpcView;

    open spec fn view(&self) -> RpcView {
        RpcView {
            error: match self.error {
                Some(e) => Some((e.code, e.message@)),
                None => None,
            },
            result: match self.result {
                Some(r) => Some(r.jv()),
                None => None,
            },
        }
    }
}

/// The view of the reply to an MCP call: the response, or the transport
/// error's message.
pub open spec fn reply_view(reply: Result<JsonRpcResponse, String>) -> Result<RpcView, Seq<char>> {
    match reply {
        Ok(r) => Ok(r@),
        Err(e) => Err(e@),
    }
}

} // verus!
