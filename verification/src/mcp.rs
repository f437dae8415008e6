//! MCP client primitives and Nexus tool adapters.
//!
//! Talking to the server process is the caller's part; this module names the
//! adapted tools and decides what each JSON-RPC response line means.

use std::collections::BTreeMap;

use vstd::prelude::*;

use crate::tools::ToolMetadata;

verus! {

/// How to start an MCP server over stdio.
#[derive(Debug, Clone)]
pub struct McpServerCommand {
    pub program: String,
    pub args: Vec<String>,
    pub env: BTreeMap<String, String>,
}

impl McpServerCommand {
    pub fn new(program: &str) -> (c: Self)
        ensures
            c.program@ == program@,
            c.args@.len() == 0,
            c.env@ == Map::<String, String>::empty(),
    {
        McpServerCommand { program: program.to_owned(), args: Vec::new(), env: BTreeMap::new() }
    }
}

/// A tool a server offers.
#[derive(Debug, Clone)]
pub struct McpTool {
    pub name: String,
    pub description: String,
    pub input_schema: serde_json::Value,
}

/// The Nexus name of a remote tool: `mcp.` before the server's name for it.
pub open spec fn adapted_name(remote: Seq<char>) -> Seq<char> {
    "mcp."@ + remote
}

/// A remote MCP tool presented as a Nexus tool.
pub struct McpToolAdapter {
    command: McpServerCommand,
    metadata: ToolMetadata,
    remote_name: String,
}

impl McpToolAdapter {
    pub closed spec fn command_view(&self) -> McpServerCommand {
        self.command
    }

    pub closed spec fn metadata_view(&self) -> ToolMetadata {
        self.metadata
    }

    pub closed spec fn remote_name_view(&self) -> String {
        self.remote_name
    }

    /// Namespaces the remote tool under `mcp.` and keeps its description and schema.
    pub fn new(command: McpServerCommand, remote: McpTool) -> (a: Self)
        ensures
            a.command_view() == command,
            a.metadata_view().name@ == adapted_name(remote.name@),
            a.metadata_view().description == remote.description,
            a.metadata_view().input_schema == remote.input_schema,
            a.remote_name_view() == remote.name,
    {
        let McpTool { name, description, input_schema } = remote;
        let mut local = "mcp.".to_owned();
        local.append(name.as_str());
        McpToolAdapter {
            command,
            metadata: ToolMetadata { name: local, description, input_schema },
            remote_name: name,
        }
    }

    pub fn metadata(&self) -> (m: ToolMetadata)
        ensures
            m.name@ == self.metadata_view().name@,
            m.description@ == self.metadata_view().description@,
            m.input_schema == self.metadata_view().input_schema,
    {
        self.metadata.clone()
    }

    pub fn remote_name(&self) -> (r: &str)
        ensures
            r@ == self.remote_name_view()@,
    {
        self.remote_name.as_str()
    }

    pub fn command(&self) -> (r: &McpServerCommand)
        ensures
            *r == self.command_view(),
    {
        &self.command
    }
}

/// Why an MCP exchange failed.
#[derive(Debug)]
pub enum McpError {
    Io(std::io::Error),
    Protocol(String),
    Remote(String),
}

/// A JSON-RPC response line as read from the server.
#[derive(Debug)]
pub struct RpcResponse {
    pub id: Option<u64>,
    pub result: Option<serde_json::Value>,
    pub error_message: Option<String>,
}

/// What a response line means for the request waiting on `expected`.
#[derive(Debug)]
pub enum RpcStep {
    /// The line answers another request: read on.
    Skip,
    /// The request is answered.
    Done(Result<serde_json::Value, McpError>),
}

/// Matches a response to the request with id `expected`: responses to other
/// ids are skipped; a remote error ends the request with that message; a
/// response without a result is a protocol error.
pub fn match_response(expected: u64, response: RpcResponse) -> (r: RpcStep)
    ensures
        response.id != Some(expected) ==> r is Skip,
        response.id == Some(expected) ==> match response.error_message {
            Some(m) => r matches RpcStep::Done(Err(McpError::Remote(m2))) && m2 == m,
            None => match response.result {
                Some(v) => r matches RpcStep::Done(Ok(v2)) && v2 == v,
                None => r matches RpcStep::Done(Err(McpError::Protocol(p))) && p@
                    == "response missing result"@,
            },
        },
{
    let RpcResponse { id, result, error_message } = response;
    match id {
        Some(i) => {
            if i != expected {
                return RpcStep::Skip;
            }
        },
        None => {
            return RpcStep::Skip;
        },
    }
    if let Some(m) = error_message {
        return RpcStep::Done(Err(McpError::Remote(m)));
    }
    match result {
        Some(v) => RpcStep::Done(Ok(v)),
        None => RpcStep::Done(Err(McpError::Protocol("response missing result".to_owned()))),
    }
}

/// Hands out request ids in order, from one; the counter saturates at the top.
pub fn take_request_id(next_id: &mut u64) -> (id: u64)
    ensures
        id == *old(next_id),
        *final(next_id) == if *old(next_id) == u64::MAX {
            u64::MAX
        } else {
            (*old(next_id) + 1) as u64
        },
{
    let id = *next_id;
    *next_id = next_id.saturating_add(1);
    id
}

} // verus!

verus! {

impl McpError {
    /// Whether `text` is how the error reads.
    pub open spec fn message_is(&self, text: Seq<char>) -> bool {
        match self {
            McpError::Io(e) => exists|t: Seq<char>|
                text == "MCP I/O failed: "@ + t && crate::text::displays_as(e, t),
            McpError::Protocol(m) => text == "MCP protocol error: "@ + m@,
            McpError::Remote(m) => text == "MCP server returned an error: "@ + m@,
        }
    }

    /// How the error reads.
    pub fn message(&self) -> (r: String)
        ensures
            self.message_is(r@),
    {
        match self {
            McpError::Io(e) => crate::text::prefixed_display("MCP I/O failed: ", e),
            McpError::Protocol(m) => crate::text::prefixed("MCP protocol error: ", m.as_str()),
            McpError::Remote(m) => crate::text::prefixed("MCP server returned an error: ", m.as_str()),
        }
    }
}

} // verus!
