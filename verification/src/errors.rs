use vstd::prelude::*;
use vstd::string::StringExecFns;
use crate::client::{ClientError, client_error_text};
use crate::transport::{TransportError, transport_error_text};

verus! {

/// The top-level failure type of the session manager and the
/// application flows around it.
#[derive(Debug, Clone, PartialEq)]
pub enum McpError {
    Transport(String),
    Protocol(String),
    ToolExecution(String),
    SecurityViolation(String),
    LlmError(String),
    IoError(String),
    JsonError(String),
    RequestError(String),
    ClientError(ClientError),
}

pub type McpResult<T> = Result<T, McpError>;

/// The text a top-level failure reads as.
pub open spec fn mcp_error_text(e: McpError) -> Seq<char> {
    match e {
        McpError::Transport(s) => "Transport error: "@ + s@,
        McpError::Protocol(s) => "Protocol error: "@ + s@,
        McpError::ToolExecution(s) => "Tool execution error: "@ + s@,
        McpError::SecurityViolation(s) => "Security violation: "@ + s@,
        McpError::LlmError(s) => "LLM error: "@ + s@,
        McpError::IoError(s) => "IO error: "@ + s@,
        McpError::JsonError(s) => "JSON error: "@ + s@,
        McpError::RequestError(s) => "Request error: "@ + s@,
        McpError::ClientError(c) => "Client error: "@ + client_error_text(c),
    }
}

impl McpError {
    /// Human-readable text of the failure.
    pub fn message(&self) -> (r: String)
        ensures
            r@ == mcp_error_text(*self),
    {
        match self {
            McpError::Transport(s) => "Transport error: ".to_owned().concat(s.as_str()),
            McpError::Protocol(s) => "Protocol error: ".to_owned().concat(s.as_str()),
            McpError::ToolExecution(s) => "Tool execution error: ".to_owned().concat(s.as_str()),
            McpError::SecurityViolation(s) => {
                "Security violation: ".to_owned().concat(s.as_str())
            },
            McpError::LlmError(s) => "LLM error: ".to_owned().concat(s.as_str()),
            McpError::IoError(s) => "IO error: ".to_owned().concat(s.as_str()),
            McpError::JsonError(s) => "JSON error: ".to_owned().concat(s.as_str()),
            McpError::RequestError(s) => "Request error: ".to_owned().concat(s.as_str()),
            McpError::ClientError(c) => {
                let inner = c.message();
                "Client error: ".to_owned().concat(inner.as_str())
            },
        }
    }
}

impl From<TransportError> for McpError {
    /// A transport failure carries over as its rendered text.
    fn from(e: TransportError) -> (r: McpError)
        ensures
            (r matches McpError::Transport(m) && m@ == transport_error_text(e)),
    {
        McpError::Transport(e.message())
    }
}

impl vstd::std_specs::convert::FromSpecImpl<TransportError> for McpError {
    open spec fn obeys_from_spec() -> bool {
        false
    }

    open spec fn from_spec(v: TransportError) -> McpError {
        arbitrary()
    }
}

impl From<ClientError> for McpError {
    /// A client failure carries over unchanged.
    fn from(e: ClientError) -> (r: McpError)
        ensures
            r == McpError::ClientError(e),
    {
        McpError::ClientError(e)
    }
}

impl vstd::std_specs::convert::FromSpecImpl<ClientError> for McpError {
    open spec fn obeys_from_spec() -> bool {
        true
    }

    open spec fn from_spec(v: ClientError) -> McpError {
        McpError::ClientError(v)
    }
}

} // verus!
