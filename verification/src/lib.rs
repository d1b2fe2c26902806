//! A verified client core for a JSON-RPC based tool/resource/prompt
//! discovery protocol: message model, envelope codec, protocol client
//! state machine, and a multi-session manager.

pub mod json;
pub mod types;
pub mod transport;
pub mod codec;
pub mod client;
pub mod wire;
pub mod errors;
pub mod multi_server;
pub mod tool_manager;
pub mod validation;
pub mod security;
pub mod logging;
pub mod ollama;

pub use json::JsonValue;
pub use client::{MCPClient, ClientError, ClientResult, ClientState};
pub use errors::{McpError, McpResult};
pub use transport::{Transport, TransportError};
pub use types::{
    ClientInfo, ServerInfo, Capabilities, ToolCapability, ResourceCapability, PromptCapability,
    Tool, Resource, ResourceTemplate, Prompt, PromptArgument, TextContent, ToolResult,
    ToolResultContent, ResourceContent, ContentItem, PromptsResult, PromptMessage,
    JsonRpcRequest, JsonRpcResponse, JsonRpcError, JsonRpcNotification,
};
