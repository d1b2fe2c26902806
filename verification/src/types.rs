use vstd::prelude::*;
use crate::json::JsonValue;

verus! {

/// Identity the client declares during the handshake.
#[derive(Debug, Clone, PartialEq)]
pub struct ClientInfo {
    pub name: String,
    pub version: String,
}

/// Identity the server reports during the handshake.
#[derive(Debug, Clone, PartialEq)]
pub struct ServerInfo {
    pub name: String,
    pub version: String,
}

/// Capability set declared during the handshake.
#[derive(Debug, Clone, PartialEq)]
pub struct Capabilities {
    pub tools: Option<ToolCapability>,
    pub resources: Option<ResourceCapability>,
    pub prompts: Option<PromptCapability>,
}

#[derive(Debug, Clone, PartialEq)]
pub struct ToolCapability {}

#[derive(Debug, Clone, PartialEq)]
pub struct ResourceCapability {}

#[derive(Debug, Clone, PartialEq)]
pub struct PromptCapability {}

/// A named callable action the server exposes, with its input schema.
#[derive(Debug, PartialEq)]
pub struct Tool {
    pub name: String,
    pub description: Option<String>,
    pub input_schema: JsonValue,
}

/// A readable item the server exposes, addressed by URI.
#[derive(Debug, Clone, PartialEq)]
pub struct Resource {
    pub uri: String,
    pub name: String,
    pub description: Option<String>,
}

/// A readable item family, addressed by a URI template.
#[derive(Debug, Clone, PartialEq)]
pub struct ResourceTemplate {
    pub uri_template: String,
    pub name: String,
    pub description: Option<String>,
}

/// A parameterized message template the server serves.
#[derive(Debug, Clone, PartialEq)]
pub struct Prompt {
    pub name: String,
    pub description: Option<String>,
    pub arguments: Option<Vec<PromptArgument>>,
}

#[derive(Debug, Clone, PartialEq)]
pub struct PromptArgument {
    pub name: String,
    pub description: Option<String>,
    pub required: Option<bool>,
}

#[derive(Debug, Clone, PartialEq)]
pub struct TextContent {
    pub text: String,
}

/// Response payload of a tool call: a sequence of content items.
#[derive(Debug, Clone, PartialEq)]
pub struct ToolResult {
    pub content: Vec<ToolResultContent>,
    pub is_error: Option<bool>,
}

/// One content item of a tool result: text, or a base64-encoded blob.
#[derive(Debug, Clone, PartialEq)]
pub enum ToolResultContent {
    Text { text: String },
    Blob { blob: String },
}

/// Response payload of a resource read.
#[derive(Debug, Clone, PartialEq)]
pub struct ResourceContent {
    pub contents: Vec<ContentItem>,
}

/// One content item of a resource read: text, or a base64-encoded blob.
#[derive(Debug, Clone, PartialEq)]
pub enum ContentItem {
    Text { text: String },
    Blob { blob: String },
}

/// Response payload of a prompt request.
#[derive(Debug, Clone, PartialEq)]
pub struct PromptsResult {
    pub messages: Vec<PromptMessage>,
}

#[derive(Debug, Clone, PartialEq)]
pub struct PromptMessage {
    pub role: String,
    pub content: String,
}

/// Outbound request envelope: protocol tag, numeric id, method, and
/// optional structured parameters.
#[derive(Debug, PartialEq)]
pub struct JsonRpcRequest {
    pub jsonrpc: String,
    pub id: u64,
    pub method: String,
    pub params: Option<JsonValue>,
}

/// Inbound response envelope: the request's id, and exactly one of a
/// result payload or a structured error.
#[derive(Debug, PartialEq)]
pub struct JsonRpcResponse {
    pub jsonrpc: String,
    pub id: i64,
    pub result: Option<JsonValue>,
    pub error: Option<JsonRpcError>,
}

/// Structured error of a response envelope.
#[derive(Debug, PartialEq)]
pub struct JsonRpcError {
    pub code: i32,
    pub message: String,
    pub data: Option<JsonValue>,
}

/// A message with a method but no id; no reply is owed for it.
#[derive(Debug, PartialEq)]
pub struct JsonRpcNotification {
    pub jsonrpc: String,
    pub method: String,
    pub params: Option<JsonValue>,
}

} // verus!
