use vstd::prelude::*;
use crate::json::JsonValue;

verus! {

/// One chat message exchanged with the LLM collaborator.
#[derive(Debug, Clone, PartialEq)]
pub struct OllamaMessage {
    pub role: String,
    pub content: String,
}

/// One chat reply from the LLM collaborator, with its counters.
#[derive(Debug, Clone, PartialEq)]
pub struct OllamaResponse {
    pub model: String,
    pub created_at: String,
    pub message: OllamaMessage,
    pub done: bool,
    pub total_duration: Option<u64>,
    pub load_duration: Option<u64>,
    pub prompt_eval_count: Option<i32>,
    pub prompt_eval_duration: Option<u64>,
    pub eval_count: Option<i32>,
    pub eval_duration: Option<u64>,
}

/// A tool invocation the LLM asked for.
#[derive(Debug, PartialEq)]
pub struct ToolCall {
    pub id: String,
    pub name: String,
    pub arguments: JsonValue,
}

/// What the LLM handed back: plain text, or a tool invocation.
#[derive(Debug, PartialEq)]
pub enum MessageContent {
    Text(String),
    ToolCall(ToolCall),
}

} // verus!
