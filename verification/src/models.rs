//! Provider-neutral model contracts.

use vstd::prelude::*;

verus! {

/// A single-prompt completion request.
#[derive(Debug, Clone)]
pub struct ModelRequest {
    pub prompt: String,
}

/// A single-prompt completion.
#[derive(Debug, Clone)]
pub struct ModelResponse {
    pub message: String,
}

/// Why a model could not answer.
#[derive(Debug)]
pub enum ModelError {
    Provider(String),
    Unsupported(String),
}

/// The identifier a provider knows a model by.
#[derive(Debug, Clone)]
pub struct ModelId(pub String);

/// Tokens consumed by one or more model calls.
#[derive(Debug, Clone, Copy, PartialEq, Eq, Structural)]
pub struct Usage {
    pub input_tokens: u64,
    pub output_tokens: u64,
}

impl Default for Usage {
    fn default() -> (u: Self)
        ensures
            u.input_tokens == 0,
            u.output_tokens == 0,
    {
        Usage { input_tokens: 0, output_tokens: 0 }
    }
}

/// Who speaks in a conversation turn.
#[derive(Debug, Clone, Copy, PartialEq, Eq, Structural)]
pub enum MessageRole {
    System,
    User,
    Assistant,
    Tool,
}

/// One message of a conversation; tool results name their tool and call.
#[derive(Debug)]
pub struct ChatMessage {
    pub role: MessageRole,
    pub content: String,
    pub name: Option<String>,
    pub tool_call_id: Option<String>,
}

pub fn clone_opt_string(s: &Option<String>) -> (r: Option<String>)
    ensures
        r == *s,
{
    match s {
        Some(v) => Some(v.clone()),
        None => None,
    }
}

impl Clone for ChatMessage {
    fn clone(&self) -> (m: Self)
        ensures
            m == *self,
    {
        ChatMessage {
            role: self.role,
            content: self.content.clone(),
            name: clone_opt_string(&self.name),
            tool_call_id: clone_opt_string(&self.tool_call_id),
        }
    }
}

impl ChatMessage {
    pub fn new(role: MessageRole, content: &str) -> (m: Self)
        ensures
            m.role == role,
            m.content@ == content@,
            m.name is None,
            m.tool_call_id is None,
    {
        ChatMessage { role, content: content.to_owned(), name: None, tool_call_id: None }
    }

    /// The result of a tool call, correlated with the call by its id.
    pub fn tool(name: String, tool_call_id: String, content: String) -> (m: Self)
        ensures
            m.role == MessageRole::Tool,
            m.content == content,
            m.name == Some(name),
            m.tool_call_id == Some(tool_call_id),
    {
        ChatMessage { role: MessageRole::Tool, content, name: Some(name), tool_call_id: Some(tool_call_id) }
    }
}

/// A model's request to run a tool.
#[derive(Debug, Clone)]
pub struct ToolCall {
    pub id: String,
    pub name: String,
    pub arguments: serde_json::Value,
}

/// A tool as a model is told of it.
#[derive(Debug, Clone)]
pub struct ModelToolDefinition {
    pub name: String,
    pub description: String,
    pub input_schema: serde_json::Value,
}

/// What a provider can do.
#[derive(Debug, Clone, Copy, PartialEq, Eq, Structural)]
pub struct ModelCapabilities {
    pub tool_calling: bool,
    pub streaming: bool,
}

/// One conversational model turn: the answering model, its message, the tool
/// calls it asks for, and what it cost.
#[derive(Debug)]
pub struct ModelReply {
    pub model: ModelId,
    pub message: ChatMessage,
    pub tool_calls: Vec<ToolCall>,
    pub usage: Usage,
}

} // verus!

verus! {

impl ModelError {
    /// Whether `text` is how the error reads.
    pub open spec fn message_is(&self, text: Seq<char>) -> bool {
        text == match self {
            ModelError::Provider(m) => "model provider error: "@ + m@,
            ModelError::Unsupported(c) => "model capability unsupported: "@ + c@,
        }
    }

    /// How the error reads.
    pub fn message(&self) -> (r: String)
        ensures
            self.message_is(r@),
    {
        match self {
            ModelError::Provider(m) => crate::text::prefixed("model provider error: ", m.as_str()),
            ModelError::Unsupported(c) => crate::text::prefixed("model capability unsupported: ", c.as_str()),
        }
    }
}

} // verus!
