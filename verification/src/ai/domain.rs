//! Conversations with a language model.

use vstd::prelude::*;

use crate::auth::domain::UserId;

verus! {

/// The identifier of a conversation: the 128 bits of its UUID.
pub type ConversationId = u128;

#[verifier::external_type_specification]
#[verifier::external_body]
pub struct ExJsonValue(serde_json::Value);

/// A copy of a JSON value. Trusted: `serde_json::Value`'s `Clone` is
/// derived, so the copy is the same value.
pub assume_specification[ <serde_json::Value as Clone>::clone ](v: &serde_json::Value) -> (r:
    serde_json::Value)
    ensures
        r == *v,
;

/// Who speaks in a message.
#[derive(Debug, Clone, Copy, PartialEq, Eq, Structural)]
pub enum Role {
    System,
    User,
    Assistant,
    Tool,
}

/// What a message says.
#[derive(Debug, Clone)]
pub enum MessageContent {
    Text(String),
    ToolCalls(Vec<ToolCall>),
    ToolResult(ToolResult),
}

#[derive(Debug, Clone)]
pub struct Message {
    pub role: Role,
    pub content: MessageContent,
}

/// A tool that the model may call, with the JSON schema of its parameters.
#[derive(Debug, Clone)]
pub struct ToolDefinition {
    pub name: String,
    pub description: String,
    pub parameters_schema: serde_json::Value,
}

/// A call of a tool that the model asked for.
#[derive(Debug, Clone)]
pub struct ToolCall {
    pub id: String,
    pub name: String,
    pub arguments: serde_json::Value,
}

/// What a tool call gave.
#[derive(Debug, Clone)]
pub struct ToolResult {
    pub tool_call_id: String,
    pub content: String,
    pub is_error: bool,
}

/// Why the model stopped.
#[derive(Debug, Clone)]
pub enum StopReason {
    EndOfTurn,
    ToolUse,
    MaxTokens,
    Refusal,
    Other(String),
}

/// Tokens that a request consumed.
#[derive(Debug, Clone, Copy, PartialEq, Eq, Structural)]
pub struct Usage {
    pub input_tokens: u32,
    pub output_tokens: u32,
}

#[derive(Debug, Clone)]
pub struct ChatResponse {
    pub message: Message,
    pub stop_reason: StopReason,
    pub usage: Usage,
}

/// A piece of a streamed answer.
#[derive(Debug, Clone)]
pub enum StreamEvent {
    TextDelta(String),
    ToolCall(ToolCall),
    Done { stop_reason: StopReason, usage: Usage },
}

/// A conversation of a user, with times in seconds since the Unix epoch.
#[derive(Debug, Clone)]
pub struct Conversation {
    pub id: ConversationId,
    pub user_id: UserId,
    pub messages: Vec<Message>,
    pub created_at: i64,
    pub updated_at: i64,
}

} // verus!
