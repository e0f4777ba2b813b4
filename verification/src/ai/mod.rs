//! AI assistance: the conversation domain, its errors, and the mapping
//! between the domain and the model provider's messages API.

pub mod domain;
pub mod error;
pub mod provider;

pub use domain::{
    ChatResponse, Conversation, ConversationId, Message, MessageContent, Role, StopReason,
    StreamEvent, ToolCall, ToolDefinition, ToolResult, Usage,
};
pub use error::AiError;
