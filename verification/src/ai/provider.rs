//! The mapping between the AI domain and the model provider's messages API.
//! The provider's own types are mirrored here one for one; sending the
//! request and reading the answer is the caller's work.

use vstd::prelude::*;

use super::domain::{ChatResponse, Message, MessageContent, Role, StopReason, StreamEvent, Usage};
use super::error::AiError;
use crate::text::str_eq;

verus! {

/// Who speaks in a message, as the provider knows it.
#[derive(Debug, Clone, Copy, PartialEq, Eq, Structural)]
pub enum ProviderRole {
    User,
    Assistant,
}

/// A message as the provider receives it: one text block.
#[derive(Debug, Clone)]
pub struct ProviderMessage {
    pub role: ProviderRole,
    pub text: String,
}

/// A request to the provider's messages API. The sampling temperature is
/// set by the caller.
#[derive(Debug, Clone)]
pub struct ProviderRequest {
    pub model: String,
    pub messages: Vec<ProviderMessage>,
    pub max_tokens: usize,
    pub stream: bool,
}

/// A block of content in the provider's answer.
#[derive(Debug, Clone)]
pub enum ProviderBlock {
    Text(String),
    Image,
}

/// Why the provider stopped.
#[derive(Debug, Clone, Copy, PartialEq, Eq, Structural)]
pub enum ProviderStopReason {
    EndTurn,
    MaxTokens,
    StopSequence,
}

/// An event of the provider's stream, as far as it matters here.
#[derive(Debug, Clone)]
pub enum ProviderStreamEvent {
    TextDelta(String),
    MessageStop,
    /// Any other event (message start, block start and stop, message delta).
    Other,
}

/// A failure of the provider's client.
#[derive(Debug, Clone)]
pub enum ProviderError {
    /// An error object returned by the API, with its type and message.
    Api { error_type: String, message: String },
    /// A request that the client refused before sending it.
    InvalidArgument(String),
    /// Any other failure, with its description.
    Other(String),
}

/// The provider's role for a domain role: assistants stay assistants,
/// everyone else speaks as the user.
pub open spec fn provider_role(role: Role) -> ProviderRole {
    match role {
        Role::Assistant => ProviderRole::Assistant,
        _ => ProviderRole::User,
    }
}

/// The text sent for a message's content: its text, or nothing for tool
/// calls and tool results.
pub open spec fn provider_text(content: MessageContent) -> Seq<char> {
    match content {
        MessageContent::Text(t) => t@,
        _ => Seq::empty(),
    }
}

/// The provider's message for a domain message.
pub fn convert_message(message: &Message) -> (r: ProviderMessage)
    ensures
        r.role == provider_role(message.role),
        r.text@ == provider_text(message.content),
{
    let role = match message.role {
        Role::Assistant => ProviderRole::Assistant,
        _ => ProviderRole::User,
    };
    let text = match &message.content {
        MessageContent::Text(t) => t.clone(),
        _ => String::new(),
    };
    ProviderMessage { role, text }
}

/// The provider's messages for the domain messages, in the same order.
pub fn convert_messages(messages: &[Message]) -> (r: Vec<ProviderMessage>)
    ensures
        r@.len() == messages@.len(),
        forall|i: int|
            0 <= i < messages@.len() ==> #[trigger] r@[i].role == provider_role(messages@[i].role)
                && r@[i].text@ == provider_text(messages@[i].content),
{
    let mut out: Vec<ProviderMessage> = Vec::new();
    let n = messages.len();
    let mut i: usize = 0;
    while i < n
        invariant
            n == messages@.len(),
            i <= n,
            out@.len() == i,
            forall|j: int|
                0 <= j < i ==> #[trigger] out@[j].role == provider_role(messages@[j].role)
                    && out@[j].text@ == provider_text(messages@[j].content),
        decreases n - i,
    {
        out.push(convert_message(&messages[i]));
        i = i + 1;
    }
    out
}

/// The request for a conversation: the requested model and token budget,
/// or the defaults where none was requested.
pub fn build_request(
    messages: &[Message],
    model: Option<&str>,
    max_tokens: Option<u32>,
    default_model: &str,
    default_max_tokens: u32,
    stream: bool,
) -> (r: ProviderRequest)
    ensures
        r.model@ == (match model {
            Some(m) => m@,
            None => default_model@,
        }),
        r.max_tokens == (match max_tokens {
            Some(n) => n,
            None => default_max_tokens,
        }),
        r.messages@.len() == messages@.len(),
        forall|i: int|
            0 <= i < messages@.len() ==> #[trigger] r.messages@[i].role == provider_role(
                messages@[i].role,
            ) && r.messages@[i].text@ == provider_text(messages@[i].content),
        r.stream == stream,
{
    let model = match model {
        Some(m) => m.to_owned(),
        None => default_model.to_owned(),
    };
    let max_tokens = match max_tokens {
        Some(n) => n,
        None => default_max_tokens,
    };
    ProviderRequest {
        model,
        messages: convert_messages(messages),
        max_tokens: max_tokens as usize,
        stream,
    }
}

/// The text of the first block of an answer: a text block's text, or
/// nothing for another block or no block at all.
pub open spec fn answer_text(content: Seq<ProviderBlock>) -> Seq<char> {
    if content.len() > 0 {
        match content[0] {
            ProviderBlock::Text(t) => t@,
            ProviderBlock::Image => Seq::empty(),
        }
    } else {
        Seq::empty()
    }
}

/// The domain's stop reason for the provider's: only `max_tokens` is told
/// apart; a stop sequence, a natural stop or none is the end of the turn.
pub open spec fn domain_stop_reason(stop: Option<ProviderStopReason>) -> StopReason {
    match stop {
        Some(ProviderStopReason::MaxTokens) => StopReason::MaxTokens,
        _ => StopReason::EndOfTurn,
    }
}

/// The domain's answer for the provider's: an assistant message with the
/// text of the first block, the stop reason, and the token counts cut to
/// 32 bits.
pub fn interpret_response(
    content: &[ProviderBlock],
    stop_reason: Option<ProviderStopReason>,
    input_tokens: usize,
    output_tokens: usize,
) -> (r: ChatResponse)
    ensures
        r.message.role == Role::Assistant,
        r.message.content matches MessageContent::Text(t) && t@ == answer_text(content@),
        r.stop_reason == domain_stop_reason(stop_reason),
        r.usage.input_tokens == input_tokens as u32,
        r.usage.output_tokens == output_tokens as u32,
{
    let text = if content.len() > 0 {
        match &content[0] {
            ProviderBlock::Text(t) => t.clone(),
            ProviderBlock::Image => String::new(),
        }
    } else {
        String::new()
    };
    let stop = match stop_reason {
        Some(ProviderStopReason::MaxTokens) => StopReason::MaxTokens,
        _ => StopReason::EndOfTurn,
    };
    ChatResponse {
        message: Message { role: Role::Assistant, content: MessageContent::Text(text) },
        stop_reason: stop,
        usage: Usage { input_tokens: input_tokens as u32, output_tokens: output_tokens as u32 },
    }
}

/// The domain's stream event for one item of the provider's stream: a text
/// delta passes through, the message stop ends the turn with no usage
/// counted, any other event is an empty delta, and a failed item fails with
/// `Internal` and its description.
pub fn interpret_stream_event(event: Result<ProviderStreamEvent, String>) -> (r: Result<
    StreamEvent,
    AiError,
>)
    ensures
        (match event {
            Ok(ProviderStreamEvent::TextDelta(t)) => r matches Ok(StreamEvent::TextDelta(d))
                && d@ == t@,
            Ok(ProviderStreamEvent::MessageStop) => r matches Ok(
                StreamEvent::Done { stop_reason, usage },
            ) && stop_reason is EndOfTurn && usage == (Usage {
                input_tokens: 0,
                output_tokens: 0,
            }),
            Ok(ProviderStreamEvent::Other) => r matches Ok(StreamEvent::TextDelta(d)) && d@
                == Seq::<char>::empty(),
            Err(e) => r matches Err(AiError::Internal(d)) && d@ == e@,
        }),
{
    match event {
        Ok(ProviderStreamEvent::TextDelta(text)) => Ok(StreamEvent::TextDelta(text)),
        Ok(ProviderStreamEvent::MessageStop) => Ok(
            StreamEvent::Done {
                stop_reason: StopReason::EndOfTurn,
                usage: Usage { input_tokens: 0, output_tokens: 0 },
            },
        ),
        Ok(ProviderStreamEvent::Other) => Ok(StreamEvent::TextDelta(String::new())),
        Err(e) => Err(AiError::Internal(e)),
    }
}

/// Whether `r` is the domain's error for an API error of the given type and
/// message: quota, rate-limit and authentication types have their own
/// errors, an invalid request keeps its message, and any other type is
/// `Internal` with both.
pub open spec fn is_api_error_class(error_type: Seq<char>, message: Seq<char>, r: AiError) -> bool {
    if error_type == "insufficient_quota"@ {
        r is QuotaExceeded
    } else if error_type == "rate_limit_error"@ || error_type == "overloaded_error"@ {
        r is ProviderRateLimited
    } else if error_type == "authentication_error"@ || error_type == "unauthorized"@ {
        r is Unauthorized
    } else if error_type == "invalid_request_error"@ {
        r matches AiError::InvalidRequest(m) && m@ == message
    } else {
        r matches AiError::Internal(d) && d@ == "API error ("@ + error_type + "): "@ + message
    }
}

/// The domain's error for a failure of the provider's client: API errors by
/// their type, refused arguments as invalid requests, anything else as
/// `Internal` with its description.
pub fn map_provider_error(error: ProviderError) -> (r: AiError)
    ensures
        (match error {
            ProviderError::Api { error_type, message } => is_api_error_class(
                error_type@,
                message@,
                r,
            ),
            ProviderError::InvalidArgument(msg) => r matches AiError::InvalidRequest(m) && m@
                == msg@,
            ProviderError::Other(desc) => r matches AiError::Internal(d) && d@ == desc@,
        }),
{
    match error {
        ProviderError::Api { error_type, message } => {
            let t = error_type.as_str();
            if str_eq(t, "insufficient_quota") {
                AiError::QuotaExceeded
            } else if str_eq(t, "rate_limit_error") || str_eq(t, "overloaded_error") {
                AiError::ProviderRateLimited
            } else if str_eq(t, "authentication_error") || str_eq(t, "unauthorized") {
                AiError::Unauthorized
            } else if str_eq(t, "invalid_request_error") {
                AiError::InvalidRequest(message)
            } else {
                let detail = String::from_str("API error (").concat(t).concat("): ").concat(
                    message.as_str(),
                );
                AiError::Internal(detail)
            }
        },
        ProviderError::InvalidArgument(msg) => AiError::InvalidRequest(msg),
        ProviderError::Other(desc) => AiError::Internal(desc),
    }
}

/// An API error of a type other than the quota, rate-limit, overload,
/// authentication and invalid-request types is an `Internal` error whose
/// text is `API error (<type>): <message>`.
pub proof fn lemma_other_api_errors_are_internal(
    error_type: Seq<char>,
    message: Seq<char>,
    r: AiError,
)
    requires
        is_api_error_class(error_type, message, r),
        error_type != "insufficient_quota"@,
        error_type != "rate_limit_error"@,
        error_type != "overloaded_error"@,
        error_type != "authentication_error"@,
        error_type != "unauthorized"@,
        error_type != "invalid_request_error"@,
    ensures
        r matches AiError::Internal(d) && d@ == "API error ("@ + error_type + "): "@ + message,
{
}

/// The listed API error types map to their own errors: quota to
/// `QuotaExceeded`, rate limit and overload to `ProviderRateLimited`,
/// authentication and unauthorized to `Unauthorized`, and an invalid request
/// to `InvalidRequest` with the message unchanged.
pub proof fn lemma_listed_api_errors(error_type: Seq<char>, message: Seq<char>, r: AiError)
    requires
        is_api_error_class(error_type, message, r),
    ensures
        error_type == "insufficient_quota"@ ==> r == AiError::QuotaExceeded,
        error_type == "rate_limit_error"@ ==> r == AiError::ProviderRateLimited,
        error_type == "overloaded_error"@ ==> r == AiError::ProviderRateLimited,
        error_type == "authentication_error"@ ==> r == AiError::Unauthorized,
        error_type == "unauthorized"@ ==> r == AiError::Unauthorized,
        error_type == "invalid_request_error"@ ==> (r matches AiError::InvalidRequest(m) && m@
            == message),
{
    reveal_strlit("insufficient_quota");
    reveal_strlit("rate_limit_error");
    reveal_strlit("overloaded_error");
    reveal_strlit("authentication_error");
    reveal_strlit("unauthorized");
    reveal_strlit("invalid_request_error");
    assert("rate_limit_error"@.len() != "insufficient_quota"@.len());
    assert("overloaded_error"@.len() != "insufficient_quota"@.len());
    assert("invalid_request_error"@.len() == 21);
    assert("insufficient_quota"@.len() == 18);
    assert("rate_limit_error"@.len() == 16);
    assert("overloaded_error"@.len() == 16);
    assert("authentication_error"@.len() == 20);
    assert("unauthorized"@.len() == 12);
}

/// A text message is sent to the provider whole: its text, every character
/// of it and nothing more, under the provider's role for its author.
pub proof fn lemma_text_message_sent_whole(role: Role, text: String, r: ProviderMessage)
    requires
        r.role == provider_role(role),
        r.text@ == provider_text(MessageContent::Text(text)),
    ensures
        r.text@ == text@,
        r.text@.len() == text@.len(),
        role is Assistant ==> r.role is Assistant,
        !(role is Assistant) ==> r.role is User,
{
}

/// Only the assistant speaks as the assistant to the provider: every other
/// role (system, user, tool) is sent as the user.
pub proof fn lemma_roles_sent(role: Role)
    ensures
        provider_role(role) == ProviderRole::Assistant <==> role == Role::Assistant,
        provider_role(role) == ProviderRole::Assistant || provider_role(role) == ProviderRole::User,
{
}

/// A tool call or tool result is sent as an empty text.
pub proof fn lemma_non_text_sent_empty(content: MessageContent)
    requires
        !(content is Text),
    ensures
        provider_text(content).len() == 0,
{
}

/// An answer's text is that of its first block when that block is text,
/// whatever follows; an answer with no block, or an image first, has no
/// text.
pub proof fn lemma_answer_text_is_first_text_block(text: String, rest: Seq<ProviderBlock>)
    ensures
        answer_text(seq![ProviderBlock::Text(text)] + rest) == text@,
        answer_text(seq![ProviderBlock::Image] + rest).len() == 0,
        answer_text(Seq::<ProviderBlock>::empty()).len() == 0,
{
    assert((seq![ProviderBlock::Text(text)] + rest)[0] == ProviderBlock::Text(text));
    assert((seq![ProviderBlock::Image] + rest)[0] == ProviderBlock::Image);
}

/// Only a stop at the token budget is told apart; a natural stop, a stop
/// sequence or no reason at all ends the turn.
pub proof fn lemma_stop_reasons()
    ensures
        domain_stop_reason(Some(ProviderStopReason::MaxTokens)) == StopReason::MaxTokens,
        domain_stop_reason(Some(ProviderStopReason::EndTurn)) == StopReason::EndOfTurn,
        domain_stop_reason(Some(ProviderStopReason::StopSequence)) == StopReason::EndOfTurn,
        domain_stop_reason(None) == StopReason::EndOfTurn,
{
}

} // verus!
