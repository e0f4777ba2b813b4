//! Errors of the AI module and how each one is answered.

use vstd::prelude::*;

verus! {

/// Why an AI request failed.
#[derive(Debug, Clone)]
pub enum AiError {
    ProviderUnavailable,
    ProviderRateLimited,
    QuotaExceeded,
    InvalidRequest(String),
    ConversationNotFound,
    Unauthorized,
    /// A failure of the infrastructure, with its description.
    Internal(String),
}

/// The human readable description of an error.
pub open spec fn ai_error_message(e: AiError) -> Seq<char> {
    match e {
        AiError::ProviderUnavailable => "ai provider unavailable"@,
        AiError::ProviderRateLimited => "ai provider rate limited"@,
        AiError::QuotaExceeded => "ai quota exceeded"@,
        AiError::InvalidRequest(msg) => "invalid ai request: "@ + msg@,
        AiError::ConversationNotFound => "conversation not found"@,
        AiError::Unauthorized => "unauthorized"@,
        AiError::Internal(detail) => "internal error: "@ + detail@,
    }
}

/// The HTTP status with which an error is answered.
pub open spec fn ai_error_status(e: AiError) -> u16 {
    match e {
        AiError::ProviderUnavailable => 503,
        AiError::ProviderRateLimited => 429,
        AiError::QuotaExceeded => 429,
        AiError::InvalidRequest(_) => 400,
        AiError::ConversationNotFound => 404,
        AiError::Unauthorized => 401,
        AiError::Internal(_) => 500,
    }
}

/// The machine readable code carried in the body of the answer.
pub open spec fn ai_error_code(e: AiError) -> Seq<char> {
    match e {
        AiError::ProviderUnavailable => "provider_unavailable"@,
        AiError::ProviderRateLimited => "provider_rate_limited"@,
        AiError::QuotaExceeded => "quota_exceeded"@,
        AiError::InvalidRequest(_) => "invalid_request"@,
        AiError::ConversationNotFound => "conversation_not_found"@,
        AiError::Unauthorized => "unauthorized"@,
        AiError::Internal(_) => "internal_error"@,
    }
}

impl AiError {
    /// The description of the error, as shown to operators.
    pub fn message(&self) -> (m: String)
        ensures
            m@ == ai_error_message(*self),
    {
        match self {
            AiError::ProviderUnavailable => String::from_str("ai provider unavailable"),
            AiError::ProviderRateLimited => String::from_str("ai provider rate limited"),
            AiError::QuotaExceeded => String::from_str("ai quota exceeded"),
            AiError::InvalidRequest(msg) => String::from_str("invalid ai request: ").concat(msg.as_str()),
            AiError::ConversationNotFound => String::from_str("conversation not found"),
            AiError::Unauthorized => String::from_str("unauthorized"),
            AiError::Internal(detail) => String::from_str("internal error: ").concat(detail.as_str()),
        }
    }

    /// The HTTP status and the error code with which the error is answered.
    pub fn status_and_code(&self) -> (r: (u16, &'static str))
        ensures
            r.0 == ai_error_status(*self),
            r.1@ == ai_error_code(*self),
    {
        match self {
            AiError::ProviderUnavailable => (503, "provider_unavailable"),
            AiError::ProviderRateLimited => (429, "provider_rate_limited"),
            AiError::QuotaExceeded => (429, "quota_exceeded"),
            AiError::InvalidRequest(_) => (400, "invalid_request"),
            AiError::ConversationNotFound => (404, "conversation_not_found"),
            AiError::Unauthorized => (401, "unauthorized"),
            AiError::Internal(_) => (500, "internal_error"),
        }
    }
}

/// How each AI error is answered: an unavailable provider with 503, rate
/// limits and exhausted quota with 429, an invalid request with 400, a
/// missing conversation with 404, missing authorization with 401, and an
/// infrastructure failure with 500; with these codes and descriptions.
pub proof fn lemma_ai_error_answers(msg: String, detail: String)
    ensures
        ai_error_status(AiError::ProviderUnavailable) == 503,
        ai_error_status(AiError::ProviderRateLimited) == 429,
        ai_error_status(AiError::QuotaExceeded) == 429,
        ai_error_status(AiError::InvalidRequest(msg)) == 400,
        ai_error_status(AiError::ConversationNotFound) == 404,
        ai_error_status(AiError::Unauthorized) == 401,
        ai_error_status(AiError::Internal(detail)) == 500,
        ai_error_code(AiError::ProviderUnavailable) == "provider_unavailable"@,
        ai_error_code(AiError::ProviderRateLimited) == "provider_rate_limited"@,
        ai_error_code(AiError::QuotaExceeded) == "quota_exceeded"@,
        ai_error_code(AiError::InvalidRequest(msg)) == "invalid_request"@,
        ai_error_code(AiError::ConversationNotFound) == "conversation_not_found"@,
        ai_error_code(AiError::Unauthorized) == "unauthorized"@,
        ai_error_code(AiError::Internal(detail)) == "internal_error"@,
        ai_error_message(AiError::ProviderUnavailable) == "ai provider unavailable"@,
        ai_error_message(AiError::ProviderRateLimited) == "ai provider rate limited"@,
        ai_error_message(AiError::QuotaExceeded) == "ai quota exceeded"@,
        ai_error_message(AiError::InvalidRequest(msg)) == "invalid ai request: "@ + msg@,
        ai_error_message(AiError::ConversationNotFound) == "conversation not found"@,
        ai_error_message(AiError::Unauthorized) == "unauthorized"@,
        ai_error_message(AiError::Internal(detail)) == "internal error: "@ + detail@,
{
}

} // verus!
