use mentem_api::ai::domain::{Message, MessageContent, Role, StopReason, StreamEvent, ToolCall, ToolResult};
use mentem_api::ai::error::AiError;
use mentem_api::ai::provider::{
    build_request, convert_messages, interpret_response, interpret_stream_event, map_provider_error,
    ProviderBlock, ProviderError, ProviderRole, ProviderStopReason, ProviderStreamEvent,
};

fn text(role: Role, t: &str) -> Message {
    Message { role, content: MessageContent::Text(t.to_string()) }
}

#[test]
fn messages_keep_order_and_text() {
    let messages = vec![
        text(Role::System, "be brief"),
        text(Role::User, "hi"),
        text(Role::Assistant, "hello"),
        Message {
            role: Role::Tool,
            content: MessageContent::ToolResult(ToolResult {
                tool_call_id: "1".to_string(),
                content: "42".to_string(),
                is_error: false,
            }),
        },
        Message {
            role: Role::Assistant,
            content: MessageContent::ToolCalls(vec![ToolCall {
                id: "1".to_string(),
                name: "calc".to_string(),
                arguments: serde_json::Value::Null,
            }]),
        },
    ];
    let out = convert_messages(&messages);
    let roles: Vec<ProviderRole> = out.iter().map(|m| m.role).collect();
    assert_eq!(
        roles,
        vec![ProviderRole::User, ProviderRole::User, ProviderRole::Assistant, ProviderRole::User, ProviderRole::Assistant]
    );
    let texts: Vec<&str> = out.iter().map(|m| m.text.as_str()).collect();
    assert_eq!(texts, vec!["be brief", "hi", "hello", "", ""]);
}

#[test]
fn request_uses_defaults_where_nothing_requested() {
    let messages = vec![text(Role::User, "hi")];
    let r = build_request(&messages, None, None, "default-model", 1024, false);
    assert_eq!(r.model, "default-model");
    assert_eq!(r.max_tokens, 1024);
    assert!(!r.stream);
    assert_eq!(r.messages.len(), 1);
    let r = build_request(&messages, Some("small"), Some(16), "default-model", 1024, true);
    assert_eq!(r.model, "small");
    assert_eq!(r.max_tokens, 16);
    assert!(r.stream);
}

#[test]
fn response_takes_first_text_block() {
    let r = interpret_response(
        &[ProviderBlock::Text("answer".to_string()), ProviderBlock::Text("more".to_string())],
        Some(ProviderStopReason::MaxTokens),
        10,
        20,
    );
    assert_eq!(r.message.role, Role::Assistant);
    assert!(matches!(r.message.content, MessageContent::Text(ref t) if t == "answer"));
    assert!(matches!(r.stop_reason, StopReason::MaxTokens));
    assert_eq!((r.usage.input_tokens, r.usage.output_tokens), (10, 20));
}

#[test]
fn response_without_text_is_empty_end_of_turn() {
    let r = interpret_response(&[ProviderBlock::Image], Some(ProviderStopReason::StopSequence), 0, 0);
    assert!(matches!(r.message.content, MessageContent::Text(ref t) if t.is_empty()));
    assert!(matches!(r.stop_reason, StopReason::EndOfTurn));
    let r = interpret_response(&[], None, 0, 0);
    assert!(matches!(r.message.content, MessageContent::Text(ref t) if t.is_empty()));
    assert!(matches!(r.stop_reason, StopReason::EndOfTurn));
    let r = interpret_response(&[], Some(ProviderStopReason::EndTurn), 0, 0);
    assert!(matches!(r.stop_reason, StopReason::EndOfTurn));
}

#[test]
fn usage_counts_are_cut_to_32_bits() {
    let big: usize = (1usize << 32) + 3;
    let r = interpret_response(&[], None, big, 7);
    assert_eq!(r.usage.input_tokens, 3);
    assert_eq!(r.usage.output_tokens, 7);
}

#[test]
fn stream_events_map_to_domain() {
    match interpret_stream_event(Ok(ProviderStreamEvent::TextDelta("he".to_string()))) {
        Ok(StreamEvent::TextDelta(t)) => assert_eq!(t, "he"),
        other => panic!("unexpected {:?}", other),
    }
    match interpret_stream_event(Ok(ProviderStreamEvent::MessageStop)) {
        Ok(StreamEvent::Done { stop_reason: StopReason::EndOfTurn, usage }) => {
            assert_eq!((usage.input_tokens, usage.output_tokens), (0, 0))
        }
        other => panic!("unexpected {:?}", other),
    }
    match interpret_stream_event(Ok(ProviderStreamEvent::Other)) {
        Ok(StreamEvent::TextDelta(t)) => assert!(t.is_empty()),
        other => panic!("unexpected {:?}", other),
    }
    match interpret_stream_event(Err("broken pipe".to_string())) {
        Err(AiError::Internal(d)) => assert_eq!(d, "broken pipe"),
        other => panic!("unexpected {:?}", other),
    }
}

fn api(t: &str) -> ProviderError {
    ProviderError::Api { error_type: t.to_string(), message: "msg".to_string() }
}

#[test]
fn api_errors_are_classified_by_type() {
    assert!(matches!(map_provider_error(api("insufficient_quota")), AiError::QuotaExceeded));
    assert!(matches!(map_provider_error(api("rate_limit_error")), AiError::ProviderRateLimited));
    assert!(matches!(map_provider_error(api("overloaded_error")), AiError::ProviderRateLimited));
    assert!(matches!(map_provider_error(api("authentication_error")), AiError::Unauthorized));
    assert!(matches!(map_provider_error(api("unauthorized")), AiError::Unauthorized));
    match map_provider_error(api("invalid_request_error")) {
        AiError::InvalidRequest(m) => assert_eq!(m, "msg"),
        other => panic!("unexpected {:?}", other),
    }
    match map_provider_error(api("api_error")) {
        AiError::Internal(d) => assert_eq!(d, "API error (api_error): msg"),
        other => panic!("unexpected {:?}", other),
    }
}

#[test]
fn client_errors_are_classified() {
    match map_provider_error(ProviderError::InvalidArgument("bad".to_string())) {
        AiError::InvalidRequest(m) => assert_eq!(m, "bad"),
        other => panic!("unexpected {:?}", other),
    }
    match map_provider_error(ProviderError::Other("http error: timeout".to_string())) {
        AiError::Internal(d) => assert_eq!(d, "http error: timeout"),
        other => panic!("unexpected {:?}", other),
    }
}

#[test]
fn ai_errors_answer_with_status_and_code() {
    let cases: Vec<(AiError, u16, &str, &str)> = vec![
        (AiError::ProviderUnavailable, 503, "provider_unavailable", "ai provider unavailable"),
        (AiError::ProviderRateLimited, 429, "provider_rate_limited", "ai provider rate limited"),
        (AiError::QuotaExceeded, 429, "quota_exceeded", "ai quota exceeded"),
        (AiError::InvalidRequest("x".to_string()), 400, "invalid_request", "invalid ai request: x"),
        (AiError::ConversationNotFound, 404, "conversation_not_found", "conversation not found"),
        (AiError::Unauthorized, 401, "unauthorized", "unauthorized"),
        (AiError::Internal("y".to_string()), 500, "internal_error", "internal error: y"),
    ];
    for (e, status, code, message) in cases {
        assert_eq!(e.status_and_code(), (status, code));
        assert_eq!(e.message(), message);
    }
}
