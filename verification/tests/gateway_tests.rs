use chat_gateway::envelope::{settle, CallOutcome, Envelope};
use chat_gateway::gateway::{
    prepare, resolve_timeout_secs, GatewayRequest, GatewayStep, DEFAULT_TIMEOUT_SECS,
};
use chat_gateway::health::ping_response;
use chat_gateway::messages::{translate_conversation, ChatMessage, Role};

fn request_with(messages: Vec<ChatMessage>, timeout_secs: Option<u64>) -> GatewayRequest {
    GatewayRequest {
        api_key: "test-key".to_owned(),
        model: "gpt-3.5-turbo".to_owned(),
        max_tokens: 10,
        temperature_bits: 0f32.to_bits(),
        timeout_secs,
        messages,
    }
}

fn user_message(content: &str) -> ChatMessage {
    ChatMessage {
        role: Role::User,
        content: content.to_owned(),
    }
}

#[test]
fn ping_is_always_ok() {
    let r = ping_response();
    assert_eq!(r.status, "ok");
    let again = ping_response();
    assert_eq!(again.status, "ok");
}

#[test]
fn nonempty_request_dispatches_exactly_one_call() {
    let req = request_with(vec![user_message("hello")], Some(30));
    match prepare(req) {
        GatewayStep::Dispatch { call } => {
            assert_eq!(call.timeout_secs, 30);
            assert_eq!(call.upstream.model, "gpt-3.5-turbo");
            assert_eq!(call.upstream.max_tokens, 10);
            assert_eq!(call.upstream.messages.len(), 1);
        }
        GatewayStep::Reject { .. } => panic!("a non-empty conversation must dispatch"),
    }
}

#[test]
fn empty_request_is_rejected_without_a_call() {
    let req = request_with(vec![], None);
    match prepare(req) {
        GatewayStep::Reject { error } => {
            assert_eq!(error, "No response from GPT-3.5 Turbo");
        }
        GatewayStep::Dispatch { .. } => panic!("an empty conversation must not dispatch"),
    }
}

#[test]
fn empty_request_settles_as_failure_envelope() {
    let req = request_with(vec![], None);
    let error = match prepare(req) {
        GatewayStep::Reject { error } => error,
        GatewayStep::Dispatch { .. } => panic!("an empty conversation must not dispatch"),
    };
    let wire = Envelope::<String>::failure(error).to_wire();
    assert!(!wire.success);
    assert!(wire.openai_answer.is_none());
    let message = wire.error.expect("a rejection must carry an error");
    assert!(!message.is_empty());
}

#[test]
fn omitted_timeout_defaults_to_120_seconds() {
    assert_eq!(DEFAULT_TIMEOUT_SECS, 120);
    assert_eq!(resolve_timeout_secs(&None), 120);
    let req = request_with(vec![user_message("hi")], None);
    match prepare(req) {
        GatewayStep::Dispatch { call } => assert_eq!(call.timeout_secs, 120),
        GatewayStep::Reject { .. } => panic!("a non-empty conversation must dispatch"),
    }
}

#[test]
fn caller_timeout_is_honoured() {
    assert_eq!(resolve_timeout_secs(&Some(5)), 5);
    assert_eq!(resolve_timeout_secs(&Some(0)), 0);
}

#[test]
fn translation_preserves_order_role_and_content() {
    let conversation = vec![
        ChatMessage {
            role: Role::System,
            content: "you are terse".to_owned(),
        },
        ChatMessage {
            role: Role::User,
            content: "hello".to_owned(),
        },
        ChatMessage {
            role: Role::Assistant,
            content: "hi".to_owned(),
        },
        ChatMessage {
            role: Role::Function,
            content: "{}".to_owned(),
        },
    ];
    let translated = translate_conversation(&conversation);
    assert_eq!(translated.len(), 4);
    let roles = [Role::System, Role::User, Role::Assistant, Role::Function];
    let contents = ["you are terse", "hello", "hi", "{}"];
    for (i, u) in translated.iter().enumerate() {
        assert_eq!(u.role, roles[i]);
        assert_eq!(u.content.as_deref(), Some(contents[i]));
        assert!(u.name.is_none());
        assert!(u.function_call.is_none());
    }
}

#[test]
fn round_trip_with_stubbed_upstream() {
    let req = request_with(vec![user_message("hello")], None);
    let call = match prepare(req) {
        GatewayStep::Dispatch { call } => call,
        GatewayStep::Reject { .. } => panic!("a non-empty conversation must dispatch"),
    };
    assert_eq!(call.upstream.model, "gpt-3.5-turbo");
    assert_eq!(call.upstream.max_tokens, 10);
    assert_eq!(call.upstream.temperature_bits, 0f32.to_bits());
    assert_eq!(call.upstream.messages.len(), 1);
    assert_eq!(call.upstream.messages[0].role, Role::User);
    assert_eq!(call.upstream.messages[0].content.as_deref(), Some("hello"));

    // The upstream is stubbed: it echoes back a fixed completion object.
    let stub_answer = "a fixed completion object".to_owned();
    let wire = settle(CallOutcome::Completed {
        answer: stub_answer.clone(),
    })
    .to_wire();
    assert!(wire.success);
    assert_eq!(wire.openai_answer, Some(stub_answer));
    assert!(wire.error.is_none());
}

#[test]
fn timeout_outcome_settles_as_failure() {
    let wire = settle(CallOutcome::<String>::TimedOut).to_wire();
    assert!(!wire.success);
    assert!(wire.openai_answer.is_none());
    assert_eq!(wire.error.as_deref(), Some("deadline has elapsed"));
}

#[test]
fn failed_outcome_carries_the_reported_error() {
    let wire = settle(CallOutcome::<String>::Failed {
        error: "connection refused".to_owned(),
    })
    .to_wire();
    assert!(!wire.success);
    assert!(wire.openai_answer.is_none());
    assert_eq!(wire.error.as_deref(), Some("connection refused"));
}

#[test]
fn temperature_bits_round_trip() {
    let req = request_with(vec![user_message("hello")], None);
    match prepare(req) {
        GatewayStep::Dispatch { call } => {
            assert_eq!(f32::from_bits(call.upstream.temperature_bits), 0.0);
        }
        GatewayStep::Reject { .. } => panic!("a non-empty conversation must dispatch"),
    }
}

#[test]
fn api_key_and_timeout_reach_the_prepared_call() {
    let req = request_with(vec![user_message("hello")], Some(7));
    match prepare(req) {
        GatewayStep::Dispatch { call } => {
            assert_eq!(call.api_key, "test-key");
            assert_eq!(call.timeout_secs, 7);
        }
        GatewayStep::Reject { .. } => panic!("a non-empty conversation must dispatch"),
    }
}
