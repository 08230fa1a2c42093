use context_engine::context::{CompileConfig, Context, TurnMetrics};
use context_engine::effect::{Effect, Intent, Scope};
use context_engine::infer::{InferResponse, StopReason, TokenUsage};
use context_engine::message::{Content, Message, Role};
use rust_decimal::Decimal;

fn make_text_response(text: &str) -> InferResponse {
    InferResponse {
        content: Content::text(text),
        tool_calls: vec![],
        stop_reason: StopReason::EndTurn,
        usage: TokenUsage { input_tokens: 10, output_tokens: 5 },
        model: "test".to_string(),
        cost: None,
    }
}

#[test]
fn compile_produces_request_with_messages() {
    let mut ctx = Context::new();
    ctx.push_message(Message::new(Role::User, Content::text("hello")));

    let config = CompileConfig {
        system: Some("You are helpful.".into()),
        model: Some("test-model".into()),
        max_tokens: Some(1024),
        ..Default::default()
    };

    let compiled = ctx.compile(&config);
    assert_eq!(compiled.request.messages.len(), 1);
    assert_eq!(compiled.request.system.as_deref(), Some("You are helpful."));
    assert_eq!(compiled.request.model.as_deref(), Some("test-model"));
    assert_eq!(compiled.request.max_tokens, Some(1024));
}

#[test]
fn compile_does_not_consume_context() {
    let mut ctx = Context::new();
    ctx.push_message(Message::new(Role::User, Content::text("hello")));

    let config = CompileConfig::default();
    let _compiled = ctx.compile(&config);

    assert_eq!(ctx.messages().len(), 1);
}

#[test]
fn push_message_adds_to_end() {
    let mut ctx = Context::new();
    ctx.push_message(Message::new(Role::User, Content::text("hello")));
    assert_eq!(ctx.messages().len(), 1);
    assert_eq!(ctx.messages()[0].text_content(), "hello");
}

#[test]
fn context_inject_system_inserts_at_start() {
    let mut ctx = Context::new();
    ctx.push_message(Message::new(Role::User, Content::text("hello")));
    ctx.inject_system("You are helpful.");
    assert_eq!(ctx.messages().len(), 2);
    assert_eq!(ctx.messages()[0].role, Role::System);
    assert_eq!(ctx.messages()[0].text_content(), "You are helpful.");
}

#[test]
fn context_inject_system_replaces_existing() {
    let mut ctx = Context::new();
    ctx.push_message(Message::new(Role::System, Content::text("old")));
    ctx.push_message(Message::new(Role::User, Content::text("hello")));
    ctx.inject_system("new");
    assert_eq!(ctx.messages().len(), 2);
    assert_eq!(ctx.messages()[0].text_content(), "new");
}

#[test]
fn set_messages_replaces_all() {
    let mut ctx = Context::new();
    ctx.push_message(Message::new(Role::User, Content::text("a")));
    ctx.push_message(Message::new(Role::User, Content::text("b")));
    ctx.set_messages(vec![Message::new(Role::System, Content::text("compacted"))]);
    assert_eq!(ctx.messages().len(), 1);
    assert_eq!(ctx.messages()[0].text_content(), "compacted");
}

#[test]
fn extend_messages_appends_all() {
    let mut ctx = Context::new();
    ctx.extend_messages(vec![
        Message::new(Role::User, Content::text("a")),
        Message::new(Role::Assistant, Content::text("b")),
    ]);
    assert_eq!(ctx.messages().len(), 2);
}

#[test]
fn metrics_default_values() {
    let m = TurnMetrics::new();
    assert_eq!(m.tokens_in, 0);
    assert_eq!(m.tokens_out, 0);
    assert_eq!(m.cost, Decimal::ZERO);
    assert_eq!(m.turns_completed, 0);
    assert_eq!(m.total_tokens(), 0);
}

#[test]
fn push_intent_stores_and_drains() {
    let mut ctx = Context::new();
    let intent = Intent::new(Effect::DeleteMemory { scope: Scope::Global, key: "test_key".into() });
    ctx.push_intent(intent.clone());
    assert_eq!(ctx.intents().len(), 1);
    let drained = ctx.drain_intents();
    assert_eq!(drained.len(), 1);
    assert!(ctx.intents().is_empty());
}

#[test]
fn extend_intents_stores_multiple() {
    let mut ctx = Context::new();
    let i1 = Intent::new(Effect::DeleteMemory { scope: Scope::Global, key: "a".into() });
    let i2 = Intent::new(Effect::DeleteMemory { scope: Scope::Global, key: "b".into() });
    ctx.extend_intents(vec![i1, i2]);
    assert_eq!(ctx.intents().len(), 2);
}

#[test]
fn append_response_updates_metrics() {
    let mut ctx = Context::new();
    let resp = make_text_response("Hello!");
    ctx.append_response(&resp);
    assert_eq!(ctx.messages().len(), 1);
    assert_eq!(ctx.messages()[0].role, Role::Assistant);
    assert_eq!(ctx.metrics.tokens_in, 10);
    assert_eq!(ctx.metrics.tokens_out, 5);
}
