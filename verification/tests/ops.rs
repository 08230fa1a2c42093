use std::time::Duration;
use context_engine::context::{AppendResponse, Context, InjectMessage, InjectMessages, InjectSystem};
use context_engine::error::EngineError;
use context_engine::infer::{InferResponse, StopReason, TokenUsage};
use context_engine::message::{Content, Message, Role};
use context_engine::rules::{BudgetGuard, BudgetGuardConfig};
use context_engine::store::{load_conversation, InjectSearchResults};
use rust_decimal::Decimal;

fn make_text_response(text: &str) -> InferResponse {
    InferResponse {
        content: Content::text(text),
        tool_calls: vec![],
        stop_reason: StopReason::EndTurn,
        usage: TokenUsage { input_tokens: 0, output_tokens: 0 },
        model: "test".to_string(),
        cost: None,
    }
}

#[test]
fn compact_reduces_messages() {
    let mut ctx = Context::new();
    for i in 0..10 {
        ctx.push_message(Message::new(Role::User, Content::text(&format!("msg {i}"))));
    }
    let kept: Vec<Message> = ctx.messages().iter().rev().take(3).rev().cloned().collect();
    let result = ctx.compact_to(kept);
    assert_eq!(result.before, 10);
    assert_eq!(result.after, 3);
    assert_eq!(ctx.messages().len(), 3);
    assert_eq!(ctx.messages()[0].text_content(), "msg 7");
}

#[test]
fn inject_inject_system_inserts_at_start() {
    let mut ctx = Context::new();
    ctx.push_message(Message::new(Role::User, Content::text("hello")));
    InjectSystem { prompt: "You are helpful.".into() }.execute(&mut ctx);
    assert_eq!(ctx.messages().len(), 2);
    assert_eq!(ctx.messages()[0].role, Role::System);
    assert_eq!(ctx.messages()[0].text_content(), "You are helpful.");
    assert_eq!(ctx.messages()[1].text_content(), "hello");
}

#[test]
fn inject_inject_system_replaces_existing() {
    let mut ctx = Context::new();
    ctx.push_message(Message::new(Role::System, Content::text("old prompt")));
    ctx.push_message(Message::new(Role::User, Content::text("hello")));
    InjectSystem { prompt: "new prompt".into() }.execute(&mut ctx);
    assert_eq!(ctx.messages().len(), 2);
    assert_eq!(ctx.messages()[0].text_content(), "new prompt");
}

#[test]
fn inject_message_appends() {
    let mut ctx = Context::new();
    InjectMessage { message: Message::new(Role::User, Content::text("hello")) }.execute(&mut ctx);
    assert_eq!(ctx.messages().len(), 1);
    assert_eq!(ctx.messages()[0].text_content(), "hello");
}

#[test]
fn inject_messages_appends_all() {
    let mut ctx = Context::new();
    InjectMessages {
        messages: vec![
            Message::new(Role::User, Content::text("a")),
            Message::new(Role::Assistant, Content::text("b")),
        ],
    }
    .execute(&mut ctx);
    assert_eq!(ctx.messages().len(), 2);
    assert_eq!(ctx.messages()[1].role, Role::Assistant);
}

#[test]
fn appends_message_to_context() {
    let mut ctx = Context::new();
    AppendResponse::new(make_text_response("Hello!")).execute(&mut ctx);
    let msgs = ctx.messages();
    assert_eq!(msgs.len(), 1);
    assert_eq!(msgs[0].role, Role::Assistant);
    assert!(msgs[0].content.as_text().contains("Hello!"));
}

#[test]
fn updates_token_metrics() {
    let mut ctx = Context::new();
    AppendResponse::new(make_text_response("ok")).execute(&mut ctx);
    assert_eq!(ctx.metrics.tokens_in, 0);
    assert_eq!(ctx.metrics.tokens_out, 0);
}

#[test]
fn accumulates_across_multiple_appends() {
    let mut ctx = Context::new();
    AppendResponse::new(make_text_response("a")).execute(&mut ctx);
    AppendResponse::new(make_text_response("b")).execute(&mut ctx);
    assert_eq!(ctx.messages().len(), 2);
    assert_eq!(ctx.messages()[0].role, Role::Assistant);
    assert_eq!(ctx.messages()[1].role, Role::Assistant);
}

#[test]
fn cost_none_leaves_zero() {
    let mut ctx = Context::new();
    AppendResponse::new(make_text_response("ok")).execute(&mut ctx);
    assert_eq!(ctx.metrics.cost, Decimal::ZERO);
}

#[test]
fn cost_is_added_when_reported() {
    let mut ctx = Context::new();
    let mut resp = make_text_response("ok");
    resp.cost = Some(Decimal::new(25, 2));
    AppendResponse::new(resp.clone()).execute(&mut ctx);
    AppendResponse::new(resp).execute(&mut ctx);
    assert_eq!(ctx.metrics.cost, Decimal::new(50, 2));
}

#[test]
fn budget_guard_halts_on_turn_limit() {
    let mut ctx = Context::new();
    ctx.metrics.turns_completed = 10;
    let guard = BudgetGuard::new();
    let result = guard.check(&ctx.metrics, Duration::ZERO);
    assert!(matches!(result, Err(EngineError::Halted { .. })));
}

#[test]
fn budget_guard_passes_under_limit() {
    let mut ctx = Context::new();
    ctx.metrics.turns_completed = 5;
    let guard = BudgetGuard::new();
    assert!(guard.check(&ctx.metrics, Duration::ZERO).is_ok());
}

#[test]
fn budget_guard_cost_limit() {
    let mut ctx = Context::new();
    ctx.metrics.cost = Decimal::new(150, 2);
    let guard = BudgetGuard::with_config(BudgetGuardConfig {
        max_cost: Some(Decimal::new(100, 2)),
        max_turns: None,
        max_duration: None,
        max_tool_calls: None,
    });
    assert!(guard.check(&ctx.metrics, Duration::ZERO).is_err());
}

#[test]
fn test_inject_search_results_basic() {
    let results = vec![
        ("key_a".to_string(), serde_json::Value::from("value_a")),
        ("key_b".to_string(), serde_json::Value::from("value_b")),
    ];
    let mut ctx = Context::new();
    ctx.push_message(Message::new(Role::System, Content::text("system prompt")));
    ctx.push_message(Message::new(Role::User, Content::text("user msg")));
    let count = InjectSearchResults::new(results).execute(&mut ctx);
    assert_eq!(count, 2);
    assert_eq!(ctx.messages().len(), 4);
    assert_eq!(ctx.messages()[0].text_content(), "system prompt");
    assert!(ctx.messages()[1].text_content().contains("key_a"));
    assert!(ctx.messages()[2].text_content().contains("key_b"));
    assert_eq!(ctx.messages()[3].text_content(), "user msg");
}

#[test]
fn test_inject_search_results_empty() {
    let mut ctx = Context::new();
    ctx.push_message(Message::new(Role::User, Content::text("hello")));
    let count = InjectSearchResults::new(vec![]).execute(&mut ctx);
    assert_eq!(count, 0);
    assert_eq!(ctx.messages().len(), 1);
}

#[test]
fn test_load_conversation_missing() {
    let mut ctx = Context::new();
    ctx.push_message(Message::new(Role::User, Content::text("original")));
    let result = load_conversation(&mut ctx, None);
    assert_eq!(result, Ok(None));
    assert_eq!(ctx.messages().len(), 1);
    assert_eq!(ctx.messages()[0].text_content(), "original");
}

#[test]
fn test_load_conversation_replaces() {
    let mut ctx = Context::new();
    ctx.push_message(Message::new(Role::User, Content::text("old 1")));
    ctx.push_message(Message::new(Role::User, Content::text("old 2")));
    let result = load_conversation(&mut ctx, Some(Ok(vec![Message::new(Role::User, Content::text("new msg"))])));
    assert_eq!(result, Ok(Some(1)));
    assert_eq!(ctx.messages().len(), 1);
    assert_eq!(ctx.messages()[0].text_content(), "new msg");
}

#[test]
fn try_append_response_appends_when_totals_fit() {
    let mut ctx = Context::new();
    let mut r = make_text_response("hi");
    r.usage = TokenUsage { input_tokens: 3, output_tokens: 4 };
    r.cost = Some(Decimal::new(5, 4));
    assert!(ctx.try_append_response(&r));
    assert_eq!(ctx.messages().len(), 1);
    assert_eq!(ctx.metrics.tokens_in, 3);
    assert_eq!(ctx.metrics.cost, Decimal::new(5, 4));
    let mut fresh = Context::new();
    let mut big = make_text_response("no");
    big.cost = Some(Decimal::MAX);
    assert!(fresh.try_append_response(&big));
    assert!(!fresh.try_append_response(&big));
    assert_eq!(fresh.messages().len(), 1);
    assert_eq!(fresh.metrics.cost, Decimal::MAX);
}

#[test]
fn count_turn_adds_one_turn() {
    let mut ctx = Context::new();
    ctx.count_turn();
    ctx.count_turn();
    assert_eq!(ctx.metrics.turns_completed, 2);
    assert!(ctx.messages().is_empty());
}
