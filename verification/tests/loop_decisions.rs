use std::time::Duration;
use context_engine::context::{AppendResponse, Context, TurnMetrics};
use context_engine::effect::Effect;
use context_engine::error::{EngineError, ToolError};
use context_engine::infer::{InferResponse, StopReason, TokenUsage, ToolCall};
use context_engine::message::{CompactionPolicy, Content, ContentPart, Message, Role};
use context_engine::operator::ExitReason;
use context_engine::output::{OutputError, OutputSchema};
use context_engine::react_loop::{
    after_response, approval_halt, declare_effects, function_tools, make_output, structured_step,
    structured_tools, tool_result_text, AgentSettings, FunctionTools, LoopStep, ReactLoopConfig,
    StructuredStep, close_call,
};
use context_engine::rules::{BudgetGuard, BudgetGuardConfig};
use context_engine::store::{
    collect_fetched, injection_index, load_conversation, memory_text, InjectSearchResults,
    InjectionPosition,
};
use context_engine::text::{replace_all, u64_text};
use context_engine::tool_exec::{
    dispatch_start_error, dispatched_value, record_dispatch, record_tool_call, unknown_tool,
    DispatchFailure, ErrorCode,
};
use rust_decimal::Decimal;
use serde_json::Value;

fn json(text: &str) -> Value {
    serde_json::from_str(text).unwrap()
}

fn call(id: &str, name: &str) -> ToolCall {
    ToolCall { id: id.to_string(), name: name.to_string(), input: json("{}") }
}

fn with_calls(calls: Vec<ToolCall>, stop: StopReason) -> InferResponse {
    InferResponse {
        content: Content { parts: vec![] },
        tool_calls: calls,
        stop_reason: stop,
        usage: TokenUsage { input_tokens: 1, output_tokens: 1 },
        model: "test".into(),
        cost: None,
    }
}

fn identity(v: &Value) -> Result<Value, String> {
    Ok(v.clone())
}

#[test]
fn react_loop_exits_on_approval_required() {
    let resp = with_calls(vec![call("c1", "safe"), call("c2", "dangerous")], StopReason::ToolUse);
    match after_response(&resp, &vec![false, true]) {
        LoopStep::AwaitApproval(effects) => {
            assert_eq!(effects.len(), 1);
            match &effects[0] {
                Effect::ToolApprovalRequired { tool_name, call_id, .. } => {
                    assert_eq!(tool_name, "dangerous");
                    assert_eq!(call_id, "c2");
                },
                _ => panic!("expected approval"),
            }
        },
        _ => panic!("expected approval step"),
    }
    assert!(matches!(after_response(&resp, &vec![false, false]), LoopStep::Dispatch));
    let done = with_calls(vec![], StopReason::ContentFilter);
    match after_response(&done, &vec![]) {
        LoopStep::Finish(ExitReason::SafetyStop { reason }) => assert_eq!(reason, "content filter triggered"),
        _ => panic!("expected safety stop"),
    }
}

#[test]
fn tool_failures_read_as_errors() {
    assert_eq!(tool_result_text(Ok("fine".into())), "fine");
    let err = EngineError::Tool(ToolError::NotFound("x".into()));
    assert_eq!(tool_result_text(Err(err)), "Error: tool: tool not found: x");
    assert_eq!(tool_result_text(Err(EngineError::Halted { reason: "stop".into() })), "Error: halted: stop");
}

#[test]
fn structured_tool_call_exceeds_retries() {
    let schema = OutputSchema::tool_call(json("{}"), identity).with_max_retries(1);
    let resp = with_calls(vec![call("c1", "return_result")], StopReason::ToolUse);
    let failed = || Err(OutputError::ValidationFailed { message: "bad".into(), raw: None });
    match structured_step(&schema, &resp, failed(), 0) {
        StructuredStep::Retry { feedback: Some(m), retries } => {
            assert_eq!(retries, 1);
            match &m.content.parts[0] {
                ContentPart::ToolResult { tool_use_id, content, is_error } => {
                    assert_eq!(tool_use_id, "c1");
                    assert_eq!(content, "Validation error: bad. Please fix and try again.");
                    assert!(is_error);
                },
                _ => panic!("expected tool result"),
            }
        },
        _ => panic!("expected retry"),
    }
    match structured_step(&schema, &resp, failed(), 1) {
        StructuredStep::Fail(EngineError::Halted { reason }) => {
            assert_eq!(reason, "structured output validation failed after 1 retries: bad")
        },
        _ => panic!("expected failure"),
    }
}

#[test]
fn structured_text_json_feedback_and_completion() {
    let schema = OutputSchema::text_json(json("{}"), identity);
    let resp = with_calls(vec![], StopReason::EndTurn);
    match structured_step(&schema, &resp, Err(OutputError::ValidationFailed { message: "m".into(), raw: None }), 0) {
        StructuredStep::Retry { feedback: Some(m), .. } => {
            assert_eq!(m.role, Role::User);
            assert_eq!(m.text_content(), "Your JSON output failed validation: m. Please output valid JSON.");
        },
        _ => panic!("expected retry"),
    }
    match structured_step(&schema, &resp, Err(OutputError::NoOutput), 0) {
        StructuredStep::Fail(EngineError::Halted { reason }) => {
            assert_eq!(reason, "model completed without producing structured output (exit: Complete)")
        },
        _ => panic!("expected failure"),
    }
    let with_tools = with_calls(vec![call("c1", "search")], StopReason::ToolUse);
    assert!(matches!(structured_step(&schema, &with_tools, Err(OutputError::NoOutput), 0), StructuredStep::DispatchTools));
    assert!(matches!(structured_step(&schema, &resp, Ok(json("1")), 0), StructuredStep::Done(_)));
    let tools = structured_tools(&schema, vec![]);
    assert!(tools.is_empty());
    let tc = OutputSchema::tool_call(json("{}"), identity);
    let tools = structured_tools(&tc, vec![]);
    assert_eq!(tools.len(), 1);
    assert_eq!(tools[0].name, "return_result");
}

#[test]
fn structured_function_tools_skip_the_output_tool() {
    let resp = with_calls(vec![call("c1", "search"), call("c2", "return_result")], StopReason::ToolUse);
    match function_tools(&resp, "return_result", &vec![false, true]) {
        FunctionTools::Dispatch(calls) => {
            assert_eq!(calls.len(), 1);
            assert_eq!(calls[0].name, "search");
        },
        _ => panic!("expected dispatch"),
    }
    assert!(matches!(function_tools(&resp, "return_result", &vec![true, false]), FunctionTools::AwaitApproval(_)));
    match approval_halt() {
        EngineError::Halted { reason } => assert!(reason.contains("approval")),
        _ => panic!("expected halt"),
    }
}

#[test]
fn loop_output_reports_context_totals() {
    let mut ctx = Context::new();
    ctx.metrics.tokens_in = 11;
    ctx.metrics.turns_completed = 2;
    declare_effects(&mut ctx, vec![Effect::ToolApprovalRequired { tool_name: "t".into(), call_id: "c".into(), input: Value::Null }]);
    let out = make_output(Content::text("done"), ExitReason::AwaitingApproval, &ctx, 5);
    assert_eq!(out.metadata.tokens_in, 11);
    assert_eq!(out.metadata.turns_used, 2);
    assert_eq!(out.effects.len(), 1);
    assert_eq!(out.exit_reason, ExitReason::AwaitingApproval);
    let config = ReactLoopConfig { system_prompt: "s".into(), model: None, max_tokens: Some(9) };
    let cc = config.compile_config(vec![]);
    assert_eq!(cc.system.as_deref(), Some("s"));
    assert_eq!(cc.max_tokens, Some(9));
}

#[test]
fn agent_settings_plan() {
    let plan = AgentSettings::new().plan();
    assert_eq!(plan.operator_id, "agent");
    assert!(plan.guard.is_none());
    let plan = AgentSettings::new()
        .operator_id("test-op".into())
        .system_prompt("You are helpful.".into())
        .max_tokens(1024)
        .max_turns(1)
        .plan();
    assert_eq!(plan.operator_id, "test-op");
    assert_eq!(plan.config.system_prompt, "You are helpful.");
    assert_eq!(plan.config.max_tokens, Some(1024));
    assert_eq!(plan.guard.unwrap().max_turns, Some(1));
}

#[test]
fn store_injection_positions() {
    let mut ctx = Context::new();
    ctx.push_message(Message::new(Role::System, Content::text("system prompt")));
    ctx.push_message(Message::new(Role::User, Content::text("user msg")));
    assert_eq!(injection_index(InjectionPosition::AfterSystemPrompt, ctx.messages()), 1);
    assert_eq!(injection_index(InjectionPosition::Append, ctx.messages()), 2);
    assert_eq!(injection_index(InjectionPosition::At(9), ctx.messages()), 2);
    let op = InjectSearchResults::new(vec![("key_a".into(), json("\"value_a\"")), ("key_b".into(), json("{\"n\":1}"))]);
    let count = op.execute(&mut ctx);
    assert_eq!(count, 2);
    assert_eq!(ctx.messages().len(), 4);
    assert_eq!(ctx.messages()[0].text_content(), "system prompt");
    assert_eq!(ctx.messages()[1].text_content(), "[Memory: key_a] \"value_a\"");
    assert_eq!(ctx.messages()[2].text_content(), "[Memory: key_b] {\"n\":1}");
    assert_eq!(ctx.messages()[1].meta.policy, CompactionPolicy::CompressFirst);
    assert_eq!(ctx.messages()[3].text_content(), "user msg");
    assert_eq!(memory_text("k", &json("[1,2]")), "[Memory: k] [1,2]");
}

#[test]
fn store_custom_texts_role_and_policy() {
    let mut ctx = Context::new();
    ctx.push_message(Message::new(Role::User, Content::text("user msg")));
    let op = InjectSearchResults::new(vec![("k".into(), Value::Null)])
        .with_role(Role::User)
        .with_policy(CompactionPolicy::Pinned);
    let n = op.inject_texts(&mut ctx, vec!["custom: k".into()]);
    assert_eq!(n, 1);
    assert_eq!(ctx.messages()[0].role, Role::User);
    assert_eq!(ctx.messages()[0].text_content(), "custom: k");
    assert_eq!(ctx.messages()[0].meta.policy, CompactionPolicy::Pinned);
}

#[test]
fn fetched_results_skip_missing_keys() {
    let keys = vec!["exists".to_string(), "gone".to_string()];
    let fetched = collect_fetched(&keys, &vec![Some(json("1")), None]);
    assert_eq!(fetched.len(), 1);
    assert_eq!(fetched[0].0, "exists");
}

#[test]
fn load_conversation_outcomes() {
    let mut ctx = Context::new();
    ctx.push_message(Message::new(Role::User, Content::text("original")));
    assert_eq!(load_conversation(&mut ctx, None), Ok(None));
    assert_eq!(ctx.messages()[0].text_content(), "original");
    let loaded = load_conversation(&mut ctx, Some(Ok(vec![Message::new(Role::User, Content::text("saved msg"))])));
    assert_eq!(loaded, Ok(Some(1)));
    assert_eq!(ctx.messages()[0].text_content(), "saved msg");
    match load_conversation(&mut ctx, Some(Err("bad".into()))) {
        Err(EngineError::Halted { reason }) => assert_eq!(reason, "failed to deserialize conversation: bad"),
        other => panic!("expected halt, got {other:?}"),
    }
}

#[test]
fn tool_metrics_count_calls_and_failures() {
    let mut m = TurnMetrics::new();
    assert_eq!(record_tool_call(&mut m, Ok(json("1"))), Ok(json("1")));
    let r = record_tool_call(&mut m, Err(ToolError::ExecutionFailed("boom".into())));
    assert_eq!(r, Err(EngineError::Tool(ToolError::ExecutionFailed("boom".into()))));
    assert_eq!(m.tool_calls_total, 2);
    assert_eq!(m.tool_calls_failed, 1);
    assert_eq!(record_dispatch(&mut m, Ok(Some("{\"a\": 1}".into()))), Ok(json("{\"a\": 1}")));
    assert_eq!(record_dispatch(&mut m, Ok(Some("not json".into()))), Ok(Value::Null));
    let r = record_dispatch(&mut m, Err(DispatchFailure { code: ErrorCode::NotFound, message: "x".into() }));
    assert_eq!(r, Err(EngineError::Halted { reason: "unknown tool: x".into() }));
    assert_eq!(m.tool_calls_total, 5);
    assert_eq!(m.tool_calls_failed, 2);
    assert_eq!(unknown_tool("q"), EngineError::Halted { reason: "unknown tool: q".into() });
    let e = dispatch_start_error("t", DispatchFailure { code: ErrorCode::Other, message: "down".into() });
    assert_eq!(e, EngineError::Custom("down".into()));
    assert_eq!(dispatched_value(None), Value::Null);
}

#[test]
fn budget_guard_limits() {
    let guard = BudgetGuard::with_config(BudgetGuardConfig {
        max_cost: Some(Decimal::new(50, 2)),
        max_turns: Some(3),
        max_duration: None,
        max_tool_calls: None,
    });
    let mut m = TurnMetrics::new();
    assert!(guard.check(&m, Duration::ZERO).is_ok());
    m.cost = Decimal::new(75, 2);
    assert_eq!(guard.check(&m, Duration::ZERO), Err(EngineError::Halted { reason: "cost budget exceeded: 0.75 > 0.50".into() }));
    m.cost = Decimal::new(50, 2);
    m.turns_completed = 3;
    assert_eq!(guard.check(&m, Duration::ZERO), Err(EngineError::Halted { reason: "turn limit exceeded: 3 >= 3".into() }));
    let timed = BudgetGuard::with_config(BudgetGuardConfig { max_duration: Some(Duration::from_millis(1000)), ..BudgetGuardConfig::default() });
    let m = TurnMetrics::new();
    assert_eq!(timed.check(&m, Duration::from_millis(1500)), Err(EngineError::Halted { reason: "duration exceeded: 1.5s > 1s".into() }));
}

#[test]
fn text_helpers() {
    assert_eq!(replace_all("a {x} b {x}", "{x}", "y"), "a y b y");
    assert_eq!(replace_all("none here", "{x}", "y"), "none here");
    assert_eq!(u64_text(0), "0");
    assert_eq!(u64_text(1234567), "1234567");
}

#[test]
fn budget_guard_compares_whole_durations() {
    let guard = BudgetGuard::with_config(BudgetGuardConfig {
        max_duration: Some(Duration::from_millis(1)),
        ..BudgetGuardConfig::default()
    });
    let m = TurnMetrics::new();
    assert!(guard.check(&m, Duration::from_millis(1)).is_ok());
    assert_eq!(
        guard.check(&m, Duration::from_nanos(1_000_001)),
        Err(EngineError::Halted { reason: "duration exceeded: 1.000001ms > 1ms".into() })
    );
}

#[test]
fn closing_a_call_counts_the_turn() {
    let mut ctx = Context::new();
    let done = with_calls(vec![], StopReason::EndTurn);
    assert!(AppendResponse::new(done.clone()).try_execute(&mut ctx));
    assert!(matches!(close_call(&mut ctx, &done, &vec![]), LoopStep::Finish(ExitReason::Complete)));
    assert_eq!(ctx.metrics.turns_completed, 1);
    let tools = with_calls(vec![call("c1", "a"), call("c2", "b")], StopReason::ToolUse);
    assert!(matches!(close_call(&mut ctx, &tools, &vec![false, false]), LoopStep::Dispatch));
    assert_eq!(ctx.metrics.turns_completed, 2);
    match close_call(&mut ctx, &tools, &vec![false, true]) {
        LoopStep::AwaitApproval(effects) => assert_eq!(effects.len(), 1),
        _ => panic!("expected an approval request"),
    }
    assert_eq!(ctx.metrics.turns_completed, 3);
    assert_eq!(ctx.messages().len(), 1);
}
