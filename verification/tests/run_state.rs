use std::collections::hash_map::DefaultHasher;
use std::hash::{Hash, Hasher};
use context_engine::effect::{Effect, Scope};
use context_engine::error::OperatorError;
use context_engine::infer::{StopReason, TokenUsage, ToolSchema};
use context_engine::message::{CompactionPolicy, Content, ContentPart, Message, Role};
use context_engine::operator::{ExitReason, OperatorConfig, OperatorInput, TriggerType};
use context_engine::react::{build_tool_schemas, resolve_config, turn_request, ReactConfig};
use context_engine::react_run::{
    compaction_blocked, compaction_due, dispatch_result, extract_calls, post_dispatch, pre_dispatch,
    sequential_plan, split_steering, turn_outcome, window_size, BatchItem, BudgetEvent,
    CompactionEvent, ContextCommand, DispatchOutcome, PreDispatch, ProviderResponse, RunLimits,
    RunState, SteeringCommand, SubDispatchAction, SubDispatchResult, TurnOutcome, round_move,
    ReactAction, RoundMove, RoundPoint, StepReport, TurnMove, TurnStep,
};
use context_engine::single_shot::{single_shot_output, SingleShotConfig};
use rust_decimal::Decimal;
use serde_json::Value;

fn response(parts: Vec<ContentPart>, stop: StopReason, tokens: (u64, u64), cost: Option<Decimal>) -> ProviderResponse {
    ProviderResponse {
        content: parts,
        stop_reason: stop,
        usage: TokenUsage { input_tokens: tokens.0, output_tokens: tokens.1 },
        model: "m".to_string(),
        cost,
    }
}

fn text(t: &str) -> ContentPart {
    ContentPart::Text { text: t.to_string() }
}

fn tool_use(id: &str, name: &str, input: &str) -> ContentPart {
    ContentPart::ToolUse { id: id.to_string(), name: name.to_string(), input: serde_json::from_str(input).unwrap() }
}

fn input_hash(text: &str) -> u64 {
    let mut hasher = DefaultHasher::new();
    text.to_string().hash(&mut hasher);
    hasher.finish()
}

fn limits() -> RunLimits {
    RunLimits {
        max_tool_calls: None,
        tool_warn_at: 0,
        max_repeat_calls: None,
        max_turns: 10,
        max_cost: None,
        max_duration_ms: None,
        duration_warn_ms: 0,
    }
}

#[test]
fn cost_aggregated_across_turns() {
    let mut st = RunState::start(vec![]);
    st.begin_turn();
    st.account(&response(vec![text("a")], StopReason::ToolUse, (10, 5), Some(Decimal::new(1, 2))));
    st.begin_turn();
    st.account(&response(vec![text("b")], StopReason::EndTurn, (20, 7), Some(Decimal::new(3, 2))));
    assert_eq!(st.tokens_in, 30);
    assert_eq!(st.tokens_out, 12);
    assert_eq!(st.cost, Decimal::new(4, 2));
    assert_eq!(st.turns_used, 2);
    let out = st.finish_with_last(ExitReason::Complete, 12);
    assert_eq!(out.message.as_text(), "b");
    assert_eq!(out.metadata.turns_used, 2);
    assert_eq!(out.metadata.duration_ms, 12);
}

#[test]
fn stop_reasons_decide_the_turn() {
    assert!(matches!(turn_outcome(StopReason::EndTurn), TurnOutcome::Finish(ExitReason::Complete)));
    match turn_outcome(StopReason::ContentFilter) {
        TurnOutcome::Finish(ExitReason::SafetyStop { reason }) => assert_eq!(reason, "content_filter"),
        _ => panic!("expected safety stop"),
    }
    match turn_outcome(StopReason::MaxTokens) {
        TurnOutcome::Fail(OperatorError::Model { message, retryable }) => {
            assert!(message.contains("max_tokens"));
            assert!(!retryable);
        },
        _ => panic!("expected model error"),
    }
    assert!(matches!(turn_outcome(StopReason::ToolUse), TurnOutcome::RunTools));
}

#[test]
fn tool_calls_are_planned_one_by_one() {
    let parts = vec![text("thinking"), tool_use("c1", "echo", "{\"x\": 1}"), tool_use("c2", "other", "{}")];
    let calls = extract_calls(&parts);
    assert_eq!(calls.len(), 2);
    assert_eq!(calls[0].0, "c1");
    assert_eq!(calls[1].1, "other");
    let plan = sequential_plan(&calls);
    assert_eq!(plan.len(), 2);
    match &plan[0] {
        BatchItem::Exclusive((id, name, _)) => {
            assert_eq!(id, "c1");
            assert_eq!(name, "echo");
        },
        _ => panic!("expected exclusive"),
    }
}

#[test]
fn effect_call_is_recorded_as_success() {
    let mut st = RunState::start(vec![]);
    let input: Value = serde_json::from_str("{\"scope\": \"global\", \"key\": \"k\"}").unwrap();
    st.record_effect("c1", "delete_memory", &input, Effect::DeleteMemory { scope: Scope::Global, key: "k".into() }, 10);
    assert_eq!(st.effects.len(), 1);
    assert_eq!(st.sub_dispatches, 1);
    assert!(st.records[0].success);
    match &st.results[0] {
        ContentPart::ToolResult { tool_use_id, content, is_error } => {
            assert_eq!(tool_use_id, "c1");
            assert_eq!(content, "delete_memory effect recorded.");
            assert!(!is_error);
        },
        _ => panic!("expected a tool result"),
    }
}

#[test]
fn unknown_tool_returns_error_result() {
    let (content, is_error) = dispatch_result("nope", DispatchOutcome::NotFound);
    assert_eq!(content, "tool not found: nope");
    assert!(is_error);
    let (content, is_error) = dispatch_result("echo", DispatchOutcome::Answered(None));
    assert_eq!(content, "null");
    assert!(!is_error);
}

#[test]
fn interceptor_answers_apply_to_calls() {
    let input: Value = serde_json::from_str("{\"a\": 1}").unwrap();
    let replacement: Value = serde_json::from_str("{\"a\": 2}").unwrap();
    match pre_dispatch(SubDispatchAction::ModifyInput { new_input: replacement.clone() }, input.clone()) {
        PreDispatch::Run(v) => assert_eq!(v, replacement),
        _ => panic!("expected run"),
    }
    assert!(matches!(pre_dispatch(SubDispatchAction::Skip { reason: "no".into() }, input.clone()), PreDispatch::Skip(_)));
    assert_eq!(post_dispatch(SubDispatchResult::ModifyOutput { new_output: "x".into() }, "y".into()), Ok("x".to_string()));
    assert_eq!(post_dispatch(SubDispatchResult::Halt { reason: "stop".into() }, "y".into()), Err("stop".to_string()));
    let mut st = RunState::start(vec![]);
    st.record_skip("c9", "echo", "policy");
    match &st.results[0] {
        ContentPart::ToolResult { content, .. } => assert_eq!(content, "Skipped: policy"),
        _ => panic!("expected a tool result"),
    }
    assert_eq!(st.sub_dispatches, 0);
}

#[test]
fn max_tool_calls_exits_with_budget_exhausted() {
    let mut st = RunState::start(vec![]);
    let input: Value = serde_json::from_str("{}").unwrap();
    st.record_dispatch("c1", "echo", &input, "ok".into(), false, true, 3, 10);
    st.record_dispatch("c2", "echo", &input, "ok".into(), false, true, 3, 10);
    let lim = RunLimits { max_tool_calls: Some(2), tool_warn_at: 1, ..limits() };
    let check = st.check_limits(&lim, 0);
    assert_eq!(check.exit, Some(ExitReason::BudgetExhausted));
    assert_eq!(check.events, vec![BudgetEvent::StepLimitReached { total_sub_dispatches: 2 }]);

    let lim = RunLimits { max_tool_calls: Some(3), tool_warn_at: 2, ..limits() };
    let check = st.check_limits(&lim, 0);
    assert_eq!(check.exit, None);
    assert_eq!(check.events, vec![BudgetEvent::StepLimitApproaching { current: 2, max: 3 }]);
}

#[test]
fn max_repeat_calls_detects_stuck() {
    let mut st = RunState::start(vec![]);
    let input: Value = serde_json::from_str("{\"q\": 1}").unwrap();
    let cap = window_size(Some(3));
    assert_eq!(cap, 10);
    for i in 0..3 {
        st.record_dispatch(&format!("c{i}"), "echo", &input, "same".into(), false, true, 1, cap);
    }
    let lim = RunLimits { max_repeat_calls: Some(3), ..limits() };
    let check = st.check_limits(&lim, 0);
    assert_eq!(check.exit, Some(ExitReason::Custom("stuck_detected".to_string())));
    assert_eq!(
        check.events,
        vec![BudgetEvent::LoopDetected { operator_name: "echo".into(), consecutive_count: 3, max: 3 }]
    );
}

#[test]
fn max_repeat_calls_different_args_no_trigger() {
    let mut st = RunState::start(vec![]);
    let cap = window_size(Some(3));
    for i in 0..3 {
        let input: Value = serde_json::from_str(&format!("{{\"q\": {i}}}")).unwrap();
        st.record_dispatch("c", "echo", &input, "r".into(), false, true, 1, cap);
    }
    let lim = RunLimits { max_repeat_calls: Some(3), ..limits() };
    assert_eq!(st.check_limits(&lim, 0).exit, None);
}

#[test]
fn window_keeps_only_the_most_recent_calls() {
    let mut st = RunState::start(vec![]);
    let cap = window_size(None);
    for i in 0..15 {
        let input: Value = serde_json::from_str(&format!("{i}")).unwrap();
        st.record_dispatch("c", "echo", &input, "r".into(), false, true, 1, cap);
    }
    assert_eq!(st.recent_calls.len(), 10);
    assert_eq!(st.recent_calls[0].1, input_hash("5"));
    assert_eq!(st.recent_calls[9].1, input_hash("14"));
}

#[test]
fn limits_in_priority_order() {
    let mut st = RunState::start(vec![]);
    st.begin_turn();
    st.begin_turn();
    let lim = RunLimits { max_turns: 2, max_cost: Some(Decimal::ZERO), ..limits() };
    assert_eq!(st.check_limits(&lim, 0).exit, Some(ExitReason::MaxTurns));
    let lim = RunLimits { max_turns: 5, max_cost: Some(Decimal::ZERO), ..limits() };
    assert_eq!(st.check_limits(&lim, 0).exit, Some(ExitReason::BudgetExhausted));
    let lim = RunLimits { max_duration_ms: Some(100), duration_warn_ms: 80, ..limits() };
    let check = st.check_limits(&lim, 90);
    assert_eq!(check.exit, None);
    assert_eq!(check.events, vec![BudgetEvent::TimeoutApproaching { elapsed_ms: 90, max_duration_ms: 100 }]);
    let check = st.check_limits(&lim, 100);
    assert_eq!(check.exit, Some(ExitReason::Timeout));
    assert_eq!(check.events, vec![BudgetEvent::TimeoutReached { elapsed_ms: 100 }]);
}

#[test]
fn steering_skips_mark_calls() {
    let mut st = RunState::start(vec![]);
    let calls = vec![
        ("a".to_string(), "t1".to_string(), Value::Null),
        ("b".to_string(), "t2".to_string(), Value::Null),
    ];
    let names = st.skip_for_steering(&calls);
    assert_eq!(names, vec!["t1".to_string(), "t2".to_string()]);
    assert_eq!(st.results.len(), 2);
    assert!(st.records.iter().all(|r| !r.success && r.duration_ms == 0));
    let (msgs, cmds) = split_steering(vec![
        SteeringCommand::Message(Message::new(Role::User, Content::text("stop"))),
        SteeringCommand::Context(ContextCommand::ClearWorking),
    ]);
    assert_eq!(msgs.len(), 1);
    assert_eq!(cmds, vec![ContextCommand::ClearWorking]);
    st.close_round();
    assert_eq!(st.messages.len(), 1);
    assert_eq!(st.messages[0].role, Role::User);
    assert!(st.results.is_empty());
}

#[test]
fn compaction_is_due_above_the_limit() {
    let msgs = vec![Message::new(Role::User, Content::text("12345678"))];
    assert!(compaction_due(&msgs, 1));
    assert!(!compaction_due(&msgs, 2));
    let mut st = RunState::start(vec![
        Message::new(Role::User, Content::text("12345678")),
        Message::pinned(Role::User, Content::text("1234")),
        Message::new(Role::User, Content::text("abcd")),
    ]);
    let (event, removed) = st.apply_compaction(vec![Message::pinned(Role::User, Content::text("1234"))]);
    assert_eq!(removed, 2);
    assert_eq!(
        event,
        CompactionEvent::CompactionQuality { tokens_before: 4, tokens_after: 1, items_preserved: 1, items_lost: 2 }
    );
    assert_eq!(st.messages.len(), 1);
    match compaction_blocked() {
        CompactionEvent::CompactionSkipped { reason } => assert_eq!(reason, "blocked by interceptor"),
        _ => panic!("expected skipped"),
    }
}

#[test]
fn operator_config_overrides_defaults() {
    let config = ReactConfig { system_prompt: "base".into(), default_model: "m0".into(), ..ReactConfig::default() };
    let resolved = resolve_config(&config, &None);
    assert_eq!(resolved.system, "base");
    assert_eq!(resolved.model.as_deref(), Some("m0"));
    assert_eq!(resolved.max_turns, 10);
    assert_eq!(resolved.max_tokens, 4096);
    let overrides = OperatorConfig {
        system_addendum: Some("extra".into()),
        model: Some("m1".into()),
        max_turns: Some(3),
        ..OperatorConfig::empty()
    };
    let resolved = resolve_config(&config, &Some(overrides));
    assert_eq!(resolved.system, "base\nextra");
    assert_eq!(resolved.model.as_deref(), Some("m1"));
    assert_eq!(resolved.max_turns, 3);
    let request = turn_request(&resolved, &vec![Message::new(Role::User, Content::text("hi"))], &vec![], &Value::Null);
    assert_eq!(request.system.as_deref(), Some("base\nextra"));
    assert_eq!(request.max_tokens, Some(4096));
    let no_model = resolve_config(&ReactConfig::default(), &None);
    assert!(no_model.model.is_none());
}

#[test]
fn offered_tools_follow_the_allowed_list() {
    let registry = vec![ToolSchema { name: "echo".into(), description: "e".into(), input_schema: Value::Null }];
    let all = build_tool_schemas(&registry, &None);
    assert_eq!(all.len(), 6);
    assert_eq!(all[0].name, "echo");
    assert_eq!(all[1].name, "write_memory");
    let some = build_tool_schemas(&registry, &Some(vec!["signal".into(), "echo".into()]));
    let names: Vec<String> = some.iter().map(|s| s.name.clone()).collect();
    assert_eq!(names, vec!["echo".to_string(), "signal".to_string()]);
}

#[test]
fn single_shot_request_and_output() {
    let config = SingleShotConfig { system_prompt: String::new(), ..SingleShotConfig::default() };
    let input = OperatorInput::new(Content::text("hello"), TriggerType::User);
    let request = config.request(&input);
    assert!(request.system.is_none());
    assert!(request.tools.is_empty());
    assert_eq!(request.max_tokens, Some(4096));
    assert_eq!(request.messages.len(), 1);
    assert_eq!(request.messages[0].role, Role::User);
    let out = single_shot_output(response(vec![text("hi")], StopReason::EndTurn, (3, 4), None), 7);
    assert_eq!(out.exit_reason, ExitReason::Complete);
    assert_eq!(out.metadata.turns_used, 1);
    assert_eq!(out.metadata.cost, Decimal::ZERO);
    assert_eq!(out.metadata.tokens_in, 3);
    assert!(out.effects.is_empty());
    let out = single_shot_output(response(vec![text("hi")], StopReason::EndTurn, (3, 4), Some(Decimal::new(5, 1))), 7);
    assert_eq!(out.metadata.cost, Decimal::new(5, 1));
}

#[test]
fn pinned_buffer_survives_commands() {
    let mut msgs = vec![
        Message::pinned(Role::System, Content::text("rules")),
        Message::new(Role::User, Content::text("a")),
        Message::new(Role::User, Content::text("b")),
    ];
    context_engine::react_run::apply_context_commands(
        &mut msgs,
        vec![ContextCommand::Pin { message_index: 2 }, ContextCommand::DropOldest { count: 5 }],
    );
    assert_eq!(msgs.len(), 2);
    assert!(msgs.iter().all(|m| m.meta.policy == CompactionPolicy::Pinned));
}

#[test]
fn earlier_different_call_does_not_hide_a_repeat() {
    let mut st = RunState::start(vec![]);
    let cap = window_size(Some(2));
    let a: Value = serde_json::from_str("{\"x\": 1}").unwrap();
    let b: Value = serde_json::from_str("{\"x\": 2}").unwrap();
    st.record_dispatch("c0", "echo", &a, "r".into(), false, true, 1, cap);
    let lim = RunLimits { max_repeat_calls: Some(2), ..limits() };
    st.record_dispatch("c1", "echo", &b, "r".into(), false, true, 1, cap);
    assert_eq!(st.check_limits(&lim, 0).exit, None);
    st.record_dispatch("c2", "echo", &b, "r".into(), false, true, 1, cap);
    let check = st.check_limits(&lim, 0);
    assert_eq!(check.exit, Some(ExitReason::Custom("stuck_detected".to_string())));
    assert_eq!(
        check.events,
        vec![BudgetEvent::LoopDetected { operator_name: "echo".into(), consecutive_count: 2, max: 2 }]
    );
}

#[test]
fn try_account_refuses_an_overflowing_total() {
    let mut st = RunState::start(vec![]);
    assert!(st.try_account(&response(vec![text("a")], StopReason::EndTurn, (u64::MAX - 1, 0), None)));
    assert_eq!(st.tokens_in, u64::MAX - 1);
    assert!(!st.try_account(&response(vec![text("b")], StopReason::EndTurn, (2, 0), None)));
    assert_eq!(st.tokens_in, u64::MAX - 1);
    assert_eq!(st.last_content.len(), 1);
    assert!(st.try_account(&response(vec![], StopReason::EndTurn, (0, 0), Some(Decimal::MAX))));
    assert!(!st.try_account(&response(vec![], StopReason::EndTurn, (0, 0), Some(Decimal::MAX))));
    assert_eq!(st.cost, Decimal::MAX);
}

#[test]
fn steering_rules_of_a_round() {
    assert_eq!(round_move(RoundPoint::BeforeShared, false), RoundMove::Go);
    assert_eq!(round_move(RoundPoint::AfterExclusive, false), RoundMove::Go);
    assert_eq!(round_move(RoundPoint::BeforeShared, true), RoundMove::SkipRestAndStop { from: 0 });
    assert_eq!(round_move(RoundPoint::BeforeExclusive, true), RoundMove::SkipRestAndStop { from: 0 });
    assert_eq!(round_move(RoundPoint::BeforeSharedCall { idx: 2 }, true), RoundMove::SkipRestAndGo { from: 2 });
    assert_eq!(
        round_move(RoundPoint::AfterSharedCall { idx: 0, len: 3 }, true),
        RoundMove::SkipRestAndStop { from: 1 }
    );
    assert_eq!(round_move(RoundPoint::AfterSharedCall { idx: 2, len: 3 }, true), RoundMove::Go);
    assert_eq!(round_move(RoundPoint::AfterShared, true), RoundMove::Stop);
    assert_eq!(round_move(RoundPoint::AfterExclusive, true), RoundMove::Stop);
}

#[test]
fn a_turn_runs_its_steps_in_order() {
    let mut st = RunState::start(vec![]);
    let step = st.first_step();
    assert_eq!(step, TurnStep::PreInference);
    assert_eq!(st.turns_used, 1);
    assert!(matches!(st.advance(step, StepReport::Hook(ReactAction::Continue)), TurnMove::Next(TurnStep::Inference)));
    let r = response(vec![tool_use("t1", "echo", "{}")], StopReason::ToolUse, (10, 15), Some(Decimal::new(2, 4)));
    let next = st.advance(TurnStep::Inference, StepReport::Answered(r));
    assert_eq!(st.tokens_in, 10);
    assert_eq!(st.cost, Decimal::new(2, 4));
    assert!(matches!(next, TurnMove::Next(TurnStep::PostInference { stop: StopReason::ToolUse })));
    let next = st.advance(TurnStep::PostInference { stop: StopReason::ToolUse }, StepReport::Hook(ReactAction::Continue));
    assert!(matches!(next, TurnMove::Next(TurnStep::Tools)));
    assert_eq!(st.messages.len(), 1);
    st.record_skip("t1", "echo", "policy");
    assert!(matches!(st.advance(TurnStep::Tools, StepReport::RoundEnded(None)), TurnMove::Next(TurnStep::ExitCheck)));
    assert_eq!(st.messages.len(), 2);
    assert!(st.results.is_empty());
    assert!(matches!(st.advance(TurnStep::ExitCheck, StepReport::Hook(ReactAction::Continue)), TurnMove::Next(TurnStep::Limits)));
    assert!(matches!(st.advance(TurnStep::Limits, StepReport::LimitsChecked(None)), TurnMove::Next(TurnStep::Compaction)));
    assert!(matches!(st.advance(TurnStep::Compaction, StepReport::CompactionDone), TurnMove::Next(TurnStep::PreInference)));
    assert_eq!(st.turns_used, 2);
    match st.advance(TurnStep::PreInference, StepReport::Hook(ReactAction::Halt { reason: "stop".into() })) {
        TurnMove::End(ExitReason::InterceptorHalt { reason }) => assert_eq!(reason, "stop"),
        _ => panic!("expected an interceptor halt"),
    }
}

#[test]
fn stop_reasons_and_failures_end_a_run() {
    let mut st = RunState::start(vec![]);
    assert!(matches!(
        st.advance(TurnStep::PostInference { stop: StopReason::EndTurn }, StepReport::Hook(ReactAction::Continue)),
        TurnMove::End(ExitReason::Complete)
    ));
    match st.advance(TurnStep::Inference, StepReport::ModelFailed { message: "down".into(), retryable: true }) {
        TurnMove::Fail(OperatorError::Model { message, retryable }) => {
            assert_eq!(message, "down");
            assert!(retryable);
        }
        _ => panic!("expected a model error"),
    }
    match st.advance(TurnStep::Limits, StepReport::LimitsChecked(Some(ExitReason::MaxTurns))) {
        TurnMove::End(ExitReason::MaxTurns) => {}
        _ => panic!("expected max turns"),
    }
    assert!(matches!(st.advance(TurnStep::Tools, StepReport::CompactionDone), TurnMove::Next(TurnStep::Tools)));
}

#[test]
fn try_advance_refuses_an_overflowing_answer() {
    let mut st = RunState::start(vec![]);
    assert!(st.try_account(&response(vec![], StopReason::EndTurn, (u64::MAX, 0), None)));
    let r = response(vec![text("x")], StopReason::EndTurn, (1, 0), None);
    assert!(!st.fits(&r));
    assert!(st.try_advance(TurnStep::Inference, StepReport::Answered(r)).is_none());
    assert_eq!(st.tokens_in, u64::MAX);
    let ok = response(vec![text("y")], StopReason::EndTurn, (0, 3), None);
    match st.try_advance(TurnStep::Inference, StepReport::Answered(ok)) {
        Some(TurnMove::Next(TurnStep::PostInference { stop: StopReason::EndTurn })) => {}
        _ => panic!("expected the post-inference step"),
    }
    assert_eq!(st.tokens_out, 3);
}
