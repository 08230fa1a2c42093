use context_engine::context::Context;
use context_engine::message::{Content, Message, Role};
use context_engine::rules::{
    fire_rules, firing_order, BudgetGuard, BudgetGuardConfig, CompactionRule, Condition, Phase, Rule, RuleAction,
    TelemetryConfig, TelemetryLevel, TelemetryRule, TelemetryVerbosity, Trigger,
};
use context_engine::error::EngineError;
use std::time::Duration;

fn telemetry(name: &str, priority: i32) -> Rule {
    Rule::new(name, Trigger::AfterAny, priority, RuleAction::Telemetry(TelemetryRule::new()))
}

#[test]
fn higher_priority_rules_fire_first() {
    let rules = vec![
        telemetry("low", 0),
        Rule::new("budget", Trigger::BeforeAny, 100, RuleAction::Budget(BudgetGuard::new())),
        CompactionRule::sliding_window(10).into_rule(),
    ];
    assert_eq!(firing_order(&rules), vec![1, 2, 0]);
}

#[test]
fn equal_priorities_keep_insertion_order() {
    let rules = vec![telemetry("a", 5), telemetry("b", 7), telemetry("c", 5), telemetry("d", 7), telemetry("e", -3)];
    assert_eq!(firing_order(&rules), vec![1, 3, 0, 2, 4]);
}

#[test]
fn no_rules_no_order() {
    let rules: Vec<Rule> = vec![];
    assert!(firing_order(&rules).is_empty());
}

#[test]
fn triggers_fire_at_their_phase() {
    let mut ctx = Context::new();
    assert!(Trigger::BeforeAny.fires(Phase::Before, &ctx));
    assert!(!Trigger::BeforeAny.fires(Phase::After, &ctx));
    assert!(Trigger::AfterAny.fires(Phase::After, &ctx));
    assert!(!Trigger::AfterAny.fires(Phase::Before, &ctx));
    let when = Trigger::When(Condition::MessageCountAbove(1));
    ctx.push_message(Message::new(Role::User, Content::text("one")));
    assert!(!when.fires(Phase::Before, &ctx));
    ctx.push_message(Message::new(Role::User, Content::text("two")));
    assert!(when.fires(Phase::Before, &ctx));
    assert!(!when.fires(Phase::After, &ctx));
}

fn ctx_with(n: usize, rules: Vec<Rule>) -> Context {
    let mut ctx = Context::new();
    for i in 0..n {
        ctx.push_message(Message::new(Role::User, Content::text(&format!("m{i}"))));
    }
    ctx.rules = rules;
    ctx
}

#[test]
fn rules_fire_around_an_operation() {
    let full = TelemetryConfig { verbosity: TelemetryVerbosity::Full, level: TelemetryLevel::Debug };
    let rules = vec![
        TelemetryRule::with_config(full).into_rule(),
        CompactionRule::sliding_window(2).into_rule(),
        Rule::new("budget", Trigger::BeforeAny, 100, RuleAction::Budget(BudgetGuard::new())),
    ];
    let mut ctx = ctx_with(4, rules);
    let (result, events) = fire_rules(&mut ctx, Phase::Before, Duration::from_millis(5));
    assert!(result.is_ok());
    assert!(events.is_empty());
    assert_eq!(ctx.messages().len(), 2);
    assert_eq!(ctx.rules.len(), 3);

    let (result, events) = fire_rules(&mut ctx, Phase::After, Duration::from_millis(7));
    assert!(result.is_ok());
    assert_eq!(events.len(), 1);
    assert_eq!(events[0].name, "neuron.full");
    assert_eq!(events[0].message_count, Some(2));
    assert_eq!(events[0].rule_count, Some(3));
    assert_eq!(events[0].elapsed_ms, 7);
}

#[test]
fn a_budget_halt_stops_later_rules() {
    let guard = BudgetGuard::with_config(BudgetGuardConfig { max_turns: Some(1), ..BudgetGuardConfig::default() });
    let rules = vec![
        Rule::new("budget", Trigger::BeforeAny, 100, RuleAction::Budget(guard)),
        CompactionRule::sliding_window(1).with_trigger(Trigger::BeforeAny).into_rule(),
    ];
    let mut ctx = ctx_with(3, rules);
    ctx.count_turn();
    let (result, events) = fire_rules(&mut ctx, Phase::Before, Duration::ZERO);
    assert_eq!(result, Err(EngineError::Halted { reason: "turn limit exceeded: 1 >= 1".into() }));
    assert!(events.is_empty());
    assert_eq!(ctx.messages().len(), 3);
}
