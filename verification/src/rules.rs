//! Reactive rules: compaction when the buffer grows, budget guards, and
//! telemetry records of the accumulated metrics.
use crate::compaction::{policy_trim, policy_trim_spec, sliding_window, sliding_window_spec};
use crate::context::{Context, TurnMetrics};
use crate::error::EngineError;
use crate::message::MessageModel;
use crate::money::{decimal_gt, decimal_greater, decimal_text, decimal_to_text};
use crate::text::{decimal_digits, u64_text};
use rust_decimal::Decimal;
use std::time::Duration;
use vstd::prelude::*;

verus! {

// ── Rules and triggers ──────────────────────────────────────────────────

/// A condition on the context that makes a rule fire.
#[derive(Debug, Clone, Copy, PartialEq, Eq)]
pub enum Condition {
    /// More than this many messages are in the buffer.
    MessageCountAbove(usize),
}

/// When a rule fires.
#[derive(Debug, Clone, Copy, PartialEq, Eq)]
pub enum Trigger {
    /// Before every context operation.
    BeforeAny,
    /// After every context operation.
    AfterAny,
    /// Whenever the condition holds at the start of an operation.
    When(Condition),
}

/// What a rule does when it fires.
pub enum RuleAction {
    /// Compact the message buffer.
    Compaction(CompactionRule),
    /// Record telemetry.
    Telemetry(TelemetryRule),
    /// Enforce a budget.
    Budget(BudgetGuard),
}

/// A reactive participant: an action with a trigger and a priority (higher
/// priorities fire first).
pub struct Rule {
    /// Name for tracing.
    pub name: String,
    /// When it fires.
    pub trigger: Trigger,
    /// Firing priority.
    pub priority: i32,
    /// What it does.
    pub action: RuleAction,
}

impl Rule {
    /// A rule from its parts.
    pub fn new(name: &str, trigger: Trigger, priority: i32, action: RuleAction) -> (r: Rule)
        ensures
            r.name@ == name@,
            r.trigger == trigger,
            r.priority == priority,
            r.action == action,
    {
        Rule { name: String::from_str(name), trigger, priority, action }
    }
}

/// The side of a context operation at which rules are consulted.
#[derive(Debug, Clone, Copy, PartialEq, Eq, Structural)]
pub enum Phase {
    /// Before the operation runs.
    Before,
    /// After the operation has run.
    After,
}

/// Whether a trigger fires at a phase, for a buffer of this many messages:
/// `BeforeAny` and conditions before the operation, `AfterAny` after it.
pub open spec fn trigger_fires(t: Trigger, phase: Phase, message_count: nat) -> bool {
    match t {
        Trigger::BeforeAny => phase == Phase::Before,
        Trigger::AfterAny => phase == Phase::After,
        Trigger::When(Condition::MessageCountAbove(n)) => phase == Phase::Before && message_count > n,
    }
}

impl Trigger {
    /// Whether a rule with this trigger fires at this phase of an operation
    /// on the context.
    pub fn fires(&self, phase: Phase, ctx: &Context) -> (r: bool)
        ensures
            r == trigger_fires(*self, phase, ctx.messages_model().len()),
    {
        match self {
            Trigger::BeforeAny => phase == Phase::Before,
            Trigger::AfterAny => phase == Phase::After,
            Trigger::When(c) => phase == Phase::Before && c.holds(ctx),
        }
    }
}

/// Whether the rule at index `a` fires before the one at index `b`: the
/// higher priority first, and of equal priorities the one added first.
pub open spec fn fires_first(rules: Seq<Rule>, a: int, b: int) -> bool {
    rules[a].priority > rules[b].priority || (rules[a].priority == rules[b].priority && a < b)
}

/// Where a rule of priority `p` enters a firing order: before the first
/// rule of lower priority, after every rule of equal or higher priority.
pub open spec fn insert_pos(rules: Seq<Rule>, o: Seq<usize>, p: i32) -> int
    decreases o.len(),
{
    if o.len() == 0 {
        0
    } else if rules[o[0] as int].priority < p {
        0
    } else {
        1 + insert_pos(rules, o.skip(1), p)
    }
}

/// The firing order of the first `n` rules: each rule, in the order added,
/// inserted at its priority's place.
pub open spec fn order_prefix(rules: Seq<Rule>, n: nat) -> Seq<usize>
    decreases n,
{
    if n == 0 {
        Seq::empty()
    } else {
        let o = order_prefix(rules, (n - 1) as nat);
        o.insert(insert_pos(rules, o, rules[n - 1].priority), (n - 1) as usize)
    }
}

/// The order in which a list of rules fires.
pub open spec fn firing_order_spec(rules: Seq<Rule>) -> Seq<usize> {
    order_prefix(rules, rules.len())
}

/// The place found by scanning past the rules of equal or higher priority
/// is the insertion place.
proof fn lemma_insert_pos(rules: Seq<Rule>, o: Seq<usize>, p: i32, pos: int)
    requires
        0 <= pos <= o.len(),
        forall|k: int| 0 <= k < pos ==> rules[#[trigger] o[k] as int].priority >= p,
        pos < o.len() ==> rules[o[pos] as int].priority < p,
    ensures
        insert_pos(rules, o, p) == pos,
    decreases pos,
{
    if pos > 0 {
        let s = o.skip(1);
        assert forall|k: int| 0 <= k < pos - 1 implies rules[#[trigger] s[k] as int].priority >= p by {
            assert(s[k] == o[k + 1]);
        }
        if pos - 1 < s.len() {
            assert(s[pos - 1] == o[pos]);
        }
        lemma_insert_pos(rules, s, p, pos - 1);
        assert(rules[o[0] as int].priority >= p);
    }
}

/// The order in which rules fire: every rule once, higher priorities first,
/// rules of equal priority in the order they were added.
pub fn firing_order(rules: &Vec<Rule>) -> (r: Vec<usize>)
    ensures
        r@ == firing_order_spec(rules@),
        r@.len() == rules@.len(),
        forall|k: int| 0 <= k < r@.len() ==> r@[k] < rules@.len(),
        forall|i: usize| i < rules@.len() ==> #[trigger] r@.contains(i),
        forall|a: int, b: int|
            0 <= a < b < r@.len() ==> fires_first(rules@, #[trigger] r@[a] as int, #[trigger] r@[b] as int),
{
    let n = rules.len();
    let mut r: Vec<usize> = Vec::new();
    for j in 0..n
        invariant
            n == rules@.len(),
            r@ == order_prefix(rules@, j as nat),
            r@.len() == j,
            forall|k: int| 0 <= k < r@.len() ==> r@[k] < j,
            forall|t: usize| t < j ==> #[trigger] r@.contains(t),
            forall|a: int, b: int|
                0 <= a < b < r@.len() ==> fires_first(rules@, #[trigger] r@[a] as int, #[trigger] r@[b] as int),
    {
        let p = rules[j].priority;
        let mut pos: usize = 0;
        while pos < r.len() && rules[r[pos]].priority >= p
            invariant
                n == rules@.len(),
                j < n,
                p == rules@[j as int].priority,
                r@.len() == j,
                pos <= r@.len(),
                forall|k: int| 0 <= k < r@.len() ==> r@[k] < j,
                forall|k: int| 0 <= k < pos ==> rules@[#[trigger] r@[k] as int].priority >= p,
            decreases r@.len() - pos,
        {
            pos = pos + 1;
        }
        let ghost old_r = r@;
        proof {
            lemma_insert_pos(rules@, old_r, p, pos as int);
            assert forall|k: int| pos <= k < old_r.len() implies rules@[#[trigger] old_r[k] as int].priority < p by {
                if k > pos {
                    assert(fires_first(rules@, old_r[pos as int] as int, old_r[k] as int));
                }
            }
        }
        r.insert(pos, j);
        proof {
            assert(r@ == old_r.insert(pos as int, j));
            assert forall|k: int| 0 <= k < r@.len() implies r@[k] < j + 1 by {
                if k > pos {
                    assert(r@[k] == old_r[k - 1]);
                }
            }
            assert forall|t: usize| t < j + 1 implies #[trigger] r@.contains(t) by {
                if t < j {
                    assert(old_r.contains(t));
                    let k = choose|k: int| 0 <= k < old_r.len() && old_r[k] == t;
                    if k < pos {
                        assert(r@[k] == t);
                    } else {
                        assert(r@[k + 1] == t);
                    }
                } else {
                    assert(r@[pos as int] == j);
                }
            }
            assert forall|a: int, b: int| 0 <= a < b < r@.len() implies fires_first(
                rules@,
                #[trigger] r@[a] as int,
                #[trigger] r@[b] as int,
            ) by {
                if b < pos {
                    assert(fires_first(rules@, old_r[a] as int, old_r[b] as int));
                } else if b == pos {
                    assert(rules@[old_r[a] as int].priority >= p);
                } else if a == pos {
                    assert(r@[b] == old_r[b - 1]);
                } else if a < pos {
                    assert(fires_first(rules@, old_r[a] as int, old_r[b - 1] as int));
                } else {
                    assert(fires_first(rules@, old_r[a - 1] as int, old_r[b - 1] as int));
                }
            }
        }
    }
    r
}

impl Condition {
    /// Whether the condition holds for a context.
    pub fn holds(&self, ctx: &Context) -> (r: bool)
        ensures
            match *self {
                Condition::MessageCountAbove(n) => r == (ctx.messages_model().len() > n),
            },
    {
        match self {
            Condition::MessageCountAbove(n) => ctx.message_count() > *n,
        }
    }
}

// ── Compaction rule ─────────────────────────────────────────────────────

/// The outcome of a compaction.
#[derive(Debug, Clone, Copy, PartialEq, Eq)]
pub struct CompactionReport {
    /// Messages before compaction.
    pub messages_before: usize,
    /// Messages after compaction.
    pub messages_after: usize,
}

/// A pre-built compaction strategy.
#[derive(Debug, Clone, Copy, PartialEq, Eq)]
pub enum CompactionStrategy {
    /// Keep the `keep` most recent non-pinned messages and every pinned one.
    SlidingWindow { keep: usize },
    /// Remove messages by policy tier until `target` remain.
    PolicyTrim { target: usize },
}

/// The messages a strategy produces from a buffer.
pub open spec fn apply_strategy(s: CompactionStrategy, msgs: Seq<MessageModel>) -> Seq<MessageModel> {
    match s {
        CompactionStrategy::SlidingWindow { keep } => sliding_window_spec(msgs, keep as nat),
        CompactionStrategy::PolicyTrim { target } => policy_trim_spec(msgs, target as nat),
    }
}

/// A rule that compacts the buffer when it holds more than a threshold of messages.
pub struct CompactionRule {
    strategy: CompactionStrategy,
    max_messages: usize,
    custom_trigger: Option<Trigger>,
    priority: i32,
}

impl CompactionRule {
    /// The strategy applied when the rule fires.
    pub closed spec fn strategy_spec(&self) -> CompactionStrategy {
        self.strategy
    }

    /// The message count above which the default trigger fires.
    pub closed spec fn threshold(&self) -> usize {
        self.max_messages
    }

    /// The trigger set by [`CompactionRule::with_trigger`], if any.
    pub closed spec fn custom_trigger_spec(&self) -> Option<Trigger> {
        self.custom_trigger
    }

    /// The rule's priority.
    pub closed spec fn priority_spec(&self) -> i32 {
        self.priority
    }

    /// A sliding-window rule firing above `keep` messages, priority 50.
    pub fn sliding_window(keep: usize) -> (r: CompactionRule)
        ensures
            r.strategy_spec() == (CompactionStrategy::SlidingWindow { keep }),
            r.threshold() == keep,
            r.custom_trigger_spec() is None,
            r.priority_spec() == 50,
    {
        CompactionRule {
            strategy: CompactionStrategy::SlidingWindow { keep },
            max_messages: keep,
            custom_trigger: None,
            priority: 50,
        }
    }

    /// A policy-trim rule firing above `target` messages, priority 50.
    pub fn policy_trim(target: usize) -> (r: CompactionRule)
        ensures
            r.strategy_spec() == (CompactionStrategy::PolicyTrim { target }),
            r.threshold() == target,
            r.custom_trigger_spec() is None,
            r.priority_spec() == 50,
    {
        CompactionRule {
            strategy: CompactionStrategy::PolicyTrim { target },
            max_messages: target,
            custom_trigger: None,
            priority: 50,
        }
    }

    /// Replace the default trigger.
    pub fn with_trigger(self, trigger: Trigger) -> (r: CompactionRule)
        ensures
            r.custom_trigger_spec() == Some(trigger),
            r.strategy_spec() == self.strategy_spec(),
            r.threshold() == self.threshold(),
            r.priority_spec() == self.priority_spec(),
    {
        CompactionRule { custom_trigger: Some(trigger), ..self }
    }

    /// Replace the priority.
    pub fn with_priority(self, priority: i32) -> (r: CompactionRule)
        ensures
            r.priority_spec() == priority,
            r.strategy_spec() == self.strategy_spec(),
            r.threshold() == self.threshold(),
            r.custom_trigger_spec() == self.custom_trigger_spec(),
    {
        CompactionRule { priority, ..self }
    }

    /// The rule named `compaction`, firing on the custom trigger or, by
    /// default, when the buffer holds more than the threshold.
    pub fn into_rule(self) -> (r: Rule)
        ensures
            r.name@ == "compaction"@,
            r.trigger == match self.custom_trigger_spec() {
                Some(t) => t,
                None => Trigger::When(Condition::MessageCountAbove(self.threshold())),
            },
            r.priority == self.priority_spec(),
            r.action matches RuleAction::Compaction(c) && c.strategy_spec() == self.strategy_spec(),
    {
        let trigger = match self.custom_trigger {
            Some(t) => t,
            None => Trigger::When(Condition::MessageCountAbove(self.max_messages)),
        };
        let priority = self.priority;
        Rule::new("compaction", trigger, priority, RuleAction::Compaction(self))
    }

    /// Compact the context's messages with the rule's strategy.
    pub fn execute(&self, ctx: &mut Context) -> (r: CompactionReport)
        ensures
            final(ctx).messages_model() == apply_strategy(self.strategy_spec(), old(ctx).messages_model()),
            r.messages_before == old(ctx).messages_model().len(),
            r.messages_after == final(ctx).messages_model().len(),
            final(ctx).metrics == old(ctx).metrics,
            final(ctx).intents_model() == old(ctx).intents_model(),
            final(ctx).rules_model() == old(ctx).rules_model(),
    {
        let before = ctx.message_count();
        let compacted = match self.strategy {
            CompactionStrategy::SlidingWindow { keep } => sliding_window(ctx.messages(), keep),
            CompactionStrategy::PolicyTrim { target } => policy_trim(ctx.messages(), target),
        };
        ctx.set_messages(compacted);
        let after = ctx.message_count();
        CompactionReport { messages_before: before, messages_after: after }
    }
}

// ── Budget guard ────────────────────────────────────────────────────────

/// Limits enforced by a [`BudgetGuard`]; `None` means no limit.
#[derive(Debug, Clone)]
pub struct BudgetGuardConfig {
    /// Maximum cost.
    pub max_cost: Option<Decimal>,
    /// Maximum completed inference turns.
    pub max_turns: Option<u32>,
    /// Maximum wall-clock duration.
    pub max_duration: Option<Duration>,
    /// Maximum tool calls.
    pub max_tool_calls: Option<u32>,
}

impl BudgetGuardConfig {
    /// The default limits: ten turns, nothing else.
    pub fn default_limits() -> (r: BudgetGuardConfig)
        ensures
            r.max_cost is None,
            r.max_turns == Some(10u32),
            r.max_duration is None,
            r.max_tool_calls is None,
    {
        BudgetGuardConfig { max_cost: None, max_turns: Some(10), max_duration: None, max_tool_calls: None }
    }
}

/// A guard that halts execution when a configured limit is exceeded.
pub struct BudgetGuard {
    /// The limits.
    pub config: BudgetGuardConfig,
}

/// Whether any configured limit is exceeded: cost above its maximum, turns
/// or tool calls at or above theirs, or elapsed time above the maximum
/// duration.
pub open spec fn limit_exceeded(c: BudgetGuardConfig, m: TurnMetrics, elapsed: Duration) -> bool {
    ||| (c.max_cost matches Some(x) && decimal_greater(m.cost, x))
    ||| (c.max_turns matches Some(k) && m.turns_completed >= k)
    ||| (c.max_duration matches Some(d) && duration_nanos(elapsed) > duration_nanos(d))
    ||| (c.max_tool_calls matches Some(k) && m.tool_calls_total >= k)
}

/// Which limit a budget check found exceeded.
#[derive(Debug, Clone, Copy, PartialEq, Eq)]
pub enum BudgetBreach {
    /// Cost above the maximum.
    Cost,
    /// Turns at or above the maximum.
    Turns,
    /// Duration above the maximum.
    Duration,
    /// Tool calls at or above the maximum.
    ToolCalls,
}

/// The first limit exceeded, checked in the order cost, turns, duration,
/// tool calls; `None` when all are within bounds.
pub open spec fn budget_breach(c: BudgetGuardConfig, m: TurnMetrics, elapsed: Duration) -> Option<BudgetBreach> {
    if c.max_cost matches Some(max) && decimal_greater(m.cost, max) {
        Some(BudgetBreach::Cost)
    } else if c.max_turns matches Some(max) && m.turns_completed >= max {
        Some(BudgetBreach::Turns)
    } else if c.max_duration matches Some(max) && duration_nanos(elapsed) > duration_nanos(max) {
        Some(BudgetBreach::Duration)
    } else if c.max_tool_calls matches Some(max) && m.tool_calls_total >= max {
        Some(BudgetBreach::ToolCalls)
    } else {
        None
    }
}

/// The whole nanoseconds a duration spans (`Duration::as_nanos`); durations
/// compare by it.
pub uninterp spec fn duration_nanos(d: Duration) -> nat;

/// `Duration::as_nanos`: the total number of whole nanoseconds.
#[verifier::external_body]
fn nanos_of(d: &Duration) -> (r: u128)
    ensures
        r == duration_nanos(*d),
{
    d.as_nanos()
}

/// The `Debug` text of a duration, e.g. `1.5s`.
pub uninterp spec fn duration_debug(d: Duration) -> Seq<char>;

/// `Debug` formatting of a `std::time::Duration`.
#[verifier::external_body]
fn duration_text(d: &Duration) -> (r: String)
    ensures
        r@ == duration_debug(*d),
{
    format!("{:?}", d)
}

/// The halt reason reported for a breach.
pub open spec fn breach_reason(
    b: BudgetBreach,
    c: BudgetGuardConfig,
    m: TurnMetrics,
    elapsed: Duration,
) -> Seq<char> {
    match b {
        BudgetBreach::Cost => "cost budget exceeded: "@ + decimal_text(m.cost) + " > "@
            + decimal_text(c.max_cost.unwrap()),
        BudgetBreach::Turns => "turn limit exceeded: "@ + decimal_digits(m.turns_completed as nat)
            + " >= "@ + decimal_digits(c.max_turns.unwrap() as nat),
        BudgetBreach::Duration => "duration exceeded: "@ + duration_debug(elapsed) + " > "@
            + duration_debug(c.max_duration.unwrap()),
        BudgetBreach::ToolCalls => "tool call limit exceeded: "@ + decimal_digits(
            m.tool_calls_total as nat,
        ) + " >= "@ + decimal_digits(c.max_tool_calls.unwrap() as nat),
    }
}

impl BudgetGuard {
    /// A guard with the default limits (ten turns).
    pub fn new() -> (r: BudgetGuard)
        ensures
            r.config.max_cost is None,
            r.config.max_turns == Some(10u32),
            r.config.max_duration is None,
            r.config.max_tool_calls is None,
    {
        BudgetGuard { config: BudgetGuardConfig::default_limits() }
    }

    /// A guard with the given limits.
    pub fn with_config(config: BudgetGuardConfig) -> (r: BudgetGuard)
        ensures
            r.config == config,
    {
        BudgetGuard { config }
    }

    /// Check the metrics against the limits: `Ok` when all hold, otherwise a
    /// halt naming the first limit exceeded.
    pub fn check(&self, metrics: &TurnMetrics, elapsed: Duration) -> (r: Result<(), EngineError>)
        ensures
            r is Err <==> limit_exceeded(self.config, *metrics, elapsed),
            r is Err ==> r matches Err(EngineError::Halted { .. }),
            (self.config.max_tool_calls matches Some(k) && metrics.tool_calls_total >= k) ==> r matches Err(
                EngineError::Halted { .. },
            ),
            (self.config.max_turns matches Some(k) && metrics.turns_completed >= k) ==> r matches Err(
                EngineError::Halted { .. },
            ),
            (self.config.max_duration matches Some(d) && duration_nanos(elapsed) > duration_nanos(d)) ==> r matches Err(
                EngineError::Halted { .. },
            ),
            (self.config.max_cost matches Some(x) && decimal_greater(metrics.cost, x)) ==> r matches Err(
                EngineError::Halted { .. },
            ),
            self.config.max_tool_calls matches Some(k) ==> (metrics.tool_calls_total >= k
                && !(self.config.max_cost matches Some(x) && decimal_greater(metrics.cost, x))
                && !(self.config.max_turns matches Some(t) && metrics.turns_completed >= t)
                && !(self.config.max_duration matches Some(d) && duration_nanos(elapsed) > duration_nanos(d))
                ==> (r matches Err(EngineError::Halted { reason }) && reason@ == "tool call limit exceeded: "@
                + decimal_digits(metrics.tool_calls_total as nat) + " >= "@ + decimal_digits(k as nat))),
            self.config.max_turns matches Some(k) ==> (metrics.turns_completed >= k
                && !(self.config.max_cost matches Some(x) && decimal_greater(metrics.cost, x))
                ==> (r matches Err(EngineError::Halted { reason }) && reason@ == "turn limit exceeded: "@
                + decimal_digits(metrics.turns_completed as nat) + " >= "@ + decimal_digits(k as nat))),
            match budget_breach(self.config, *metrics, elapsed) {
                None => r is Ok,
                Some(b) => r matches Err(EngineError::Halted { reason }) && reason@ == breach_reason(
                    b,
                    self.config,
                    *metrics,
                    elapsed,
                ),
            },
    {
        proof {
            reveal_strlit("cost budget exceeded: ");
            reveal_strlit(" > ");
            reveal_strlit("turn limit exceeded: ");
            reveal_strlit(" >= ");
            reveal_strlit("duration exceeded: ");
            reveal_strlit("tool call limit exceeded: ");
        }
        if let Some(max_cost) = &self.config.max_cost {
            if decimal_gt(&metrics.cost, max_cost) {
                let reason = String::from_str("cost budget exceeded: ")
                    .concat(decimal_to_text(&metrics.cost).as_str())
                    .concat(" > ")
                    .concat(decimal_to_text(max_cost).as_str());
                return Err(EngineError::Halted { reason });
            }
        }
        if let Some(max_turns) = self.config.max_turns {
            if metrics.turns_completed >= max_turns {
                let reason = String::from_str("turn limit exceeded: ")
                    .concat(u64_text(metrics.turns_completed as u64).as_str())
                    .concat(" >= ")
                    .concat(u64_text(max_turns as u64).as_str());
                return Err(EngineError::Halted { reason });
            }
        }
        if let Some(max) = &self.config.max_duration {
            if nanos_of(&elapsed) > nanos_of(max) {
                let reason = String::from_str("duration exceeded: ")
                    .concat(duration_text(&elapsed).as_str())
                    .concat(" > ")
                    .concat(duration_text(max).as_str());
                return Err(EngineError::Halted { reason });
            }
        }
        if let Some(max_calls) = self.config.max_tool_calls {
            if metrics.tool_calls_total >= max_calls {
                let reason = String::from_str("tool call limit exceeded: ")
                    .concat(u64_text(metrics.tool_calls_total as u64).as_str())
                    .concat(" >= ")
                    .concat(u64_text(max_calls as u64).as_str());
                return Err(EngineError::Halted { reason });
            }
        }
        Ok(())
    }
}

// ── Telemetry rule ──────────────────────────────────────────────────────

/// How much detail telemetry records.
#[derive(Debug, Clone, Copy, PartialEq, Eq, Structural)]
pub enum TelemetryVerbosity {
    /// Metrics only.
    Metrics,
    /// Metrics and per-operation deltas.
    Operations,
    /// Everything, including message, intent and rule counts.
    Full,
}

/// The tracing level telemetry is recorded at.
#[derive(Debug, Clone, Copy, PartialEq, Eq, Structural)]
pub enum TelemetryLevel {
    /// Trace.
    Trace,
    /// Debug.
    Debug,
    /// Info.
    Info,
}

/// Telemetry configuration.
#[derive(Debug, Clone, Copy, PartialEq, Eq)]
pub struct TelemetryConfig {
    /// Detail recorded.
    pub verbosity: TelemetryVerbosity,
    /// Tracing level.
    pub level: TelemetryLevel,
}

impl TelemetryConfig {
    /// The default configuration: operations verbosity at info level.
    pub fn default_config() -> (r: TelemetryConfig)
        ensures
            r.verbosity == TelemetryVerbosity::Operations,
            r.level == TelemetryLevel::Info,
    {
        TelemetryConfig { verbosity: TelemetryVerbosity::Operations, level: TelemetryLevel::Info }
    }
}

/// A rule that records the accumulated metrics after every operation.
pub struct TelemetryRule {
    /// Configuration.
    pub config: TelemetryConfig,
    last_tokens_in: u64,
    last_tokens_out: u64,
    last_tool_calls: u32,
}

/// One telemetry record, ready to be emitted as a tracing event.
#[derive(Debug, Clone)]
pub struct TelemetryEvent {
    /// Tracing level.
    pub level: TelemetryLevel,
    /// Event name: `neuron.metrics`, `neuron.op` or `neuron.full`.
    pub name: String,
    /// Input tokens so far.
    pub tokens_in: u64,
    /// Output tokens so far.
    pub tokens_out: u64,
    /// Cost so far.
    pub cost: Decimal,
    /// Completed turns.
    pub turns: u32,
    /// Tool calls so far.
    pub tool_calls: u32,
    /// Milliseconds since the invocation started.
    pub elapsed_ms: u64,
    /// Input tokens since the last record (operations and full verbosity).
    pub delta_tokens_in: Option<u64>,
    /// Output tokens since the last record (operations and full verbosity).
    pub delta_tokens_out: Option<u64>,
    /// Tool calls since the last record (operations and full verbosity).
    pub delta_tool_calls: Option<u32>,
    /// Messages in the buffer (full verbosity).
    pub message_count: Option<usize>,
    /// Declared effects (full verbosity).
    pub effect_count: Option<usize>,
    /// Registered rules (full verbosity).
    pub rule_count: Option<usize>,
}

/// Saturating difference of naturals.
pub open spec fn sat_sub(a: int, b: int) -> int {
    if a >= b {
        a - b
    } else {
        0
    }
}

/// Whether `e` is the record a telemetry rule makes of these metrics and
/// counts (messages, intents, rules) at this elapsed time: the totals always;
/// the deltas since the rule's snapshot (saturating at zero) for operations
/// and full verbosity; the counts for full verbosity.
pub open spec fn observation(
    t: TelemetryRule,
    m: TurnMetrics,
    messages: nat,
    intents: nat,
    rules: nat,
    elapsed_ms: u64,
    e: TelemetryEvent,
) -> bool {
    let v = t.config_spec().verbosity;
    &&& e.level == t.config_spec().level
    &&& e.name@ == match v {
        TelemetryVerbosity::Metrics => "neuron.metrics"@,
        TelemetryVerbosity::Operations => "neuron.op"@,
        TelemetryVerbosity::Full => "neuron.full"@,
    }
    &&& e.tokens_in == m.tokens_in
    &&& e.tokens_out == m.tokens_out
    &&& e.cost == m.cost
    &&& e.turns == m.turns_completed
    &&& e.tool_calls == m.tool_calls_total
    &&& e.elapsed_ms == elapsed_ms
    &&& e.delta_tokens_in == if v == TelemetryVerbosity::Metrics {
        None
    } else {
        Some(sat_sub(m.tokens_in as int, t.last_snapshot().0 as int) as u64)
    }
    &&& e.delta_tokens_out == if v == TelemetryVerbosity::Metrics {
        None
    } else {
        Some(sat_sub(m.tokens_out as int, t.last_snapshot().1 as int) as u64)
    }
    &&& e.delta_tool_calls == if v == TelemetryVerbosity::Metrics {
        None
    } else {
        Some(sat_sub(m.tool_calls_total as int, t.last_snapshot().2 as int) as u32)
    }
    &&& e.message_count == if v == TelemetryVerbosity::Full { Some(messages as usize) } else { None }
    &&& e.effect_count == if v == TelemetryVerbosity::Full { Some(intents as usize) } else { None }
    &&& e.rule_count == if v == TelemetryVerbosity::Full { Some(rules as usize) } else { None }
}

/// A telemetry record reports the current totals unchanged; it carries the
/// deltas exactly when the verbosity is operations or full, never larger than
/// the totals, and the message, intent and rule counts exactly at full
/// verbosity; its level is the configured one.
pub proof fn law_observation(
    t: TelemetryRule,
    m: TurnMetrics,
    messages: nat,
    intents: nat,
    rules: nat,
    elapsed_ms: u64,
    e: TelemetryEvent,
)
    requires
        observation(t, m, messages, intents, rules, elapsed_ms, e),
    ensures
        e.tokens_in == m.tokens_in && e.tokens_out == m.tokens_out && e.cost == m.cost,
        e.turns == m.turns_completed && e.tool_calls == m.tool_calls_total,
        e.level == t.config_spec().level,
        e.delta_tokens_in is Some <==> t.config_spec().verbosity != TelemetryVerbosity::Metrics,
        e.delta_tokens_in matches Some(d) ==> d <= m.tokens_in,
        e.delta_tokens_out matches Some(d) ==> d <= m.tokens_out,
        e.delta_tool_calls matches Some(d) ==> d <= m.tool_calls_total,
        e.message_count is Some <==> t.config_spec().verbosity == TelemetryVerbosity::Full,
        e.message_count matches Some(n) ==> n == messages as usize && e.effect_count == Some(intents as usize)
            && e.rule_count == Some(rules as usize),
        e.elapsed_ms == elapsed_ms,
{
}

impl TelemetryRule {
    /// The rule's configuration.
    pub closed spec fn config_spec(&self) -> TelemetryConfig {
        self.config
    }

    /// The metric snapshot the deltas are measured from.
    pub closed spec fn last_snapshot(&self) -> (u64, u64, u32) {
        (self.last_tokens_in, self.last_tokens_out, self.last_tool_calls)
    }

    /// A rule with the default configuration and a zero snapshot.
    pub fn new() -> (r: TelemetryRule)
        ensures
            r.config_spec().verbosity == TelemetryVerbosity::Operations,
            r.config_spec().level == TelemetryLevel::Info,
            r.last_snapshot() == (0u64, 0u64, 0u32),
    {
        TelemetryRule { config: TelemetryConfig::default_config(), last_tokens_in: 0, last_tokens_out: 0, last_tool_calls: 0 }
    }

    /// A rule with the given configuration and a zero snapshot.
    pub fn with_config(config: TelemetryConfig) -> (r: TelemetryRule)
        ensures
            r.config_spec() == config,
            r.last_snapshot() == (0u64, 0u64, 0u32),
    {
        TelemetryRule { config, last_tokens_in: 0, last_tokens_out: 0, last_tool_calls: 0 }
    }

    /// The rule named `telemetry`, firing after every operation at priority 0.
    pub fn into_rule(self) -> (r: Rule)
        ensures
            r.name@ == "telemetry"@,
            r.trigger == Trigger::AfterAny,
            r.priority == 0,
            r.action matches RuleAction::Telemetry(t) && t.config_spec() == self.config_spec(),
    {
        Rule::new("telemetry", Trigger::AfterAny, 0, RuleAction::Telemetry(self))
    }

    /// The rule named `telemetry`, firing after every operation at the given priority.
    pub fn into_rule_with_priority(self, priority: i32) -> (r: Rule)
        ensures
            r.name@ == "telemetry"@,
            r.trigger == Trigger::AfterAny,
            r.priority == priority,
            r.action matches RuleAction::Telemetry(t) && t.config_spec() == self.config_spec(),
    {
        Rule::new("telemetry", Trigger::AfterAny, priority, RuleAction::Telemetry(self))
    }

    /// The record for the current metrics: the totals always; the deltas
    /// since the snapshot (saturating at zero) for operations and full
    /// verbosity; the message, intent and rule counts for full verbosity.
    pub fn observe(&self, ctx: &Context, elapsed_ms: u64) -> (r: TelemetryEvent)
        ensures
            observation(
                *self,
                ctx.metrics,
                ctx.messages_model().len(),
                ctx.intents_model().len(),
                ctx.rules_model().len(),
                elapsed_ms,
                r,
            ),
    {
        let m = &ctx.metrics;
        let delta_in = if m.tokens_in >= self.last_tokens_in { m.tokens_in - self.last_tokens_in } else { 0 };
        let delta_out = if m.tokens_out >= self.last_tokens_out { m.tokens_out - self.last_tokens_out } else { 0 };
        let delta_tools = if m.tool_calls_total >= self.last_tool_calls { m.tool_calls_total - self.last_tool_calls } else { 0 };
        proof {
            reveal_strlit("neuron.metrics");
            reveal_strlit("neuron.op");
            reveal_strlit("neuron.full");
        }
        let (name, deltas, full) = match self.config.verbosity {
            TelemetryVerbosity::Metrics => (String::from_str("neuron.metrics"), false, false),
            TelemetryVerbosity::Operations => (String::from_str("neuron.op"), true, false),
            TelemetryVerbosity::Full => (String::from_str("neuron.full"), true, true),
        };
        TelemetryEvent {
            level: self.config.level,
            name,
            tokens_in: m.tokens_in,
            tokens_out: m.tokens_out,
            cost: m.cost.clone(),
            turns: m.turns_completed,
            tool_calls: m.tool_calls_total,
            elapsed_ms,
            delta_tokens_in: if deltas { Some(delta_in) } else { None },
            delta_tokens_out: if deltas { Some(delta_out) } else { None },
            delta_tool_calls: if deltas { Some(delta_tools) } else { None },
            message_count: if full { Some(ctx.message_count()) } else { None },
            effect_count: if full { Some(ctx.intent_count()) } else { None },
            rule_count: if full { Some(ctx.rule_count()) } else { None },
        }
    }
}

// ── Firing the rules around an operation ───────────────────────────────

/// The effect of firing the rules `order[..k]` at a phase, for these metrics
/// and elapsed time, on a buffer that starts as `msgs0`: the buffer after the
/// compaction rules, the telemetry rules that recorded (their index, with the
/// buffer's length at that moment), and the budget rule that halted, if any.
/// A rule fires when its trigger does; once a budget halts, later rules do not
/// fire.
pub open spec fn fire_prefix(
    rules: Seq<Rule>,
    order: Seq<usize>,
    k: nat,
    phase: Phase,
    m: TurnMetrics,
    elapsed: Duration,
    msgs0: Seq<MessageModel>,
) -> (Seq<MessageModel>, Seq<(int, nat)>, Option<int>)
    decreases k,
{
    if k == 0 {
        (msgs0, Seq::empty(), None)
    } else {
        let s = fire_prefix(rules, order, (k - 1) as nat, phase, m, elapsed, msgs0);
        let i = order[k - 1] as int;
        if s.2 is Some || i >= rules.len() || !trigger_fires(rules[i].trigger, phase, s.0.len()) {
            s
        } else {
            match rules[i].action {
                RuleAction::Budget(g) => if budget_breach(g.config, m, elapsed) is Some {
                    (s.0, s.1, Some(i))
                } else {
                    s
                },
                RuleAction::Compaction(c) => (apply_strategy(c.strategy_spec(), s.0), s.1, s.2),
                RuleAction::Telemetry(_) => (s.0, s.1.push((i, s.0.len())), s.2),
            }
        }
    }
}

/// The whole milliseconds of a duration.
pub open spec fn whole_millis(d: Duration) -> u64 {
    (duration_nanos(d) / 1_000_000) as u64
}

/// What firing a context's rules gives: `Ok` unless a budget halts, with its
/// breach reason; one telemetry record per telemetry rule that fired, in
/// firing order.
pub open spec fn fired_as(
    rules: Seq<Rule>,
    s: (Seq<MessageModel>, Seq<(int, nat)>, Option<int>),
    m: TurnMetrics,
    intents: nat,
    elapsed: Duration,
    r: (Result<(), EngineError>, Vec<TelemetryEvent>),
) -> bool {
    &&& match s.2 {
        None => r.0 is Ok,
        Some(i) => rules[i].action matches RuleAction::Budget(g) && budget_breach(g.config, m, elapsed)
            matches Some(b) && r.0 matches Err(EngineError::Halted { reason }) && reason@ == breach_reason(
            b,
            g.config,
            m,
            elapsed,
        ),
    }
    &&& r.1@.len() == s.1.len()
    &&& forall|k: int|
        0 <= k < s.1.len() ==> (rules[#[trigger] s.1[k].0].action matches RuleAction::Telemetry(t)
            && observation(t, m, s.1[k].1, intents, rules.len(), whole_millis(elapsed), r.1@[k]))
}

/// Fire the context's rules at a phase of an operation, in firing order
/// (higher priority first): compaction rules compact the buffer, budget
/// guards halt with their breach reason (and no later rule fires), telemetry
/// rules record the metrics. Returns the outcome and the telemetry records to
/// emit; the metrics, intents and rules are left as they are.
pub fn fire_rules(ctx: &mut Context, phase: Phase, elapsed: Duration) -> (r: (Result<(), EngineError>, Vec<TelemetryEvent>))
    ensures
        ({
            let rules = old(ctx).rules_model();
            let s = fire_prefix(
                rules,
                firing_order_spec(rules),
                rules.len(),
                phase,
                old(ctx).metrics,
                elapsed,
                old(ctx).messages_model(),
            );
            &&& final(ctx).messages_model() == s.0
            &&& fired_as(rules, s, old(ctx).metrics, old(ctx).intents_model().len(), elapsed, r)
        }),
        final(ctx).metrics == old(ctx).metrics,
        final(ctx).intents_model() == old(ctx).intents_model(),
        final(ctx).rules_model() == old(ctx).rules_model(),
{
    let ghost m = ctx.metrics;
    let ghost intents = ctx.intents_model();
    let ghost msgs0 = ctx.messages_model();
    let mut rules: Vec<Rule> = Vec::new();
    std::mem::swap(&mut rules, &mut ctx.rules);
    let ghost rs = rules@;
    let order = firing_order(&rules);
    let n_rules = rules.len();
    let elapsed_ms = (nanos_of(&elapsed) / 1_000_000) as u64;
    let mut events: Vec<TelemetryEvent> = Vec::new();
    let mut result: Result<(), EngineError> = Ok(());
    let mut halted = false;
    let n = order.len();
    for k in 0..n
        invariant
            n == order@.len(),
            order@ == firing_order_spec(rs),
            rules@ == rs,
            n_rules == rs.len(),
            elapsed_ms == whole_millis(elapsed),
            ctx.metrics == m,
            ctx.intents_model() == intents,
            ctx.rules_model().len() == 0,
            ({
                let s = fire_prefix(rs, order@, k as nat, phase, m, elapsed, msgs0);
                &&& ctx.messages_model() == s.0
                &&& halted == s.2 is Some
                &&& fired_as(rs, s, m, intents.len(), elapsed, (result, events))
            }),
    {
        let ghost s = fire_prefix(rs, order@, k as nat, phase, m, elapsed, msgs0);
        let i = order[k];
        if !halted && i < rules.len() && rules[i].trigger.fires(phase, ctx) {
            match &rules[i].action {
                RuleAction::Budget(g) => {
                    let checked = g.check(&ctx.metrics, elapsed);
                    match checked {
                        Ok(()) => {},
                        Err(e) => {
                            result = Err(e);
                            halted = true;
                        },
                    }
                },
                RuleAction::Compaction(c) => {
                    let _report = c.execute(ctx);
                },
                RuleAction::Telemetry(t) => {
                    let mut event = t.observe(ctx, elapsed_ms);
                    if event.rule_count.is_some() {
                        event.rule_count = Some(n_rules);
                    }
                    let ghost before = events@;
                    events.push(event);
                    proof {
                        assert(events@ == before.push(event));
                        assert forall|j: int| 0 <= j < s.1.len() implies #[trigger] events@[j] == before[j] by {}
                    }
                },
            }
        }
    }
    std::mem::swap(&mut rules, &mut ctx.rules);
    (result, events)
}

/// Powers of ten are positive.
proof fn lemma_pow10_positive(n: nat)
    ensures
        crate::money::pow10(n) > 0,
    decreases n,
{
    if n > 0 {
        lemma_pow10_positive((n - 1) as nat);
    }
}

/// Decimal order is transitive: `a >= b` and `b > c` give `a > c`.
proof fn lemma_decimal_order(a: Decimal, b: Decimal, c: Decimal)
    requires
        crate::money::decimal_at_least(a, b),
        decimal_greater(b, c),
    ensures
        decimal_greater(a, c),
{
    let pa = crate::money::pow10(crate::money::decimal_scale(a) as nat);
    let pb = crate::money::pow10(crate::money::decimal_scale(b) as nat);
    let pc = crate::money::pow10(crate::money::decimal_scale(c) as nat);
    lemma_pow10_positive(crate::money::decimal_scale(a) as nat);
    lemma_pow10_positive(crate::money::decimal_scale(b) as nat);
    lemma_pow10_positive(crate::money::decimal_scale(c) as nat);
    let ma = crate::money::decimal_mantissa(a);
    let mb = crate::money::decimal_mantissa(b);
    let mc = crate::money::decimal_mantissa(c);
    assert(ma * pc > mc * pa) by (nonlinear_arith)
        requires
            ma * pb >= mb * pa,
            mb * pc > mc * pb,
            pa > 0,
            pb > 0,
            pc > 0,
    {
        assert(ma * pb * pc >= mb * pa * pc);
        assert(mb * pc * pa > mc * pb * pa);
        assert(ma * pc * pb > mc * pa * pb);
    }
}

/// A budget check finds a breach exactly when some configured limit is
/// exceeded: cost above its maximum, turns or tool calls at or above theirs,
/// or elapsed time above the maximum duration; the breach it reports is one
/// of the exceeded limits.
pub proof fn law_budget_breach_iff(c: BudgetGuardConfig, m: TurnMetrics, elapsed: Duration)
    ensures
        budget_breach(c, m, elapsed) is Some <==> limit_exceeded(c, m, elapsed),
        (c.max_tool_calls matches Some(k) && m.tool_calls_total >= k) ==> budget_breach(c, m, elapsed) is Some,
        (c.max_turns matches Some(k) && m.turns_completed >= k) ==> budget_breach(c, m, elapsed) is Some,
        (c.max_cost matches Some(x) && decimal_greater(m.cost, x)) ==> budget_breach(c, m, elapsed) is Some,
        (c.max_duration matches Some(d) && duration_nanos(elapsed) > duration_nanos(d)) ==> budget_breach(
            c,
            m,
            elapsed,
        ) is Some,
        budget_breach(c, m, elapsed) == Some(BudgetBreach::ToolCalls) ==> (c.max_tool_calls matches Some(k)
            && m.tool_calls_total >= k),
        budget_breach(c, m, elapsed) == Some(BudgetBreach::Turns) ==> (c.max_turns matches Some(k)
            && m.turns_completed >= k),
        budget_breach(c, m, elapsed) == Some(BudgetBreach::Cost) ==> (c.max_cost matches Some(x)
            && decimal_greater(m.cost, x)),
        budget_breach(c, m, elapsed) == Some(BudgetBreach::Duration) ==> (c.max_duration matches Some(d)
            && duration_nanos(elapsed) > duration_nanos(d)),
{
}

/// Once a budget is exceeded it stays exceeded: metrics that have only grown
/// (cost, turns, tool calls, elapsed time) still breach some limit.
pub proof fn law_budget_breach_monotone(
    c: BudgetGuardConfig,
    m: TurnMetrics,
    elapsed: Duration,
    later: TurnMetrics,
    later_elapsed: Duration,
)
    requires
        budget_breach(c, m, elapsed) is Some,
        crate::money::decimal_at_least(later.cost, m.cost),
        later.turns_completed >= m.turns_completed,
        later.tool_calls_total >= m.tool_calls_total,
        duration_nanos(later_elapsed) >= duration_nanos(elapsed),
    ensures
        budget_breach(c, later, later_elapsed) is Some,
{
    match c.max_cost {
        Some(limit) => {
            if decimal_greater(m.cost, limit) {
                lemma_decimal_order(later.cost, m.cost, limit);
            }
        },
        None => {},
    }
}

impl Default for BudgetGuardConfig {
    fn default() -> (r: BudgetGuardConfig)
        ensures
            r.max_cost is None,
            r.max_turns == Some(10u32),
            r.max_duration is None,
            r.max_tool_calls is None,
    {
        BudgetGuardConfig::default_limits()
    }
}

impl Default for BudgetGuard {
    fn default() -> (r: BudgetGuard)
        ensures
            r.config.max_cost is None,
            r.config.max_turns == Some(10u32),
            r.config.max_duration is None,
            r.config.max_tool_calls is None,
    {
        BudgetGuard::new()
    }
}

impl Default for TelemetryConfig {
    fn default() -> (r: TelemetryConfig)
        ensures
            r.verbosity == TelemetryVerbosity::Operations,
            r.level == TelemetryLevel::Info,
    {
        TelemetryConfig::default_config()
    }
}

impl Default for TelemetryRule {
    fn default() -> (r: TelemetryRule)
        ensures
            r.config_spec().verbosity == TelemetryVerbosity::Operations,
            r.config_spec().level == TelemetryLevel::Info,
            r.last_snapshot() == (0u64, 0u64, 0u32),
    {
        TelemetryRule::new()
    }
}

} // verus!
