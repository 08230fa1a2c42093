//! Operator outcomes: why a run ended and what it reports.
use crate::effect::Effect;
use crate::message::Content;
use rust_decimal::Decimal;
use serde_json::Value;
use crate::json::{json_is_null, json_null};
use vstd::prelude::*;

verus! {

/// Why an operator run ended.
#[derive(Debug, Clone, PartialEq, Eq)]
pub enum ExitReason {
    /// The model finished.
    Complete,
    /// The turn limit was reached.
    MaxTurns,
    /// A cost or tool-call budget ran out.
    BudgetExhausted,
    /// The time limit was reached.
    Timeout,
    /// A safety filter stopped the output.
    SafetyStop { reason: String },
    /// An interceptor halted the loop.
    InterceptorHalt { reason: String },
    /// A tool call waits for approval.
    AwaitingApproval,
    /// Any other reason, by name.
    Custom(String),
}

/// One tool or sub-operator dispatch made during a run.
#[derive(Debug, Clone, PartialEq, Eq)]
pub struct SubDispatchRecord {
    /// Tool or operator name.
    pub name: String,
    /// Wall-clock duration in milliseconds.
    pub duration_ms: u64,
    /// Whether the dispatch succeeded.
    pub success: bool,
}

/// Accounting of a run.
#[derive(Debug, Clone)]
pub struct OperatorMetadata {
    /// Input tokens consumed.
    pub tokens_in: u64,
    /// Output tokens consumed.
    pub tokens_out: u64,
    /// Cost.
    pub cost: Decimal,
    /// Inference turns used.
    pub turns_used: u32,
    /// Dispatches made.
    pub sub_dispatches: Vec<SubDispatchRecord>,
    /// Wall-clock duration in milliseconds.
    pub duration_ms: u64,
}

/// What an operator run returns.
#[derive(Debug, Clone)]
pub struct OperatorOutput {
    /// The final message.
    pub message: Content,
    /// Why the run ended.
    pub exit_reason: ExitReason,
    /// Accounting.
    pub metadata: OperatorMetadata,
    /// Effects declared during the run.
    pub effects: Vec<Effect>,
}

/// What started an operator run.
#[derive(Debug, Clone, PartialEq, Eq)]
pub enum TriggerType {
    /// A user message.
    User,
    /// A task handed over by another agent or tool dispatch.
    Task,
}

/// Per-request overrides of an operator's configuration.
#[derive(Debug, Clone)]
pub struct OperatorConfig {
    /// Text appended to the system prompt, on a new line.
    pub system_addendum: Option<String>,
    /// Model override.
    pub model: Option<String>,
    /// Turn limit override.
    pub max_turns: Option<u32>,
    /// Cost limit.
    pub max_cost: Option<Decimal>,
    /// Time limit in milliseconds.
    pub max_duration_ms: Option<u64>,
    /// Names of the tools the model may use.
    pub allowed_operators: Option<Vec<String>>,
}

/// The input of an operator run.
#[derive(Debug, Clone)]
pub struct OperatorInput {
    /// The new message.
    pub message: Content,
    /// What started the run.
    pub trigger: TriggerType,
    /// Session whose history is loaded, if any.
    pub session: Option<String>,
    /// Per-request overrides.
    pub config: Option<OperatorConfig>,
    /// Provider-specific passthrough (`null` when unset).
    pub metadata: Value,
}

impl OperatorConfig {
    /// No overrides.
    pub fn empty() -> (r: OperatorConfig)
        ensures
            r.system_addendum is None,
            r.model is None,
            r.max_turns is None,
            r.max_cost is None,
            r.max_duration_ms is None,
            r.allowed_operators is None,
    {
        OperatorConfig {
            system_addendum: None,
            model: None,
            max_turns: None,
            max_cost: None,
            max_duration_ms: None,
            allowed_operators: None,
        }
    }
}

impl OperatorInput {
    /// An input with this message and trigger, no session, no overrides and
    /// `null` metadata.
    pub fn new(message: Content, trigger: TriggerType) -> (r: OperatorInput)
        ensures
            r.message == message,
            r.trigger == trigger,
            r.session is None,
            r.config is None,
            json_is_null(r.metadata),
    {
        OperatorInput { message, trigger, session: None, config: None, metadata: json_null() }
    }
}

impl OperatorOutput {
    /// An output with this message, exit reason, accounting and effects.
    pub fn new(message: Content, exit_reason: ExitReason, metadata: OperatorMetadata, effects: Vec<Effect>) -> (r: OperatorOutput)
        ensures
            r.message == message,
            r.exit_reason == exit_reason,
            r.metadata == metadata,
            r.effects == effects,
    {
        OperatorOutput { message, exit_reason, metadata, effects }
    }
}

impl OperatorMetadata {
    /// Accounting with these totals.
    pub fn new(
        tokens_in: u64,
        tokens_out: u64,
        cost: Decimal,
        turns_used: u32,
        sub_dispatches: Vec<SubDispatchRecord>,
        duration_ms: u64,
    ) -> (r: OperatorMetadata)
        ensures
            r.tokens_in == tokens_in,
            r.tokens_out == tokens_out,
            r.cost == cost,
            r.turns_used == turns_used,
            r.sub_dispatches == sub_dispatches,
            r.duration_ms == duration_ms,
    {
        OperatorMetadata { tokens_in, tokens_out, cost, turns_used, sub_dispatches, duration_ms }
    }
}

impl SubDispatchRecord {
    /// A dispatch record.
    pub fn new(name: String, duration_ms: u64, success: bool) -> (r: SubDispatchRecord)
        ensures
            r.name == name,
            r.duration_ms == duration_ms,
            r.success == success,
    {
        SubDispatchRecord { name, duration_ms, success }
    }
}

} // verus!
