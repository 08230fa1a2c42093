//! One ReAct run as a state machine: the runtime performs the model calls,
//! the tool dispatches and the interceptor hooks, and hands each outcome to
//! these transitions, which keep the accounting, the message buffer, the
//! tool results and the loop-detection window, and decide when the run ends.
use crate::effect::Effect;
use crate::error::{OperatorError, ToolError};
use crate::infer::{has_text_part, StopReason, TokenUsage};
use crate::json::{json_text, json_to_text};
use crate::compaction::{
    is_subsequence, lemma_count_le_len, lemma_count_push, lemma_count_take_step,
    lemma_select_subsequence, lemma_take_full, select, unpinned_count,
};
use crate::message::{
    is_pinned, pinned_count, total_tokens, CompactionPolicy, Content, ContentPart, Message,
    MessageModel, Role, count_pinned, parts_text, sum_tokens,
};
use crate::money::{decimal_add, decimal_checked_sum, sum_facts, decimal_zero, decimal_mantissa, decimal_scale};
use crate::operator::{ExitReason, OperatorMetadata, OperatorOutput, SubDispatchRecord};
use crate::text::{hash_text, same_text, text_hash};
use rust_decimal::Decimal;
use std::collections::VecDeque;
use serde_json::Value;
use vstd::prelude::*;

verus! {

/// A response of the model to one request.
#[derive(Debug, Clone)]
pub struct ProviderResponse {
    /// Generated parts, tool calls among them.
    pub content: Vec<ContentPart>,
    /// Why generation stopped.
    pub stop_reason: StopReason,
    /// Token usage.
    pub usage: TokenUsage,
    /// Model that answered.
    pub model: String,
    /// Cost of the call, when the provider reports one.
    pub cost: Option<Decimal>,
}

/// A request for one model call.
#[derive(Debug, Clone)]
pub struct ProviderRequest {
    /// Model to use, if any.
    pub model: Option<String>,
    /// The conversation.
    pub messages: Vec<Message>,
    /// Tools offered.
    pub tools: Vec<crate::infer::ToolSchema>,
    /// Max output tokens.
    pub max_tokens: Option<u32>,
    /// System prompt.
    pub system: Option<String>,
    /// Provider-specific passthrough.
    pub extra: Value,
}

/// Snapshot of the loop state, handed to interceptors.
#[derive(Debug, Clone)]
pub struct LoopState {
    /// Total input tokens so far.
    pub tokens_in: u64,
    /// Total output tokens so far.
    pub tokens_out: u64,
    /// Cumulative cost.
    pub cost: Decimal,
    /// Completed inference turns.
    pub turns_completed: u32,
    /// Wall-clock milliseconds since the run started.
    pub elapsed_ms: u64,
}

/// What a guarding interceptor hook answers.
#[derive(Debug, Clone, PartialEq, Eq)]
pub enum ReactAction {
    /// Go on.
    Continue,
    /// End the run with this reason.
    Halt { reason: String },
}

/// What the hook before a tool dispatch answers.
#[derive(Debug, Clone)]
pub enum SubDispatchAction {
    /// Dispatch with the input as the model gave it.
    Continue,
    /// End the run.
    Halt { reason: String },
    /// Do not dispatch; report the reason as the tool's result.
    Skip { reason: String },
    /// Dispatch with this input instead.
    ModifyInput { new_input: Value },
}

/// What the hook after a tool dispatch answers.
#[derive(Debug, Clone, PartialEq, Eq)]
pub enum SubDispatchResult {
    /// Keep the result.
    Continue,
    /// End the run.
    Halt { reason: String },
    /// Replace the result text.
    ModifyOutput { new_output: String },
}

/// How a tool may run next to others.
#[derive(Debug, Clone, Copy, PartialEq, Eq, Structural)]
pub enum Concurrency {
    /// May run in a batch with other shared tools.
    Shared,
    /// Runs alone.
    Exclusive,
}

/// A tool call: id, tool name, input.
pub type CallRequest = (String, String, Value);

/// A unit of dispatch planned from a response's tool calls.
#[derive(Debug)]
pub enum BatchItem {
    /// Calls that may run together.
    Shared(Vec<CallRequest>),
    /// A call that runs alone.
    Exclusive(CallRequest),
}

/// What a tool dispatch came back with.
#[derive(Debug, Clone, PartialEq, Eq)]
pub enum DispatchOutcome {
    /// The dispatch answered; the text of its message when it is text.
    Answered(Option<String>),
    /// No tool or operator of that name.
    NotFound,
    /// The dispatch failed with this message.
    Failed(String),
}

/// A buffer manipulation requested by a steering source.
#[derive(Debug, Clone, PartialEq, Eq)]
pub enum ContextCommand {
    /// Pin the message at this index.
    Pin { message_index: usize },
    /// Drop this many of the oldest unpinned messages.
    DropOldest { count: usize },
    /// Drop every unpinned message.
    ClearWorking,
    /// Write the buffer to a file (performed by the runtime).
    SaveSnapshot { path: String },
    /// Replace the buffer by a file's contents (performed by the runtime).
    LoadSnapshot { path: String },
}

impl ContextCommand {
    /// A copy of this command.
    pub fn duplicate(&self) -> (r: ContextCommand)
        ensures
            r == *self,
    {
        match self {
            ContextCommand::Pin { message_index } => ContextCommand::Pin { message_index: *message_index },
            ContextCommand::DropOldest { count } => ContextCommand::DropOldest { count: *count },
            ContextCommand::ClearWorking => ContextCommand::ClearWorking,
            ContextCommand::SaveSnapshot { path } => ContextCommand::SaveSnapshot { path: path.clone() },
            ContextCommand::LoadSnapshot { path } => ContextCommand::LoadSnapshot { path: path.clone() },
        }
    }
}

/// What a steering source hands over.
#[derive(Debug, Clone)]
pub enum SteeringCommand {
    /// A message to inject.
    Message(Message),
    /// A buffer manipulation.
    Context(ContextCommand),
}

/// Budget lifecycle events of a run.
#[derive(Debug, Clone, PartialEq, Eq)]
pub enum BudgetEvent {
    /// Tool calls reached the warning threshold.
    StepLimitApproaching { current: u32, max: u32 },
    /// Tool calls reached the limit.
    StepLimitReached { total_sub_dispatches: u32 },
    /// The same call repeated past the limit.
    LoopDetected { operator_name: String, consecutive_count: u32, max: u32 },
    /// Elapsed time reached the warning threshold.
    TimeoutApproaching { elapsed_ms: u64, max_duration_ms: u64 },
    /// Elapsed time reached the limit.
    TimeoutReached { elapsed_ms: u64 },
}

/// Compaction lifecycle events of a run.
#[derive(Debug, Clone, PartialEq, Eq)]
pub enum CompactionEvent {
    /// Compaction ran.
    CompactionQuality { tokens_before: u64, tokens_after: u64, items_preserved: u32, items_lost: u32 },
    /// Compaction was due and did not run.
    CompactionSkipped { reason: String },
}

/// The name under which the operator reports its lifecycle events.
pub const REACT_AGENT: &'static str = "react";

/// The mutable state of a run.
#[derive(Debug, Clone)]
pub struct RunState {
    /// Total input tokens.
    pub tokens_in: u64,
    /// Total output tokens.
    pub tokens_out: u64,
    /// Total cost.
    pub cost: Decimal,
    /// Inference turns started.
    pub turns_used: u32,
    /// Dispatch records.
    pub records: Vec<SubDispatchRecord>,
    /// Effects declared by effect tools.
    pub effects: Vec<Effect>,
    /// Content of the latest response.
    pub last_content: Vec<ContentPart>,
    /// Tool calls made (effect tools included).
    pub sub_dispatches: u32,
    /// The most recent calls, as (tool name, `DefaultHasher` hash of the input's
    /// JSON text), oldest first.
    pub recent_calls: VecDeque<(String, u64)>,
    /// The message buffer.
    pub messages: Vec<Message>,
    /// Tool results of the current round.
    pub results: Vec<ContentPart>,
}

/// Views of the recent-calls window.
pub open spec fn call_views(calls: Seq<(String, u64)>) -> Seq<(Seq<char>, u64)> {
    calls.map_values(|c: (String, u64)| (c.0@, c.1))
}

/// Size of the recent-calls window: the repeat limit, but at least 10.
pub open spec fn window_cap(max_repeat: Option<u32>) -> nat {
    let m: nat = match max_repeat {
        Some(v) => v as nat,
        None => 0,
    };
    if m > 10 { m } else { 10 }
}

/// The window after recording a call: the call appended, the oldest entries
/// dropped until it fits.
pub open spec fn windowed(calls: Seq<(Seq<char>, u64)>, call: (Seq<char>, u64), cap: nat) -> Seq<(Seq<char>, u64)> {
    let pushed = calls.push(call);
    if pushed.len() > cap {
        pushed.skip(pushed.len() - cap)
    } else {
        pushed
    }
}

/// A tool result part.
pub open spec fn is_tool_result(p: ContentPart, id: Seq<char>, content: Seq<char>, is_error: bool) -> bool {
    p matches ContentPart::ToolResult { tool_use_id, content: c, is_error: e } && tool_use_id@ == id
        && c@ == content && e == is_error
}

/// What the stop reason of a response decides.
pub enum TurnOutcome {
    /// Dispatch the tools the response asks for.
    RunTools,
    /// End the run with this reason.
    Finish(ExitReason),
    /// End the run with this error.
    Fail(OperatorError),
}

/// What the stop reason of a response decides: `EndTurn` completes, a
/// content filter is a safety stop, `MaxTokens` is a model error (output
/// truncated), `ToolUse` runs the tools.
pub open spec fn is_turn_outcome(reason: StopReason, r: TurnOutcome) -> bool {
    match reason {
        StopReason::EndTurn => r matches TurnOutcome::Finish(ExitReason::Complete),
        StopReason::ContentFilter => r matches TurnOutcome::Finish(ExitReason::SafetyStop { reason })
            && reason@ == "content_filter"@,
        StopReason::MaxTokens => r matches TurnOutcome::Fail(OperatorError::Model { message, retryable })
            && message@ == "output truncated (max_tokens)"@ && !retryable,
        StopReason::ToolUse => r is RunTools,
    }
}

/// What a response's stop reason decides.
pub fn turn_outcome(reason: StopReason) -> (r: TurnOutcome)
    ensures
        is_turn_outcome(reason, r),
{
    match reason {
        StopReason::EndTurn => TurnOutcome::Finish(ExitReason::Complete),
        StopReason::ContentFilter => TurnOutcome::Finish(
            ExitReason::SafetyStop { reason: String::from_str("content_filter") },
        ),
        StopReason::MaxTokens => TurnOutcome::Fail(
            OperatorError::Model { message: String::from_str("output truncated (max_tokens)"), retryable: false },
        ),
        StopReason::ToolUse => TurnOutcome::RunTools,
    }
}

/// The error a failed model call becomes: retryable or not, with the
/// provider's message.
pub fn model_call_error(message: String, retryable: bool) -> (r: OperatorError)
    ensures
        r == (OperatorError::Model { message, retryable }),
{
    OperatorError::Model { message, retryable }
}

/// The tool calls of a response's content, in order.
pub open spec fn tool_calls_of(parts: Seq<ContentPart>) -> Seq<(Seq<char>, Seq<char>, Value)>
    decreases parts.len(),
{
    if parts.len() == 0 {
        Seq::empty()
    } else {
        let rest = tool_calls_of(parts.drop_last());
        match parts.last() {
            ContentPart::ToolUse { id, name, input } => rest.push((id@, name@, input)),
            _ => rest,
        }
    }
}

/// Views of call requests.
pub open spec fn request_views(calls: Seq<CallRequest>) -> Seq<(Seq<char>, Seq<char>, Value)> {
    calls.map_values(|c: CallRequest| (c.0@, c.1@, c.2))
}

/// The tool calls in a response's content.
pub fn extract_calls(parts: &Vec<ContentPart>) -> (r: Vec<CallRequest>)
    ensures
        request_views(r@) == tool_calls_of(parts@),
{
    let mut out: Vec<CallRequest> = Vec::new();
    let n = parts.len();
    for i in 0..n
        invariant
            n == parts@.len(),
            request_views(out@) == tool_calls_of(parts@.take(i as int)),
    {
        assert(parts@.take(i + 1).drop_last() == parts@.take(i as int));
        match &parts[i] {
            ContentPart::ToolUse { id, name, input } => {
                let ghost before = out@;
                out.push((id.clone(), name.clone(), input.clone()));
                assert(request_views(out@) =~= request_views(before).push((id@, name@, *input)));
            },
            _ => {},
        }
    }
    assert(parts@.take(n as int) == parts@);
    out
}

/// The sequential plan: every call runs alone, in order.
pub fn sequential_plan(calls: &Vec<CallRequest>) -> (r: Vec<BatchItem>)
    ensures
        r@.len() == calls@.len(),
        forall|i: int| 0 <= i < calls@.len() ==> ((#[trigger] r@[i]) matches BatchItem::Exclusive(c)
            && c.0@ == calls@[i].0@ && c.1@ == calls@[i].1@ && c.2 == calls@[i].2),
{
    let mut out: Vec<BatchItem> = Vec::new();
    let n = calls.len();
    for i in 0..n
        invariant
            n == calls@.len(),
            out@.len() == i,
            forall|k: int| 0 <= k < i ==> ((#[trigger] out@[k]) matches BatchItem::Exclusive(c)
                && c.0@ == calls@[k].0@ && c.1@ == calls@[k].1@ && c.2 == calls@[k].2),
    {
        let c = &calls[i];
        out.push(BatchItem::Exclusive((c.0.clone(), c.1.clone(), c.2.clone())));
    }
    out
}

/// The concurrency a tool's hint asks for: shared only when the tool is
/// known and says so.
pub fn concurrency_from_hint(hint: Option<Concurrency>) -> (r: Concurrency)
    ensures
        r == (match hint {
            Some(Concurrency::Shared) => Concurrency::Shared,
            _ => Concurrency::Exclusive,
        }),
{
    match hint {
        Some(Concurrency::Shared) => Concurrency::Shared,
        _ => Concurrency::Exclusive,
    }
}

/// What a dispatch that answered came back with: the text of the answer's
/// message when it has a text part, else no text.
pub fn answer_outcome(output: &OperatorOutput) -> (r: DispatchOutcome)
    ensures
        r matches DispatchOutcome::Answered(t) && match t {
            Some(s) => has_text_part(output.message.parts@) && s@ == parts_text(output.message.parts@),
            None => !has_text_part(output.message.parts@),
        },
{
    let parts = &output.message.parts;
    let n = parts.len();
    let mut found = false;
    for i in 0..n
        invariant
            n == parts@.len(),
            found == exists|j: int| 0 <= j < i && #[trigger] parts@[j] is Text,
    {
        match &parts[i] {
            ContentPart::Text { .. } => {
                found = true;
            },
            _ => {},
        }
    }
    if found {
        DispatchOutcome::Answered(Some(output.message.as_text()))
    } else {
        DispatchOutcome::Answered(None)
    }
}

/// The result text and error flag of a dispatch: the answer's text (or
/// `null` when it is not text), the not-found message, or the failure
/// message; only an answer is a success.
pub open spec fn dispatch_text(name: Seq<char>, o: DispatchOutcome) -> (Seq<char>, bool) {
    match o {
        DispatchOutcome::Answered(Some(t)) => (t@, false),
        DispatchOutcome::Answered(None) => ("null"@, false),
        DispatchOutcome::NotFound => ("tool not found: "@ + name, true),
        DispatchOutcome::Failed(m) => (m@, true),
    }
}

/// The result text and error flag of a dispatch.
pub fn dispatch_result(name: &str, o: DispatchOutcome) -> (r: (String, bool))
    ensures
        (r.0@, r.1) == dispatch_text(name@, o),
{
    match o {
        DispatchOutcome::Answered(Some(t)) => (t, false),
        DispatchOutcome::Answered(None) => (String::from_str("null"), false),
        DispatchOutcome::NotFound => (ToolError::NotFound(String::from_str(name)).to_text(), true),
        DispatchOutcome::Failed(m) => (m, true),
    }
}

/// What to do with a call after the pre-dispatch hook.
pub enum PreDispatch {
    /// End the run.
    Halt(String),
    /// Report the reason as the result and move on.
    Skip(String),
    /// Dispatch with this input.
    Run(Value),
}

/// The pre-dispatch hook's answer applied to a call's input.
pub fn pre_dispatch(action: SubDispatchAction, input: Value) -> (r: PreDispatch)
    ensures
        match action {
            SubDispatchAction::Continue => r == PreDispatch::Run(input),
            SubDispatchAction::Halt { reason } => r == PreDispatch::Halt(reason),
            SubDispatchAction::Skip { reason } => r == PreDispatch::Skip(reason),
            SubDispatchAction::ModifyInput { new_input } => r == PreDispatch::Run(new_input),
        },
{
    match action {
        SubDispatchAction::Continue => PreDispatch::Run(input),
        SubDispatchAction::Halt { reason } => PreDispatch::Halt(reason),
        SubDispatchAction::Skip { reason } => PreDispatch::Skip(reason),
        SubDispatchAction::ModifyInput { new_input } => PreDispatch::Run(new_input),
    }
}

/// The post-dispatch hook's answer applied to a result: `Err` with the halt
/// reason, or the result text to keep.
pub fn post_dispatch(result: SubDispatchResult, content: String) -> (r: Result<String, String>)
    ensures
        match result {
            SubDispatchResult::Continue => r == Ok::<String, String>(content),
            SubDispatchResult::Halt { reason } => r == Err::<String, String>(reason),
            SubDispatchResult::ModifyOutput { new_output } => r == Ok::<String, String>(new_output),
        },
{
    match result {
        SubDispatchResult::Continue => Ok(content),
        SubDispatchResult::Halt { reason } => Err(reason),
        SubDispatchResult::ModifyOutput { new_output } => Ok(new_output),
    }
}

/// Size of the recent-calls window for a repeat limit.
pub fn window_size(max_repeat: Option<u32>) -> (r: usize)
    ensures
        r == window_cap(max_repeat),
        r >= 10,
{
    let m: usize = match max_repeat {
        Some(v) => v as usize,
        None => 0,
    };
    if m > 10 { m } else { 10 }
}

/// The accounting of a run whose response with this usage and cost has been
/// added.
pub open spec fn cost_after(cost: Decimal, added: Option<Decimal>) -> Decimal {
    match added {
        Some(c) => decimal_checked_sum(cost, c).unwrap(),
        None => cost,
    }
}

impl RunState {
    /// A fresh run over this initial buffer.
    pub fn start(messages: Vec<Message>) -> (r: RunState)
        ensures
            r.tokens_in == 0,
            r.tokens_out == 0,
            decimal_mantissa(r.cost) == 0,
            decimal_scale(r.cost) == 0,
            r.turns_used == 0,
            r.records@.len() == 0,
            r.effects@.len() == 0,
            r.last_content@.len() == 0,
            r.sub_dispatches == 0,
            r.recent_calls@.len() == 0,
            r.messages == messages,
            r.results@.len() == 0,
    {
        RunState {
            tokens_in: 0,
            tokens_out: 0,
            cost: decimal_zero(),
            turns_used: 0,
            records: Vec::new(),
            effects: Vec::new(),
            last_content: Vec::new(),
            sub_dispatches: 0,
            recent_calls: VecDeque::new(),
            messages,
            results: Vec::new(),
        }
    }

    /// Start a new inference turn.
    pub fn begin_turn(&mut self)
        requires
            old(self).turns_used < u32::MAX,
        ensures
            *final(self) == (RunState { turns_used: (old(self).turns_used + 1) as u32, ..*old(self) }),
    {
        self.turns_used = self.turns_used + 1;
    }

    /// The loop state handed to interceptors.
    pub fn loop_state(&self, turns_completed: u32, elapsed_ms: u64) -> (r: LoopState)
        ensures
            r.tokens_in == self.tokens_in,
            r.tokens_out == self.tokens_out,
            r.cost == self.cost,
            r.turns_completed == turns_completed,
            r.elapsed_ms == elapsed_ms,
    {
        LoopState {
            tokens_in: self.tokens_in,
            tokens_out: self.tokens_out,
            cost: self.cost.clone(),
            turns_completed,
            elapsed_ms,
        }
    }

    /// Add a response's token usage and cost to the totals and keep its
    /// content as the latest.
    pub fn account(&mut self, response: &ProviderResponse)
        requires
            old(self).tokens_in + response.usage.input_tokens <= u64::MAX,
            old(self).tokens_out + response.usage.output_tokens <= u64::MAX,
            response.cost matches Some(c) ==> decimal_checked_sum(old(self).cost, c) is Some,
        ensures
            *final(self) == (RunState {
                tokens_in: (old(self).tokens_in + response.usage.input_tokens) as u64,
                tokens_out: (old(self).tokens_out + response.usage.output_tokens) as u64,
                cost: cost_after(old(self).cost, response.cost),
                last_content: final(self).last_content,
                ..*old(self)
            }),
            final(self).last_content@ == response.content@,
            response.cost matches Some(c) ==> sum_facts(old(self).cost, c, Some(final(self).cost)),
    {
        self.tokens_in = self.tokens_in + response.usage.input_tokens;
        self.tokens_out = self.tokens_out + response.usage.output_tokens;
        match &response.cost {
            Some(c) => {
                let sum = decimal_add(&self.cost, c);
                match sum {
                    Some(total) => {
                        self.cost = total;
                    },
                    None => {},
                }
            },
            None => {},
        }
        let copy = copy_parts(&response.content);
        self.last_content = copy;
    }

    /// Account for a response when its usage and cost can be added to the
    /// totals without overflow; otherwise leave the state unchanged.
    /// Returns whether the response was accounted for.
    pub fn try_account(&mut self, response: &ProviderResponse) -> (r: bool)
        ensures
            r == (old(self).tokens_in + response.usage.input_tokens <= u64::MAX
                && old(self).tokens_out + response.usage.output_tokens <= u64::MAX
                && (response.cost matches Some(c) ==> decimal_checked_sum(old(self).cost, c) is Some)),
            !r ==> *final(self) == *old(self),
            r ==> *final(self) == (RunState {
                tokens_in: (old(self).tokens_in + response.usage.input_tokens) as u64,
                tokens_out: (old(self).tokens_out + response.usage.output_tokens) as u64,
                cost: cost_after(old(self).cost, response.cost),
                last_content: final(self).last_content,
                ..*old(self)
            }),
            r ==> final(self).last_content@ == response.content@,
            r ==> (response.cost matches Some(c) ==> sum_facts(old(self).cost, c, Some(final(self).cost))),
    {
        if self.tokens_in.checked_add(response.usage.input_tokens).is_none() {
            return false;
        }
        if self.tokens_out.checked_add(response.usage.output_tokens).is_none() {
            return false;
        }
        match &response.cost {
            Some(c) => {
                if decimal_add(&self.cost, c).is_none() {
                    return false;
                }
            },
            None => {},
        }
        self.account(response);
        true
    }

    /// Add the response's content to the buffer as an assistant message.
    pub fn record_assistant(&mut self, content: &Vec<ContentPart>)
        ensures
            final(self).messages.deep_view() == old(self).messages.deep_view().push(
                MessageModel { role: Role::Assistant, parts: content@, policy: crate::message::CompactionPolicy::Normal },
            ),
            *final(self) == (RunState { messages: final(self).messages, ..*old(self) }),
    {
        let m = Message::new(Role::Assistant, Content { parts: copy_parts(content) });
        let ghost before = self.messages.deep_view();
        self.messages.push(m);
        assert(self.messages.deep_view() =~= before.push(m.deep_view()));
    }

    /// Record a call in the recent-calls window.
    fn track_call(&mut self, name: &str, input: &Value, cap: usize)
        requires
            cap >= 1,
        ensures
            call_views(final(self).recent_calls@) == windowed(
                call_views(old(self).recent_calls@),
                (name@, text_hash(json_text(*input))),
                cap as nat,
            ),
            *final(self) == (RunState { recent_calls: final(self).recent_calls, ..*old(self) }),
    {
        let ghost pushed = call_views(self.recent_calls@).push((name@, text_hash(json_text(*input))));
        let ghost before = self.recent_calls@;
        let input_text = json_to_text(input);
        self.recent_calls.push_back((String::from_str(name), hash_text(input_text.as_str())));
        assert(call_views(self.recent_calls@) =~= pushed) by {
            assert(self.recent_calls@ == before.push(self.recent_calls@.last()));
        }
        let ghost mut dropped: int = 0;
        let ghost snapshot = *self;
        while self.recent_calls.len() > cap
            invariant
                cap >= 1,
                *self == (RunState { recent_calls: self.recent_calls, ..snapshot }),
                0 <= dropped <= pushed.len(),
                self.recent_calls@.len() == pushed.len() - dropped,
                call_views(self.recent_calls@) == pushed.skip(dropped),
                dropped > 0 ==> pushed.len() - dropped >= cap,
            decreases self.recent_calls@.len(),
        {
            let ghost b = self.recent_calls@;
            let _oldest = self.recent_calls.pop_front();
            assert(call_views(self.recent_calls@) =~= pushed.skip(dropped + 1)) by {
                assert(self.recent_calls@ =~= b.subrange(1, b.len() as int));
                assert forall|k: int| 0 <= k < self.recent_calls@.len() implies call_views(self.recent_calls@)[k]
                    == pushed.skip(dropped + 1)[k] by {
                    assert(call_views(b)[k + 1] == pushed.skip(dropped)[k + 1]);
                }
            }
            proof {
                dropped = dropped + 1;
            }
        }
        assert(pushed.len() > cap ==> dropped == pushed.len() - cap);
        assert(pushed.len() <= cap ==> dropped == 0);
        assert(pushed.skip(0) =~= pushed);
    }

    /// Record a call of an effect tool: the effect is declared, the result
    /// says it was recorded, the dispatch counts as a success.
    pub fn record_effect(&mut self, id: &str, name: &str, input: &Value, effect: Effect, cap: usize)
        requires
            old(self).sub_dispatches < u32::MAX,
            cap >= 1,
        ensures
            final(self).effects@ == old(self).effects@.push(effect),
            final(self).results@.len() == old(self).results@.len() + 1,
            final(self).results@.drop_last() == old(self).results@,
            is_tool_result(final(self).results@.last(), id@, name@ + " effect recorded."@, false),
            final(self).records@.len() == old(self).records@.len() + 1,
            final(self).records@.drop_last() == old(self).records@,
            final(self).records@.last().name@ == name@,
            final(self).records@.last().duration_ms == 0,
            final(self).records@.last().success,
            final(self).sub_dispatches == old(self).sub_dispatches + 1,
            call_views(final(self).recent_calls@) == windowed(
                call_views(old(self).recent_calls@),
                (name@, text_hash(json_text(*input))),
                cap as nat,
            ),
            *final(self) == (RunState {
                effects: final(self).effects,
                results: final(self).results,
                records: final(self).records,
                sub_dispatches: final(self).sub_dispatches,
                recent_calls: final(self).recent_calls,
                ..*old(self)
            }),
    {
        proof {
            reveal_strlit(" effect recorded.");
        }
        self.effects.push(effect);
        let text = String::from_str(name).concat(" effect recorded.");
        self.results.push(
            ContentPart::ToolResult { tool_use_id: String::from_str(id), content: text, is_error: false },
        );
        self.records.push(SubDispatchRecord::new(String::from_str(name), 0, true));
        self.sub_dispatches = self.sub_dispatches + 1;
        self.track_call(name, input, cap);
    }

    /// Record a call the pre-dispatch hook skipped: the reason becomes the
    /// result, the dispatch counts as a failure and is not a tool call.
    pub fn record_skip(&mut self, id: &str, name: &str, reason: &str)
        ensures
            final(self).results@.len() == old(self).results@.len() + 1,
            final(self).results@.drop_last() == old(self).results@,
            is_tool_result(final(self).results@.last(), id@, "Skipped: "@ + reason@, false),
            final(self).records@.len() == old(self).records@.len() + 1,
            final(self).records@.drop_last() == old(self).records@,
            final(self).records@.last().name@ == name@,
            final(self).records@.last().duration_ms == 0,
            !final(self).records@.last().success,
            *final(self) == (RunState {
                results: final(self).results,
                records: final(self).records,
                ..*old(self)
            }),
    {
        proof {
            reveal_strlit("Skipped: ");
        }
        let text = String::from_str("Skipped: ").concat(reason);
        self.results.push(
            ContentPart::ToolResult { tool_use_id: String::from_str(id), content: text, is_error: false },
        );
        self.records.push(SubDispatchRecord::new(String::from_str(name), 0, false));
    }

    /// Record a dispatched call: its result, its record, and the call itself
    /// (with the input actually used) in the count and the window.
    pub fn record_dispatch(
        &mut self,
        id: &str,
        name: &str,
        input: &Value,
        content: String,
        is_error: bool,
        success: bool,
        duration_ms: u64,
        cap: usize,
    )
        requires
            old(self).sub_dispatches < u32::MAX,
            cap >= 1,
        ensures
            final(self).results@.len() == old(self).results@.len() + 1,
            final(self).results@.drop_last() == old(self).results@,
            is_tool_result(final(self).results@.last(), id@, content@, is_error),
            final(self).records@.len() == old(self).records@.len() + 1,
            final(self).records@.drop_last() == old(self).records@,
            final(self).records@.last().name@ == name@,
            final(self).records@.last().duration_ms == duration_ms,
            final(self).records@.last().success == success,
            final(self).sub_dispatches == old(self).sub_dispatches + 1,
            call_views(final(self).recent_calls@) == windowed(
                call_views(old(self).recent_calls@),
                (name@, text_hash(json_text(*input))),
                cap as nat,
            ),
            *final(self) == (RunState {
                results: final(self).results,
                records: final(self).records,
                sub_dispatches: final(self).sub_dispatches,
                recent_calls: final(self).recent_calls,
                ..*old(self)
            }),
    {
        self.results.push(ContentPart::ToolResult { tool_use_id: String::from_str(id), content, is_error });
        self.sub_dispatches = self.sub_dispatches + 1;
        self.track_call(name, input, cap);
        self.records.push(SubDispatchRecord::new(String::from_str(name), duration_ms, success));
    }

    /// Skip calls because steering injected messages: each gets the result
    /// `Skipped due to steering` and a failed record; the names are returned.
    pub fn skip_for_steering(&mut self, calls: &[CallRequest]) -> (names: Vec<String>)
        ensures
            names@.len() == calls@.len(),
            forall|i: int| 0 <= i < calls@.len() ==> (#[trigger] names@[i])@ == calls@[i].1@,
            final(self).results@.len() == old(self).results@.len() + calls@.len(),
            final(self).results@.take(old(self).results@.len() as int) == old(self).results@,
            forall|i: int|
                0 <= i < calls@.len() ==> is_tool_result(
                    #[trigger] final(self).results@[old(self).results@.len() + i],
                    calls@[i].0@,
                    "Skipped due to steering"@,
                    false,
                ),
            final(self).records@.len() == old(self).records@.len() + calls@.len(),
            final(self).records@.take(old(self).records@.len() as int) == old(self).records@,
            forall|i: int|
                0 <= i < calls@.len() ==> {
                    let rec = #[trigger] final(self).records@[old(self).records@.len() + i];
                    rec.name@ == calls@[i].1@ && rec.duration_ms == 0 && !rec.success
                },
            *final(self) == (RunState {
                results: final(self).results,
                records: final(self).records,
                ..*old(self)
            }),
    {
        proof {
            reveal_strlit("Skipped due to steering");
        }
        let ghost r0 = self.results@;
        let ghost d0 = self.records@;
        let ghost snapshot = *self;
        let mut names: Vec<String> = Vec::new();
        let n = calls.len();
        for i in 0..n
            invariant
                n == calls@.len(),
                *self == (RunState { results: self.results, records: self.records, ..snapshot }),
                names@.len() == i,
                forall|k: int| 0 <= k < i ==> (#[trigger] names@[k])@ == calls@[k].1@,
                self.results@.len() == r0.len() + i,
                self.results@.take(r0.len() as int) == r0,
                forall|k: int|
                    0 <= k < i ==> is_tool_result(
                        #[trigger] self.results@[r0.len() + k],
                        calls@[k].0@,
                        "Skipped due to steering"@,
                        false,
                    ),
                self.records@.len() == d0.len() + i,
                self.records@.take(d0.len() as int) == d0,
                forall|k: int|
                    0 <= k < i ==> {
                        let rec = #[trigger] self.records@[d0.len() + k];
                        rec.name@ == calls@[k].1@ && rec.duration_ms == 0 && !rec.success
                    },
        {
            let c = &calls[i];
            let ghost rb = self.results@;
            let ghost db = self.records@;
            self.results.push(
                ContentPart::ToolResult {
                    tool_use_id: c.0.clone(),
                    content: String::from_str("Skipped due to steering"),
                    is_error: false,
                },
            );
            self.records.push(SubDispatchRecord::new(c.1.clone(), 0, false));
            names.push(c.1.clone());
            assert(self.results@.take(r0.len() as int) =~= r0) by {
                assert(self.results@ == rb.push(self.results@.last()));
            }
            assert(self.records@.take(d0.len() as int) =~= d0) by {
                assert(self.records@ == db.push(self.records@.last()));
            }
            assert(forall|k: int| 0 <= k < i ==> #[trigger] self.results@[r0.len() + k] == rb[r0.len() + k]);
            assert(forall|k: int| 0 <= k < i ==> #[trigger] self.records@[d0.len() + k] == db[d0.len() + k]);
        }
        names
    }

    /// Add injected messages to the end of the buffer.
    pub fn inject(&mut self, msgs: Vec<Message>)
        ensures
            final(self).messages.deep_view() == old(self).messages.deep_view() + msgs.deep_view(),
            *final(self) == (RunState { messages: final(self).messages, ..*old(self) }),
    {
        let mut msgs = msgs;
        let ghost a = self.messages.deep_view();
        let ghost b = msgs.deep_view();
        self.messages.append(&mut msgs);
        assert(self.messages.deep_view() =~= a + b);
    }

    /// End a round of tools: the results become one user message at the end
    /// of the buffer, and the next round starts with no results.
    pub fn close_round(&mut self)
        ensures
            final(self).messages.deep_view() == old(self).messages.deep_view().push(
                MessageModel { role: Role::User, parts: old(self).results@, policy: crate::message::CompactionPolicy::Normal },
            ),
            final(self).results@.len() == 0,
            *final(self) == (RunState { messages: final(self).messages, results: final(self).results, ..*old(self) }),
    {
        let mut parts: Vec<ContentPart> = Vec::new();
        std::mem::swap(&mut parts, &mut self.results);
        let m = Message::new(Role::User, Content { parts });
        let ghost before = self.messages.deep_view();
        self.messages.push(m);
        assert(self.messages.deep_view() =~= before.push(m.deep_view()));
    }

    /// The output of a run that ends now: this message and reason, with the
    /// run's totals, records and effects.
    pub fn finish(self, content: Vec<ContentPart>, exit: ExitReason, elapsed_ms: u64) -> (r: OperatorOutput)
        ensures
            r.message.parts == content,
            r.exit_reason == exit,
            r.metadata.tokens_in == self.tokens_in,
            r.metadata.tokens_out == self.tokens_out,
            r.metadata.cost == self.cost,
            r.metadata.turns_used == self.turns_used,
            r.metadata.sub_dispatches == self.records,
            r.metadata.duration_ms == elapsed_ms,
            r.effects == self.effects,
    {
        let metadata = OperatorMetadata::new(
            self.tokens_in,
            self.tokens_out,
            self.cost,
            self.turns_used,
            self.records,
            elapsed_ms,
        );
        OperatorOutput::new(Content { parts: content }, exit, metadata, self.effects)
    }

    /// The output of a run that ends now with the latest response's content.
    pub fn finish_with_last(self, exit: ExitReason, elapsed_ms: u64) -> (r: OperatorOutput)
        ensures
            r.message.parts == self.last_content,
            r.exit_reason == exit,
            r.metadata.tokens_in == self.tokens_in,
            r.metadata.tokens_out == self.tokens_out,
            r.metadata.cost == self.cost,
            r.metadata.turns_used == self.turns_used,
            r.metadata.sub_dispatches == self.records,
            r.metadata.duration_ms == elapsed_ms,
            r.effects == self.effects,
    {
        let content = self.last_content;
        let metadata = OperatorMetadata::new(
            self.tokens_in,
            self.tokens_out,
            self.cost,
            self.turns_used,
            self.records,
            elapsed_ms,
        );
        OperatorOutput::new(Content { parts: content }, exit, metadata, self.effects)
    }
}

/// The steps of a ReAct turn, in the order they run.
#[derive(Debug, Clone, Copy, PartialEq, Eq)]
pub enum TurnStep {
    /// Ask the pre-inference hook (the turn has just been counted).
    PreInference,
    /// Call the model with the turn's request, and account for its answer.
    Inference,
    /// Ask the post-inference hook about an answer that stopped for this reason.
    PostInference { stop: StopReason },
    /// Run the round of tool calls in the latest answer.
    Tools,
    /// Ask the exit-check hook.
    ExitCheck,
    /// Check the run's limits.
    Limits,
    /// Compact the buffer when it is due.
    Compaction,
}

/// What the runtime reports back after performing a step.
#[derive(Debug, Clone)]
pub enum StepReport {
    /// The hook's answer (`Continue` when no interceptor is attached).
    Hook(ReactAction),
    /// The model answered with this response.
    Answered(ProviderResponse),
    /// The model call failed.
    ModelFailed { message: String, retryable: bool },
    /// The round of tools ended, with a halt reason if an interceptor halted.
    RoundEnded(Option<String>),
    /// The limits were checked, with the exit they call for, if any.
    LimitsChecked(Option<ExitReason>),
    /// The compaction step is done (compacted, blocked or not due).
    CompactionDone,
}

/// Where a run goes after a step.
#[derive(Debug, Clone)]
pub enum TurnMove {
    /// Perform this step next.
    Next(TurnStep),
    /// End the run with this reason and the latest answer.
    End(ExitReason),
    /// End the run with this error.
    Fail(OperatorError),
}

/// The order of a ReAct turn and what ends a run: a hook that halts ends it
/// with `InterceptorHalt` and the hook's reason; a failed model call fails it
/// with a model error (retryable as reported); after the post-inference hook
/// the answer's stop reason decides (as `turn_outcome` does) whether the run
/// completes, stops for safety, fails on truncated output or runs the tools;
/// after the tools come the exit check, the limits (whose exit ends the run)
/// and compaction, after which the next turn starts. A report that does not
/// belong to the step leaves the step to be performed again.
pub open spec fn is_turn_move(step: TurnStep, report: StepReport, r: TurnMove) -> bool {
    match step {
        TurnStep::PreInference => match report {
            StepReport::Hook(ReactAction::Halt { reason }) => r == TurnMove::End(ExitReason::InterceptorHalt { reason }),
            StepReport::Hook(ReactAction::Continue) => r == TurnMove::Next(TurnStep::Inference),
            _ => r == TurnMove::Next(step),
        },
        TurnStep::Inference => match report {
            StepReport::Answered(resp) => r == TurnMove::Next(TurnStep::PostInference { stop: resp.stop_reason }),
            StepReport::ModelFailed { message, retryable } => r == TurnMove::Fail(
                OperatorError::Model { message, retryable },
            ),
            _ => r == TurnMove::Next(step),
        },
        TurnStep::PostInference { stop } => match report {
            StepReport::Hook(ReactAction::Halt { reason }) => r == TurnMove::End(ExitReason::InterceptorHalt { reason }),
            StepReport::Hook(ReactAction::Continue) => match stop {
                StopReason::EndTurn => r == TurnMove::End(ExitReason::Complete),
                StopReason::ContentFilter => r matches TurnMove::End(ExitReason::SafetyStop { reason })
                    && reason@ == "content_filter"@,
                StopReason::MaxTokens => r matches TurnMove::Fail(OperatorError::Model { message, retryable })
                    && message@ == "output truncated (max_tokens)"@ && !retryable,
                StopReason::ToolUse => r == TurnMove::Next(TurnStep::Tools),
            },
            _ => r == TurnMove::Next(step),
        },
        TurnStep::Tools => match report {
            StepReport::RoundEnded(Some(reason)) => r == TurnMove::End(ExitReason::InterceptorHalt { reason }),
            StepReport::RoundEnded(None) => r == TurnMove::Next(TurnStep::ExitCheck),
            _ => r == TurnMove::Next(step),
        },
        TurnStep::ExitCheck => match report {
            StepReport::Hook(ReactAction::Halt { reason }) => r == TurnMove::End(ExitReason::InterceptorHalt { reason }),
            StepReport::Hook(ReactAction::Continue) => r == TurnMove::Next(TurnStep::Limits),
            _ => r == TurnMove::Next(step),
        },
        TurnStep::Limits => match report {
            StepReport::LimitsChecked(Some(exit)) => r == TurnMove::End(exit),
            StepReport::LimitsChecked(None) => r == TurnMove::Next(TurnStep::Compaction),
            _ => r == TurnMove::Next(step),
        },
        TurnStep::Compaction => match report {
            StepReport::CompactionDone => r == TurnMove::Next(TurnStep::PreInference),
            _ => r == TurnMove::Next(step),
        },
    }
}

/// Whether the step moves on to the tools (the answer becomes an assistant
/// message).
pub open spec fn enters_tools(step: TurnStep, report: StepReport) -> bool {
    step == (TurnStep::PostInference { stop: StopReason::ToolUse }) && report == StepReport::Hook(ReactAction::Continue)
}

/// Whether the step closes the round (the results become a user message).
pub open spec fn closes_round(step: TurnStep, report: StepReport) -> bool {
    step == TurnStep::Tools && report == StepReport::RoundEnded(None)
}

/// Whether the step starts the next turn (which is counted).
pub open spec fn starts_turn(step: TurnStep, report: StepReport) -> bool {
    step == TurnStep::Compaction && report == StepReport::CompactionDone
}

/// The response a step accounts for: the model's answer to an inference.
pub open spec fn answer_of(step: TurnStep, report: StepReport) -> Option<ProviderResponse> {
    if step == TurnStep::Inference {
        match report {
            StepReport::Answered(resp) => Some(resp),
            _ => None,
        }
    } else {
        None
    }
}

/// Whether a response's usage and cost can be added to a run's totals.
pub open spec fn totals_fit(st: RunState, resp: ProviderResponse) -> bool {
    &&& st.tokens_in + resp.usage.input_tokens <= u64::MAX
    &&& st.tokens_out + resp.usage.output_tokens <= u64::MAX
    &&& resp.cost matches Some(c) ==> decimal_checked_sum(st.cost, c) is Some
}

/// How a step moves a run's totals: an answer adds its usage and cost, a new
/// turn is counted, and nothing else changes them.
pub open spec fn step_totals(a: RunState, step: TurnStep, report: StepReport, b: RunState) -> bool {
    &&& match answer_of(step, report) {
        Some(resp) => {
            &&& b.tokens_in == a.tokens_in + resp.usage.input_tokens
            &&& b.tokens_out == a.tokens_out + resp.usage.output_tokens
            &&& b.cost == cost_after(a.cost, resp.cost)
        },
        None => b.tokens_in == a.tokens_in && b.tokens_out == a.tokens_out && b.cost == a.cost,
    }
    &&& b.turns_used == a.turns_used + if starts_turn(step, report) { 1int } else { 0int }
}

impl RunState {
    /// Start a run's first turn: the turn is counted and the pre-inference
    /// hook is asked.
    pub fn first_step(&mut self) -> (r: TurnStep)
        requires
            old(self).turns_used < u32::MAX,
        ensures
            r == TurnStep::PreInference,
            *final(self) == (RunState { turns_used: (old(self).turns_used + 1) as u32, ..*old(self) }),
    {
        self.begin_turn();
        TurnStep::PreInference
    }

    /// Advance a run after a step was performed. Moving on to the tools
    /// records the latest answer as an assistant message; closing the round
    /// adds the tool results as one user message; starting the next turn
    /// counts it. Nothing else changes.
    pub fn advance(&mut self, step: TurnStep, report: StepReport) -> (r: TurnMove)
        requires
            starts_turn(step, report) ==> old(self).turns_used < u32::MAX,
            answer_of(step, report) matches Some(resp) ==> totals_fit(*old(self), resp),
        ensures
            is_turn_move(step, report, r),
            step_totals(*old(self), step, report, *final(self)),
            answer_of(step, report) matches Some(resp) ==> *final(self) == (RunState {
                tokens_in: (old(self).tokens_in + resp.usage.input_tokens) as u64,
                tokens_out: (old(self).tokens_out + resp.usage.output_tokens) as u64,
                cost: cost_after(old(self).cost, resp.cost),
                last_content: final(self).last_content,
                ..*old(self)
            }) && final(self).last_content@ == resp.content@,
            enters_tools(step, report) ==> final(self).messages.deep_view() == old(self).messages.deep_view().push(
                MessageModel { role: Role::Assistant, parts: old(self).last_content@, policy: CompactionPolicy::Normal },
            ) && *final(self) == (RunState { messages: final(self).messages, ..*old(self) }),
            closes_round(step, report) ==> final(self).messages.deep_view() == old(self).messages.deep_view().push(
                MessageModel { role: Role::User, parts: old(self).results@, policy: CompactionPolicy::Normal },
            ) && final(self).results@.len() == 0 && *final(self) == (RunState {
                messages: final(self).messages,
                results: final(self).results,
                ..*old(self)
            }),
            starts_turn(step, report) ==> *final(self) == (RunState {
                turns_used: (old(self).turns_used + 1) as u32,
                ..*old(self)
            }),
            !enters_tools(step, report) && !closes_round(step, report) && !starts_turn(step, report)
                && answer_of(step, report) is None ==> *final(self) == *old(self),
    {
        proof {
            reveal_strlit("content_filter");
            reveal_strlit("output truncated (max_tokens)");
        }
        match step {
            TurnStep::PreInference => match report {
                StepReport::Hook(ReactAction::Halt { reason }) => TurnMove::End(ExitReason::InterceptorHalt { reason }),
                StepReport::Hook(ReactAction::Continue) => TurnMove::Next(TurnStep::Inference),
                _ => TurnMove::Next(step),
            },
            TurnStep::Inference => match report {
                StepReport::Answered(resp) => {
                    self.account(&resp);
                    TurnMove::Next(TurnStep::PostInference { stop: resp.stop_reason })
                },
                StepReport::ModelFailed { message, retryable } => TurnMove::Fail(model_call_error(message, retryable)),
                _ => TurnMove::Next(step),
            },
            TurnStep::PostInference { stop } => match report {
                StepReport::Hook(ReactAction::Halt { reason }) => TurnMove::End(ExitReason::InterceptorHalt { reason }),
                StepReport::Hook(ReactAction::Continue) => match turn_outcome(stop) {
                    TurnOutcome::Finish(exit) => TurnMove::End(exit),
                    TurnOutcome::Fail(e) => TurnMove::Fail(e),
                    TurnOutcome::RunTools => {
                        let content = copy_parts(&self.last_content);
                        self.record_assistant(&content);
                        TurnMove::Next(TurnStep::Tools)
                    },
                },
                _ => TurnMove::Next(step),
            },
            TurnStep::Tools => match report {
                StepReport::RoundEnded(Some(reason)) => TurnMove::End(ExitReason::InterceptorHalt { reason }),
                StepReport::RoundEnded(None) => {
                    self.close_round();
                    TurnMove::Next(TurnStep::ExitCheck)
                },
                _ => TurnMove::Next(step),
            },
            TurnStep::ExitCheck => match report {
                StepReport::Hook(ReactAction::Halt { reason }) => TurnMove::End(ExitReason::InterceptorHalt { reason }),
                StepReport::Hook(ReactAction::Continue) => TurnMove::Next(TurnStep::Limits),
                _ => TurnMove::Next(step),
            },
            TurnStep::Limits => match report {
                StepReport::LimitsChecked(Some(exit)) => TurnMove::End(exit),
                StepReport::LimitsChecked(None) => TurnMove::Next(TurnStep::Compaction),
                _ => TurnMove::Next(step),
            },
            TurnStep::Compaction => match report {
                StepReport::CompactionDone => {
                    self.begin_turn();
                    TurnMove::Next(TurnStep::PreInference)
                },
                _ => TurnMove::Next(step),
            },
        }
    }
}

impl RunState {
    /// Whether a response's usage and cost can be added to the totals.
    pub fn fits(&self, resp: &ProviderResponse) -> (r: bool)
        ensures
            r == totals_fit(*self, *resp),
    {
        if self.tokens_in.checked_add(resp.usage.input_tokens).is_none() {
            return false;
        }
        if self.tokens_out.checked_add(resp.usage.output_tokens).is_none() {
            return false;
        }
        match &resp.cost {
            Some(c) => decimal_add(&self.cost, c).is_some(),
            None => true,
        }
    }

    /// Advance a run after a step, when the step's counters cannot overflow:
    /// `None`, with the run unchanged, when a new turn would pass the turn
    /// counter's range or an answer's usage or cost would overflow the
    /// totals; otherwise what `advance` gives.
    pub fn try_advance(&mut self, step: TurnStep, report: StepReport) -> (r: Option<TurnMove>)
        ensures
            r is None <==> ((starts_turn(step, report) && old(self).turns_used == u32::MAX) || (answer_of(
                step,
                report,
            ) matches Some(resp) && !totals_fit(*old(self), resp))),
            r is None ==> *final(self) == *old(self),
            r matches Some(m) ==> is_turn_move(step, report, m) && step_totals(*old(self), step, report, *final(self)),
    {
        match step {
            TurnStep::Compaction => match &report {
                StepReport::CompactionDone => {
                    if self.turns_used == u32::MAX {
                        return None;
                    }
                },
                _ => {},
            },
            TurnStep::Inference => match &report {
                StepReport::Answered(resp) => {
                    if !self.fits(resp) {
                        return None;
                    }
                },
                _ => {},
            },
            _ => {},
        }
        Some(self.advance(step, report))
    }
}

/// The responses a run was answered with, in order.
pub open spec fn answers(steps: Seq<TurnStep>, reports: Seq<StepReport>) -> Seq<ProviderResponse>
    decreases steps.len(),
{
    if steps.len() == 0 {
        Seq::empty()
    } else {
        let rest = answers(steps.drop_last(), reports.take(steps.len() - 1));
        match answer_of(steps.last(), reports[steps.len() - 1]) {
            Some(resp) => rest.push(resp),
            None => rest,
        }
    }
}

/// How many new turns a run's steps started.
pub open spec fn turns_started(steps: Seq<TurnStep>, reports: Seq<StepReport>) -> nat
    decreases steps.len(),
{
    if steps.len() == 0 {
        0
    } else {
        turns_started(steps.drop_last(), reports.take(steps.len() - 1)) + if starts_turn(
            steps.last(),
            reports[steps.len() - 1],
        ) {
            1nat
        } else {
            0nat
        }
    }
}

/// Over a run driven by `advance`, the token totals are the sums of the
/// answers' usage, the cost is every reported cost added in turn, and the
/// turns used grow by the turns started. The runtime's own updates between
/// steps (results, records, messages) keep the totals, so they enter as
/// steps that neither answer nor start a turn.
pub proof fn law_steps_totals(states: Seq<RunState>, steps: Seq<TurnStep>, reports: Seq<StepReport>)
    requires
        states.len() == steps.len() + 1,
        reports.len() == steps.len(),
        forall|k: int| 0 <= k < steps.len() ==> step_totals(#[trigger] states[k], steps[k], reports[k], states[k + 1]),
    ensures
        states.last().tokens_in == states[0].tokens_in + input_total(answers(steps, reports)),
        states.last().tokens_out == states[0].tokens_out + output_total(answers(steps, reports)),
        states.last().cost == cost_total(states[0].cost, answers(steps, reports)),
        states.last().turns_used == states[0].turns_used + turns_started(steps, reports),
    decreases steps.len(),
{
    if steps.len() > 0 {
        let n = steps.len() as int;
        let ps = states.drop_last();
        let pt = steps.drop_last();
        let pr = reports.take(n - 1);
        assert forall|k: int| 0 <= k < pt.len() implies step_totals(#[trigger] ps[k], pt[k], pr[k], ps[k + 1]) by {
            assert(step_totals(states[k], steps[k], reports[k], states[k + 1]));
        }
        law_steps_totals(ps, pt, pr);
        assert(step_totals(states[n - 1], steps[n - 1], reports[n - 1], states[n]));
        assert(ps.last() == states[n - 1]);
        let a = answers(pt, pr);
        match answer_of(steps[n - 1], reports[n - 1]) {
            Some(resp) => {
                assert(answers(steps, reports) == a.push(resp));
                assert(a.push(resp).drop_last() =~= a);
            },
            None => {},
        }
    }
}

/// The place of a step in a turn, counting from the pre-inference hook.
pub open spec fn step_index(s: TurnStep) -> int {
    match s {
        TurnStep::PreInference => 0,
        TurnStep::Inference => 1,
        TurnStep::PostInference { .. } => 2,
        TurnStep::Tools => 3,
        TurnStep::ExitCheck => 4,
        TurnStep::Limits => 5,
        TurnStep::Compaction => 6,
    }
}

/// The turn's order and halts: a run only ever moves on to the next step of
/// the turn (after compaction, the next turn's pre-inference hook) or stays;
/// any hook that halts, and a round that an interceptor halted, end the run
/// with `InterceptorHalt` and that reason; only an inference can fail the run
/// on a model error, and only the post-inference step decides on the stop
/// reason, where `ToolUse` alone leads to the tools.
pub proof fn law_turn_order(step: TurnStep, report: StepReport, r: TurnMove)
    requires
        is_turn_move(step, report, r),
    ensures
        r matches TurnMove::Next(s) ==> s == step || step_index(s) == (step_index(step) + 1) % 7,
        (step == TurnStep::PreInference || step is PostInference || step == TurnStep::ExitCheck) ==> (report matches StepReport::Hook(
            ReactAction::Halt { reason },
        ) ==> r == TurnMove::End(ExitReason::InterceptorHalt { reason })),
        step == TurnStep::Tools ==> (report matches StepReport::RoundEnded(Some(reason)) ==> r == TurnMove::End(
            ExitReason::InterceptorHalt { reason },
        )),
        step == TurnStep::Inference ==> (report matches StepReport::ModelFailed { message, retryable } ==> r
            == TurnMove::Fail(OperatorError::Model { message, retryable })),
        step == TurnStep::Inference ==> (report matches StepReport::Answered(resp) ==> r == TurnMove::Next(
            TurnStep::PostInference { stop: resp.stop_reason },
        )),
        r == TurnMove::Next(TurnStep::Tools) && step != TurnStep::Tools ==> step == (TurnStep::PostInference {
            stop: StopReason::ToolUse,
        }),
        r is Fail ==> step == TurnStep::Inference || step == (TurnStep::PostInference { stop: StopReason::MaxTokens }),
        step == (TurnStep::PostInference { stop: StopReason::EndTurn }) && report == StepReport::Hook(ReactAction::Continue)
            ==> r == TurnMove::End(ExitReason::Complete),
        step == TurnStep::Limits ==> (report matches StepReport::LimitsChecked(Some(exit)) ==> r == TurnMove::End(exit)),
{
}

/// What a stop reason decides: only `ToolUse` runs the tools; `EndTurn`
/// completes; a content filter is a safety stop; truncated output fails the
/// run with a model error that is not retryable.
pub proof fn law_turn_outcome(reason: StopReason, r: TurnOutcome)
    requires
        is_turn_outcome(reason, r),
    ensures
        r is RunTools <==> reason == StopReason::ToolUse,
        reason == StopReason::EndTurn ==> r matches TurnOutcome::Finish(ExitReason::Complete),
        reason == StopReason::ContentFilter ==> r matches TurnOutcome::Finish(ExitReason::SafetyStop { .. }),
        r is Fail <==> reason == StopReason::MaxTokens,
        r matches TurnOutcome::Fail(e) ==> e matches OperatorError::Model { retryable, .. } && !retryable,
{
}

/// A dispatch's result is an error exactly when the dispatch did not answer;
/// an answer's text is the result as it is.
pub proof fn law_dispatch_text(name: Seq<char>, o: DispatchOutcome)
    ensures
        dispatch_text(name, o).1 <==> !(o is Answered),
        o matches DispatchOutcome::Answered(Some(t)) ==> dispatch_text(name, o).0 == t@,
        o matches DispatchOutcome::Failed(m) ==> dispatch_text(name, o).0 == m@,
        o is NotFound ==> dispatch_text(name, o).0.len() > name.len(),
{
    reveal_strlit("tool not found: ");
}

/// A copy of a list of content parts.
pub fn copy_parts(parts: &Vec<ContentPart>) -> (r: Vec<ContentPart>)
    ensures
        r@ == parts@,
{
    let mut out: Vec<ContentPart> = Vec::new();
    let n = parts.len();
    for i in 0..n
        invariant
            n == parts@.len(),
            out@ == parts@.take(i as int),
    {
        out.push(parts[i].duplicate());
        assert(parts@.take(i + 1) == parts@.take(i as int).push(parts@[i as int]));
    }
    assert(parts@.take(n as int) == parts@);
    out
}

/// The mathematical view of a budget event.
pub enum BudgetEventView {
    /// Tool calls reached the warning threshold.
    StepLimitApproaching { current: u32, max: u32 },
    /// Tool calls reached the limit.
    StepLimitReached { total_sub_dispatches: u32 },
    /// The same call repeated past the limit.
    LoopDetected { operator_name: Seq<char>, consecutive_count: u32, max: u32 },
    /// Elapsed time reached the warning threshold.
    TimeoutApproaching { elapsed_ms: u64, max_duration_ms: u64 },
    /// Elapsed time reached the limit.
    TimeoutReached { elapsed_ms: u64 },
}

impl View for BudgetEvent {
    type V = BudgetEventView;

    open spec fn view(&self) -> BudgetEventView {
        match self {
            BudgetEvent::StepLimitApproaching { current, max } => BudgetEventView::StepLimitApproaching {
                current: *current,
                max: *max,
            },
            BudgetEvent::StepLimitReached { total_sub_dispatches } => BudgetEventView::StepLimitReached {
                total_sub_dispatches: *total_sub_dispatches,
            },
            BudgetEvent::LoopDetected { operator_name, consecutive_count, max } => BudgetEventView::LoopDetected {
                operator_name: operator_name@,
                consecutive_count: *consecutive_count,
                max: *max,
            },
            BudgetEvent::TimeoutApproaching { elapsed_ms, max_duration_ms } => BudgetEventView::TimeoutApproaching {
                elapsed_ms: *elapsed_ms,
                max_duration_ms: *max_duration_ms,
            },
            BudgetEvent::TimeoutReached { elapsed_ms } => BudgetEventView::TimeoutReached { elapsed_ms: *elapsed_ms },
        }
    }
}

/// Views of a list of budget events.
pub open spec fn event_views(events: Seq<BudgetEvent>) -> Seq<BudgetEventView> {
    events.map_values(|e: BudgetEvent| e@)
}

/// The limits checked after each round of tools.
#[derive(Debug, Clone)]
pub struct RunLimits {
    /// Maximum tool calls in the run.
    pub max_tool_calls: Option<u32>,
    /// Tool-call count from which the approaching-limit event is emitted.
    pub tool_warn_at: u32,
    /// Maximum run of identical calls.
    pub max_repeat_calls: Option<u32>,
    /// Turn limit.
    pub max_turns: u32,
    /// Cost limit.
    pub max_cost: Option<Decimal>,
    /// Time limit in milliseconds.
    pub max_duration_ms: Option<u64>,
    /// Elapsed milliseconds from which the approaching-timeout event is emitted.
    pub duration_warn_ms: u64,
}

/// Why the limits end a run.
pub enum LimitExit {
    /// The tool-call limit.
    ToolCalls,
    /// Identical calls repeated past the limit.
    Stuck,
    /// The turn limit.
    Turns,
    /// The cost limit.
    Cost,
    /// The time limit.
    Time,
}

/// Length of the run of identical calls (name and input) at the end of the
/// window: how many of the latest calls repeat the latest one in a row.
pub open spec fn trailing_run(calls: Seq<(Seq<char>, u64)>) -> nat
    decreases calls.len(),
{
    if calls.len() <= 1 {
        calls.len()
    } else if calls[calls.len() - 2] == calls.last() {
        trailing_run(calls.drop_last()) + 1
    } else {
        1
    }
}

/// Whether the run is stuck: a positive repeat limit, and at least that many
/// identical calls in a row at the end of the window.
pub open spec fn is_stuck(calls: Seq<(Seq<char>, u64)>, max_repeat: Option<u32>) -> bool {
    &&& max_repeat matches Some(m)
    &&& m > 0
    &&& trailing_run(calls) >= m
}

/// The approaching-limit event for tool calls, if due.
pub open spec fn step_warning(n: u32, limits: RunLimits) -> Seq<BudgetEventView> {
    match limits.max_tool_calls {
        Some(m) if limits.tool_warn_at <= n && n < m => seq![BudgetEventView::StepLimitApproaching { current: n, max: m }],
        _ => Seq::empty(),
    }
}

/// The approaching-timeout event, if due.
pub open spec fn time_warning(elapsed: u64, limits: RunLimits) -> Seq<BudgetEventView> {
    match limits.max_duration_ms {
        Some(d) if limits.duration_warn_ms <= elapsed && elapsed < d => seq![
            BudgetEventView::TimeoutApproaching { elapsed_ms: elapsed, max_duration_ms: d },
        ],
        _ => Seq::empty(),
    }
}

/// The events and outcome of the limit checks, in their order: tool calls,
/// repeated calls, turns, cost, time. Approaching events come before the
/// check they announce.
pub open spec fn limit_outcome(st: RunState, limits: RunLimits, elapsed: u64) -> (Seq<BudgetEventView>, Option<LimitExit>) {
    let calls = call_views(st.recent_calls@);
    let e1 = step_warning(st.sub_dispatches, limits);
    if limits.max_tool_calls matches Some(m) && st.sub_dispatches >= m {
        (e1.push(BudgetEventView::StepLimitReached { total_sub_dispatches: st.sub_dispatches }), Some(LimitExit::ToolCalls))
    } else if is_stuck(calls, limits.max_repeat_calls) {
        (e1.push(BudgetEventView::LoopDetected {
            operator_name: calls.last().0,
            consecutive_count: trailing_run(calls) as u32,
            max: limits.max_repeat_calls.unwrap(),
        }), Some(LimitExit::Stuck))
    } else if st.turns_used >= limits.max_turns {
        (e1, Some(LimitExit::Turns))
    } else if limits.max_cost matches Some(c) && crate::money::decimal_at_least(st.cost, c) {
        (e1, Some(LimitExit::Cost))
    } else {
        let e2 = e1 + time_warning(elapsed, limits);
        if limits.max_duration_ms matches Some(d) && elapsed >= d {
            (e2.push(BudgetEventView::TimeoutReached { elapsed_ms: elapsed }), Some(LimitExit::Time))
        } else {
            (e2, None)
        }
    }
}

/// The exit reason for a limit: budget exhausted for tool calls and cost,
/// `stuck_detected` for repeated calls, max turns, timeout.
pub open spec fn is_limit_exit(v: Option<LimitExit>, r: Option<ExitReason>) -> bool {
    match v {
        None => r is None,
        Some(LimitExit::ToolCalls) => r == Some(ExitReason::BudgetExhausted),
        Some(LimitExit::Stuck) => r matches Some(ExitReason::Custom(s)) && s@ == "stuck_detected"@,
        Some(LimitExit::Turns) => r == Some(ExitReason::MaxTurns),
        Some(LimitExit::Cost) => r == Some(ExitReason::BudgetExhausted),
        Some(LimitExit::Time) => r == Some(ExitReason::Timeout),
    }
}

/// Events to emit and, when a limit is hit, the reason the run ends.
pub struct LimitCheck {
    /// Budget events, in order.
    pub events: Vec<BudgetEvent>,
    /// Why the run ends, if it does.
    pub exit: Option<ExitReason>,
}

/// Whether the window ends in at least `max_repeat` identical calls (name and
/// input): the latest `max_repeat` entries all equal the latest one.
pub open spec fn repeats_at_end(calls: Seq<(Seq<char>, u64)>, max_repeat: Option<u32>) -> bool {
    &&& max_repeat matches Some(m)
    &&& m > 0
    &&& calls.len() >= m
    &&& forall|j: int| calls.len() - m <= j < calls.len() ==> #[trigger] calls[j] == calls.last()
}

/// Whether any limit of a run is hit: tool calls at or above their maximum,
/// repeated calls at the repeat limit, turns at or above the maximum, cost at
/// or above the maximum, or elapsed time at or above the maximum duration.
pub open spec fn any_limit_hit(st: RunState, limits: RunLimits, elapsed: u64) -> bool {
    ||| (limits.max_tool_calls matches Some(m) && st.sub_dispatches >= m)
    ||| repeats_at_end(call_views(st.recent_calls@), limits.max_repeat_calls)
    ||| st.turns_used >= limits.max_turns
    ||| (limits.max_cost matches Some(c) && crate::money::decimal_at_least(st.cost, c))
    ||| (limits.max_duration_ms matches Some(d) && elapsed >= d)
}

/// The final run of identical calls reaches `m` exactly when the latest `m`
/// calls all equal the latest one.
pub proof fn law_trailing_run_repeats(calls: Seq<(Seq<char>, u64)>, m: nat)
    requires
        m >= 1,
    ensures
        trailing_run(calls) >= m <==> (calls.len() >= m && forall|j: int|
            calls.len() - m <= j < calls.len() ==> #[trigger] calls[j] == calls.last()),
    decreases calls.len(),
{
    let n = calls.len() as int;
    if n >= 2 {
        let p = calls.drop_last();
        if m >= 2 {
            law_trailing_run_repeats(p, (m - 1) as nat);
            if calls[n - 2] == calls.last() {
                if trailing_run(calls) >= m {
                    assert forall|j: int| n - m <= j < n implies #[trigger] calls[j] == calls.last() by {
                        if j < n - 1 {
                            assert(p[j] == calls[j]);
                            assert(p.last() == calls[n - 2]);
                        }
                    }
                }
                if calls.len() >= m && forall|j: int| n - m <= j < n ==> #[trigger] calls[j] == calls.last() {
                    assert forall|j: int| p.len() - (m - 1) <= j < p.len() implies #[trigger] p[j] == p.last() by {
                        assert(calls[j] == calls.last());
                        assert(calls[n - 2] == calls.last());
                    }
                }
            } else {
                if calls.len() >= m && forall|j: int| n - m <= j < n ==> #[trigger] calls[j] == calls.last() {
                    assert(calls[n - 2] == calls.last());
                }
            }
        }
    }
}

/// The stuck test is the repeat test: a positive limit `m` and the latest `m`
/// calls all the same.
pub proof fn law_stuck_is_repeats(calls: Seq<(Seq<char>, u64)>, max_repeat: Option<u32>)
    ensures
        is_stuck(calls, max_repeat) <==> repeats_at_end(calls, max_repeat),
{
    match max_repeat {
        Some(m) => {
            if m > 0 {
                law_trailing_run_repeats(calls, m as nat);
            }
        },
        None => {},
    }
}

/// How many identical calls in a row end the recent-calls window.
fn window_trailing_run(calls: &VecDeque<(String, u64)>) -> (r: usize)
    ensures
        r == trailing_run(call_views(calls@)),
        r <= calls@.len(),
{
    let n = calls.len();
    let mut run: usize = 0;
    for k in 0..n
        invariant
            n == calls@.len(),
            run == trailing_run(call_views(calls@.take(k as int))),
            run <= k,
    {
        let ghost cv = call_views(calls@.take(k + 1));
        assert(cv.drop_last() =~= call_views(calls@.take(k as int)));
        if k > 0 && same_text(calls[k].0.as_str(), calls[k - 1].0.as_str()) && calls[k].1 == calls[k - 1].1 {
            assert(cv[k - 1] == cv.last());
            run = run + 1;
        } else {
            assert(k > 0 ==> cv[k - 1] != cv.last());
            run = 1;
        }
    }
    assert(calls@.take(n as int) =~= calls@);
    run
}

impl RunState {
    /// Check the limits after a round of tools.
    pub fn check_limits(&self, limits: &RunLimits, elapsed_ms: u64) -> (r: LimitCheck)
        requires
            self.recent_calls@.len() <= u32::MAX,
        ensures
            event_views(r.events@) == limit_outcome(*self, *limits, elapsed_ms).0,
            is_limit_exit(limit_outcome(*self, *limits, elapsed_ms).1, r.exit),
            r.exit is None <==> !any_limit_hit(*self, *limits, elapsed_ms),
            limits.max_tool_calls matches Some(m) ==> (self.sub_dispatches >= m ==> r.exit == Some(
                ExitReason::BudgetExhausted,
            )),
            repeats_at_end(call_views(self.recent_calls@), limits.max_repeat_calls) && !(limits.max_tool_calls matches Some(
                m,
            ) && self.sub_dispatches >= m) ==> (r.exit matches Some(ExitReason::Custom(s)) && s@ == "stuck_detected"@),
            self.turns_used >= limits.max_turns ==> r.exit is Some,
            limits.max_duration_ms matches Some(d) ==> (elapsed_ms >= d ==> r.exit is Some),
            limits.max_cost matches Some(c) ==> (crate::money::decimal_at_least(self.cost, c) ==> r.exit is Some),
    {
        proof {
            law_stuck_is_repeats(call_views(self.recent_calls@), limits.max_repeat_calls);
            reveal_strlit("stuck_detected");
        }
        let ghost calls = call_views(self.recent_calls@);
        let mut events: Vec<BudgetEvent> = Vec::new();
        let n = self.sub_dispatches;
        match limits.max_tool_calls {
            Some(m) => {
                if limits.tool_warn_at <= n && n < m {
                    events.push(BudgetEvent::StepLimitApproaching { current: n, max: m });
                }
            },
            None => {},
        }
        assert(event_views(events@) =~= step_warning(n, *limits));
        match limits.max_tool_calls {
            Some(m) => {
                if n >= m {
                    let ghost before = events@;
                    events.push(BudgetEvent::StepLimitReached { total_sub_dispatches: n });
                    assert(event_views(events@) =~= event_views(before).push(
                        BudgetEventView::StepLimitReached { total_sub_dispatches: n },
                    ));
                    return LimitCheck { events, exit: Some(ExitReason::BudgetExhausted) };
                }
            },
            None => {},
        }
        match limits.max_repeat_calls {
            Some(m) => {
                let run = window_trailing_run(&self.recent_calls);
                if m > 0 && run >= m as usize {
                    let ghost before = events@;
                    let count = run as u32;
                    let last = self.recent_calls.len() - 1;
                    events.push(
                        BudgetEvent::LoopDetected {
                            operator_name: self.recent_calls[last].0.clone(),
                            consecutive_count: count,
                            max: m,
                        },
                    );
                    assert(event_views(events@) =~= event_views(before).push(
                        BudgetEventView::LoopDetected {
                            operator_name: calls.last().0,
                            consecutive_count: trailing_run(calls) as u32,
                            max: m,
                        },
                    ));
                    return LimitCheck { events, exit: Some(ExitReason::Custom(String::from_str("stuck_detected"))) };
                }
            },
            None => {},
        }
        if self.turns_used >= limits.max_turns {
            return LimitCheck { events, exit: Some(ExitReason::MaxTurns) };
        }
        match &limits.max_cost {
            Some(c) => {
                if crate::money::decimal_ge(&self.cost, c) {
                    return LimitCheck { events, exit: Some(ExitReason::BudgetExhausted) };
                }
            },
            None => {},
        }
        let ghost e1 = events@;
        match limits.max_duration_ms {
            Some(d) => {
                if limits.duration_warn_ms <= elapsed_ms && elapsed_ms < d {
                    events.push(BudgetEvent::TimeoutApproaching { elapsed_ms, max_duration_ms: d });
                }
            },
            None => {},
        }
        assert(event_views(events@) =~= event_views(e1) + time_warning(elapsed_ms, *limits));
        match limits.max_duration_ms {
            Some(d) => {
                if elapsed_ms >= d {
                    let ghost before = events@;
                    events.push(BudgetEvent::TimeoutReached { elapsed_ms });
                    assert(event_views(events@) =~= event_views(before).push(
                        BudgetEventView::TimeoutReached { elapsed_ms },
                    ));
                    return LimitCheck { events, exit: Some(ExitReason::Timeout) };
                }
            },
            None => {},
        }
        LimitCheck { events, exit: None }
    }
}

/// Steering commands split into messages to inject and buffer commands,
/// each in the order received.
pub fn split_steering(commands: Vec<SteeringCommand>) -> (r: (Vec<Message>, Vec<ContextCommand>))
    ensures
        r.0.deep_view() == steering_messages(commands@),
        r.1@ == steering_commands(commands@),
{
    let mut msgs: Vec<Message> = Vec::new();
    let mut cmds: Vec<ContextCommand> = Vec::new();
    let n = commands.len();
    for i in 0..n
        invariant
            n == commands@.len(),
            msgs.deep_view() == steering_messages(commands@.take(i as int)),
            cmds@ == steering_commands(commands@.take(i as int)),
    {
        assert(commands@.take(i + 1).drop_last() == commands@.take(i as int));
        match &commands[i] {
            SteeringCommand::Message(m) => {
                let ghost before = msgs.deep_view();
                msgs.push(m.duplicate());
                assert(msgs.deep_view() =~= before.push(m.deep_view()));
            },
            SteeringCommand::Context(c) => {
                cmds.push(c.duplicate());
            },
        }
    }
    assert(commands@.take(n as int) == commands@);
    (msgs, cmds)
}

/// Where in a round of tool calls the steering source is polled.
#[derive(Debug, Clone, Copy, PartialEq, Eq)]
pub enum RoundPoint {
    /// Before a batch of shared calls.
    BeforeShared,
    /// Before call `idx` of a shared batch, after earlier calls of it ran.
    BeforeSharedCall { idx: usize },
    /// After call `idx` of a shared batch of `len` calls.
    AfterSharedCall { idx: usize, len: usize },
    /// After a whole shared batch.
    AfterShared,
    /// Before an exclusive call.
    BeforeExclusive,
    /// After an exclusive call.
    AfterExclusive,
}

/// How the round goes on after a steering poll.
#[derive(Debug, Clone, Copy, PartialEq, Eq)]
pub enum RoundMove {
    /// Go on as planned.
    Go,
    /// End the round now.
    Stop,
    /// Skip the batch's calls from index `from` on, then end the round.
    SkipRestAndStop { from: usize },
    /// Skip the batch's calls from index `from` on, and go on.
    SkipRestAndGo { from: usize },
}

/// The steering rule of a round: with nothing injected the round goes on.
/// Messages injected before a batch skip all of its calls and end the round;
/// before a later call of a shared batch they skip the calls from there and
/// the round goes on; after a call of a shared batch they skip the calls
/// still to come and end the round (when there are any); after a whole
/// batch, or after an exclusive call, they end the round.
pub open spec fn round_move_spec(point: RoundPoint, injected: bool) -> RoundMove {
    if !injected {
        RoundMove::Go
    } else {
        match point {
            RoundPoint::BeforeShared => RoundMove::SkipRestAndStop { from: 0 },
            RoundPoint::BeforeSharedCall { idx } => if idx > 0 {
                RoundMove::SkipRestAndGo { from: idx }
            } else {
                RoundMove::Go
            },
            RoundPoint::AfterSharedCall { idx, len } => if idx + 1 < len {
                RoundMove::SkipRestAndStop { from: (idx + 1) as usize }
            } else {
                RoundMove::Go
            },
            RoundPoint::AfterShared => RoundMove::Stop,
            RoundPoint::BeforeExclusive => RoundMove::SkipRestAndStop { from: 0 },
            RoundPoint::AfterExclusive => RoundMove::Stop,
        }
    }
}

/// How the round goes on after a steering poll at `point` that injected
/// messages or not.
pub fn round_move(point: RoundPoint, injected: bool) -> (r: RoundMove)
    ensures
        r == round_move_spec(point, injected),
{
    if !injected {
        return RoundMove::Go;
    }
    match point {
        RoundPoint::BeforeShared => RoundMove::SkipRestAndStop { from: 0 },
        RoundPoint::BeforeSharedCall { idx } => if idx > 0 {
            RoundMove::SkipRestAndGo { from: idx }
        } else {
            RoundMove::Go
        },
        RoundPoint::AfterSharedCall { idx, len } => if idx < len && idx + 1 < len {
            RoundMove::SkipRestAndStop { from: idx + 1 }
        } else {
            RoundMove::Go
        },
        RoundPoint::AfterShared => RoundMove::Stop,
        RoundPoint::BeforeExclusive => RoundMove::SkipRestAndStop { from: 0 },
        RoundPoint::AfterExclusive => RoundMove::Stop,
    }
}

/// The messages among steering commands.
pub open spec fn steering_messages(cmds: Seq<SteeringCommand>) -> Seq<MessageModel>
    decreases cmds.len(),
{
    if cmds.len() == 0 {
        Seq::empty()
    } else {
        let rest = steering_messages(cmds.drop_last());
        match cmds.last() {
            SteeringCommand::Message(m) => rest.push(m.deep_view()),
            _ => rest,
        }
    }
}

/// The buffer commands among steering commands.
pub open spec fn steering_commands(cmds: Seq<SteeringCommand>) -> Seq<ContextCommand>
    decreases cmds.len(),
{
    if cmds.len() == 0 {
        Seq::empty()
    } else {
        let rest = steering_commands(cmds.drop_last());
        match cmds.last() {
            SteeringCommand::Context(c) => rest.push(c),
            _ => rest,
        }
    }
}

/// Whether `DropOldest` keeps the message at index `i`: pinned messages
/// always, others once `count` unpinned ones before them have been dropped.
pub open spec fn drop_keeps(msgs: Seq<MessageModel>, count: nat, i: int) -> bool {
    is_pinned(msgs[i]) || unpinned_count(msgs.take(i)) >= count
}

/// The buffer after dropping the `count` oldest unpinned messages.
pub open spec fn drop_oldest_spec(msgs: Seq<MessageModel>, count: nat) -> Seq<MessageModel> {
    select(msgs, |i: int| drop_keeps(msgs, count, i), msgs.len() as int)
}

/// The buffer after dropping every unpinned message.
pub open spec fn clear_working_spec(msgs: Seq<MessageModel>) -> Seq<MessageModel> {
    select(msgs, |i: int| is_pinned(msgs[i]), msgs.len() as int)
}

/// The buffer after a command; snapshot commands leave it to the runtime.
pub open spec fn after_command(msgs: Seq<MessageModel>, cmd: ContextCommand) -> Seq<MessageModel> {
    match cmd {
        ContextCommand::Pin { message_index } => if message_index < msgs.len() {
            msgs.update(
                message_index as int,
                MessageModel { policy: CompactionPolicy::Pinned, ..msgs[message_index as int] },
            )
        } else {
            msgs
        },
        ContextCommand::DropOldest { count } => drop_oldest_spec(msgs, count as nat),
        ContextCommand::ClearWorking => clear_working_spec(msgs),
        ContextCommand::SaveSnapshot { .. } => msgs,
        ContextCommand::LoadSnapshot { .. } => msgs,
    }
}

/// Apply a buffer command: pin a message (an index past the end does
/// nothing), drop the oldest unpinned messages, or drop all unpinned ones.
/// Snapshot commands read or write files and are carried out by the runtime;
/// here they leave the buffer unchanged.
pub fn apply_context_command(messages: &mut Vec<Message>, cmd: &ContextCommand)
    ensures
        final(messages).deep_view() == after_command(old(messages).deep_view(), *cmd),
{
    let ghost msgs = messages.deep_view();
    match cmd {
        ContextCommand::Pin { message_index } => {
            let i = *message_index;
            if i < messages.len() {
                let mut m = messages[i].duplicate();
                m.meta.policy = CompactionPolicy::Pinned;
                let ghost mv = m.deep_view();
                messages.set(i, m);
                assert(messages.deep_view() =~= msgs.update(i as int, mv));
            }
        },
        ContextCommand::DropOldest { count } => {
            let kept = drop_oldest(messages, *count);
            *messages = kept;
        },
        ContextCommand::ClearWorking => {
            let kept = keep_pinned(messages);
            *messages = kept;
        },
        ContextCommand::SaveSnapshot { .. } => {},
        ContextCommand::LoadSnapshot { .. } => {},
    }
}

/// The buffer without its `count` oldest unpinned messages.
pub fn drop_oldest(messages: &Vec<Message>, count: usize) -> (r: Vec<Message>)
    ensures
        r.deep_view() == drop_oldest_spec(messages.deep_view(), count as nat),
{
    let ghost msgs = messages.deep_view();
    let n = messages.len();
    let mut out: Vec<Message> = Vec::new();
    let mut rank: usize = 0;
    for i in 0..n
        invariant
            n == msgs.len(),
            msgs == messages.deep_view(),
            rank == unpinned_count(msgs.take(i as int)),
            out.deep_view() == select(msgs, |k: int| drop_keeps(msgs, count as nat, k), i as int),
    {
        proof {
            lemma_count_take_step(msgs, i as int, CompactionPolicy::Pinned);
            lemma_count_le_len(msgs.take(i as int), CompactionPolicy::Pinned);
        }
        let ghost before = out.deep_view();
        if messages[i].is_pinned() {
            out.push(messages[i].duplicate());
            assert(out.deep_view() =~= before.push(msgs[i as int]));
        } else {
            if rank >= count {
                out.push(messages[i].duplicate());
                assert(out.deep_view() =~= before.push(msgs[i as int]));
            }
            rank = rank + 1;
        }
    }
    out
}

/// The pinned messages of the buffer, in order.
pub fn keep_pinned(messages: &Vec<Message>) -> (r: Vec<Message>)
    ensures
        r.deep_view() == clear_working_spec(messages.deep_view()),
{
    let ghost msgs = messages.deep_view();
    let n = messages.len();
    let mut out: Vec<Message> = Vec::new();
    for i in 0..n
        invariant
            n == msgs.len(),
            msgs == messages.deep_view(),
            out.deep_view() == select(msgs, |k: int| is_pinned(msgs[k]), i as int),
    {
        let ghost before = out.deep_view();
        if messages[i].is_pinned() {
            out.push(messages[i].duplicate());
            assert(out.deep_view() =~= before.push(msgs[i as int]));
        }
    }
    out
}

/// Whether the buffer's estimated tokens exceed the compaction threshold.
pub fn compaction_due(messages: &Vec<Message>, effective_limit: usize) -> (r: bool)
    requires
        total_tokens(messages.deep_view()) <= usize::MAX,
    ensures
        r == (total_tokens(messages.deep_view()) > effective_limit),
{
    sum_tokens(messages.as_slice()) > effective_limit
}

/// The event for a compaction that an interceptor blocked.
pub fn compaction_blocked() -> (r: CompactionEvent)
    ensures
        r matches CompactionEvent::CompactionSkipped { reason } && reason@ == "blocked by interceptor"@,
{
    CompactionEvent::CompactionSkipped { reason: String::from_str("blocked by interceptor") }
}

impl RunState {
    /// Replace the buffer by its compacted form; returns the quality event
    /// (tokens and messages before and after, messages lost) and the number
    /// of messages removed.
    pub fn apply_compaction(&mut self, compacted: Vec<Message>) -> (r: (CompactionEvent, usize))
        requires
            old(self).messages@.len() <= u32::MAX,
            compacted@.len() <= u32::MAX,
            total_tokens(old(self).messages.deep_view()) <= usize::MAX,
            total_tokens(old(self).messages.deep_view()) <= u64::MAX,
            total_tokens(compacted.deep_view()) <= usize::MAX,
            total_tokens(compacted.deep_view()) <= u64::MAX,
        ensures
            final(self).messages == compacted,
            *final(self) == (RunState { messages: compacted, ..*old(self) }),
            r.0 == (CompactionEvent::CompactionQuality {
                tokens_before: total_tokens(old(self).messages.deep_view()) as u64,
                tokens_after: total_tokens(compacted.deep_view()) as u64,
                items_preserved: compacted@.len() as u32,
                items_lost: if old(self).messages@.len() > compacted@.len() {
                    (old(self).messages@.len() - compacted@.len()) as u32
                } else {
                    0
                },
            }),
            r.1 == (if old(self).messages@.len() > compacted@.len() {
                old(self).messages@.len() - compacted@.len()
            } else {
                0
            }),
    {
        let before_count = self.messages.len() as u32;
        let before_tokens = sum_tokens(self.messages.as_slice()) as u64;
        let after_count = compacted.len() as u32;
        let after_tokens = sum_tokens(compacted.as_slice()) as u64;
        let lost: u32 = if before_count > after_count { before_count - after_count } else { 0 };
        self.messages = compacted;
        (
            CompactionEvent::CompactionQuality {
                tokens_before: before_tokens,
                tokens_after: after_tokens,
                items_preserved: after_count,
                items_lost: lost,
            },
            lost as usize,
        )
    }
}

/// A point-in-time view of an operator's context window.
#[derive(Debug, Clone)]
pub struct ContextSnapshot {
    /// Messages in the window.
    pub messages: Vec<Message>,
    /// Estimated tokens of the window (one per four characters).
    pub token_count: usize,
    /// Number of pinned messages.
    pub pinned_count: usize,
    /// Messages removed by the most recent compaction (zero before any).
    pub last_compaction_removed: usize,
}

impl ContextSnapshot {
    /// The snapshot of a buffer and the latest compaction's removal count.
    pub fn of(messages: &Vec<Message>, last_compaction_removed: usize) -> (r: ContextSnapshot)
        requires
            total_tokens(messages.deep_view()) <= usize::MAX,
        ensures
            r.messages.deep_view() == messages.deep_view(),
            r.token_count == total_tokens(messages.deep_view()),
            r.pinned_count == pinned_count(messages.deep_view()),
            r.last_compaction_removed == last_compaction_removed,
    {
        ContextSnapshot {
            messages: crate::message::copy_messages(messages.as_slice()),
            token_count: sum_tokens(messages.as_slice()),
            pinned_count: count_pinned(messages.as_slice()),
            last_compaction_removed,
        }
    }
}

/// The buffer after a list of commands, applied in order.
pub open spec fn after_commands(msgs: Seq<MessageModel>, cmds: Seq<ContextCommand>) -> Seq<MessageModel>
    decreases cmds.len(),
{
    if cmds.len() == 0 {
        msgs
    } else {
        after_command(after_commands(msgs, cmds.drop_last()), cmds.last())
    }
}

/// Apply buffer commands in order (snapshot commands are the runtime's).
pub fn apply_context_commands(messages: &mut Vec<Message>, cmds: Vec<ContextCommand>)
    ensures
        final(messages).deep_view() == after_commands(old(messages).deep_view(), cmds@),
{
    let ghost start = messages.deep_view();
    let n = cmds.len();
    for i in 0..n
        invariant
            n == cmds@.len(),
            messages.deep_view() == after_commands(start, cmds@.take(i as int)),
    {
        assert(cmds@.take(i + 1).drop_last() == cmds@.take(i as int));
        apply_context_command(messages, &cmds[i]);
    }
    assert(cmds@.take(n as int) == cmds@);
}

/// A selection that keeps every pinned message and the unpinned ones from
/// rank `thr` on keeps `max(unpinned - thr, 0)` unpinned messages.
proof fn lemma_rank_select(msgs: Seq<MessageModel>, keep: spec_fn(int) -> bool, n: int, thr: int)
    requires
        0 <= n <= msgs.len(),
        0 <= thr,
        forall|i: int|
            0 <= i < n ==> (#[trigger] keep(i) <==> (is_pinned(msgs[i]) || unpinned_count(msgs.take(i))
                >= thr)),
    ensures
        pinned_count(select(msgs, keep, n)) == pinned_count(msgs.take(n)),
        unpinned_count(select(msgs, keep, n)) == if unpinned_count(msgs.take(n)) >= thr {
            unpinned_count(msgs.take(n)) - thr
        } else {
            0
        },
    decreases n,
{
    if n == 0 {
        assert(msgs.take(0) =~= Seq::<MessageModel>::empty());
    } else {
        lemma_rank_select(msgs, keep, n - 1, thr);
        lemma_count_take_step(msgs, n - 1, CompactionPolicy::Pinned);
        let prev = select(msgs, keep, n - 1);
        if keep(n - 1) {
            lemma_count_push(prev, msgs[n - 1], CompactionPolicy::Pinned);
        }
        lemma_count_le_len(prev, CompactionPolicy::Pinned);
        lemma_count_le_len(msgs.take(n - 1), CompactionPolicy::Pinned);
    }
}

/// Dropping the oldest messages never removes a pinned message: every pinned
/// message stays, `min(count, unpinned)` unpinned messages go, and the order
/// of what remains is kept.
pub proof fn law_drop_oldest_keeps_pinned(msgs: Seq<MessageModel>, count: nat)
    ensures
        pinned_count(drop_oldest_spec(msgs, count)) == pinned_count(msgs),
        unpinned_count(drop_oldest_spec(msgs, count)) == if unpinned_count(msgs) >= count {
            unpinned_count(msgs) - count
        } else {
            0
        },
        is_subsequence(drop_oldest_spec(msgs, count), msgs),
{
    lemma_rank_select(msgs, |i: int| drop_keeps(msgs, count, i), msgs.len() as int, count as int);
    lemma_take_full(msgs);
    lemma_select_subsequence(msgs, |i: int| drop_keeps(msgs, count, i));
}

/// Clearing the working set keeps exactly the pinned messages, in order.
pub proof fn law_clear_working_keeps_pinned(msgs: Seq<MessageModel>)
    ensures
        pinned_count(clear_working_spec(msgs)) == pinned_count(msgs),
        unpinned_count(clear_working_spec(msgs)) == 0,
        clear_working_spec(msgs).len() == pinned_count(msgs),
        is_subsequence(clear_working_spec(msgs), msgs),
{
    let n = msgs.len() as int;
    let thr = n + 1;
    assert forall|i: int| 0 <= i < n implies (is_pinned(#[trigger] msgs[i]) <==> (is_pinned(msgs[i])
        || unpinned_count(msgs.take(i)) >= thr)) by {
        lemma_count_le_len(msgs.take(i), CompactionPolicy::Pinned);
    }
    lemma_rank_select(msgs, |k: int| is_pinned(msgs[k]), n, thr);
    lemma_take_full(msgs);
    lemma_count_le_len(msgs, CompactionPolicy::Pinned);
    lemma_select_subsequence(msgs, |k: int| is_pinned(msgs[k]));
}

/// The recent-calls window never grows past its size, and its newest entry
/// is the call just recorded.
pub proof fn law_window_bounded(calls: Seq<(Seq<char>, u64)>, call: (Seq<char>, u64), cap: nat)
    requires
        cap >= 1,
        calls.len() <= cap,
    ensures
        windowed(calls, call, cap).len() <= cap,
        windowed(calls, call, cap).len() == if calls.len() + 1 > cap { cap } else { calls.len() + 1 },
        windowed(calls, call, cap).last() == call,
{
}

/// A run of identical calls is never longer than the window.
proof fn lemma_run_le_len(calls: Seq<(Seq<char>, u64)>)
    ensures
        trailing_run(calls) <= calls.len(),
        calls.len() > 0 ==> trailing_run(calls) >= 1,
    decreases calls.len(),
{
    if calls.len() > 1 {
        lemma_run_le_len(calls.drop_last());
    }
}

/// Dropping the oldest entries shortens the final run only down to what is
/// left.
proof fn lemma_run_skip(calls: Seq<(Seq<char>, u64)>, k: int)
    requires
        0 <= k <= calls.len(),
    ensures
        trailing_run(calls.skip(k)) == if trailing_run(calls) <= calls.len() - k {
            trailing_run(calls)
        } else {
            (calls.len() - k) as nat
        },
    decreases calls.len(),
{
    lemma_run_le_len(calls);
    let s = calls.skip(k);
    if s.len() >= 2 {
        assert(s.drop_last() =~= calls.drop_last().skip(k));
        assert(s[s.len() - 2] == calls[calls.len() - 2]);
        assert(s.last() == calls.last());
        lemma_run_skip(calls.drop_last(), k);
    }
}

/// Recording a call extends the final run of identical calls when it repeats
/// the latest call and starts a new run otherwise; the window caps the run.
pub proof fn law_window_run(calls: Seq<(Seq<char>, u64)>, call: (Seq<char>, u64), cap: nat)
    requires
        cap >= 1,
        calls.len() <= cap,
    ensures
        ({
            let extended = if calls.len() > 0 && calls.last() == call { trailing_run(calls) + 1 } else { 1 };
            trailing_run(windowed(calls, call, cap)) == if extended <= cap { extended } else { cap }
        }),
{
    let pushed = calls.push(call);
    assert(pushed.drop_last() =~= calls);
    lemma_run_le_len(calls);
    if pushed.len() > cap {
        lemma_run_skip(pushed, pushed.len() - cap);
    }
}

/// A run that repeats the same call stays stuck: once the final run reaches
/// the repeat limit, recording the same call again keeps it there.
pub proof fn law_repeat_stays_stuck(
    calls: Seq<(Seq<char>, u64)>,
    call: (Seq<char>, u64),
    cap: nat,
    max_repeat: u32,
)
    requires
        cap >= 1,
        calls.len() <= cap,
        max_repeat <= cap,
        calls.len() > 0,
        calls.last() == call,
        is_stuck(calls, Some(max_repeat)),
    ensures
        is_stuck(windowed(calls, call, cap), Some(max_repeat)),
{
    law_window_run(calls, call, cap);
}

/// Input tokens of a list of responses, added up.
pub open spec fn input_total(rs: Seq<ProviderResponse>) -> int
    decreases rs.len(),
{
    if rs.len() == 0 { 0 } else { input_total(rs.drop_last()) + rs.last().usage.input_tokens }
}

/// Output tokens of a list of responses, added up.
pub open spec fn output_total(rs: Seq<ProviderResponse>) -> int
    decreases rs.len(),
{
    if rs.len() == 0 { 0 } else { output_total(rs.drop_last()) + rs.last().usage.output_tokens }
}

/// The cost after these responses of a run whose cost was `c0`: each
/// reported cost added in turn.
pub open spec fn cost_total(c0: Decimal, rs: Seq<ProviderResponse>) -> Decimal
    decreases rs.len(),
{
    if rs.len() == 0 { c0 } else { cost_after(cost_total(c0, rs.drop_last()), rs.last().cost) }
}

/// How one inference turn moves the totals of a run: `begin_turn` counts the
/// turn and `account` adds the response's usage and cost, while the other
/// steps of a turn (results, records, messages) leave the totals as they are.
pub open spec fn turn_totals(a: RunState, r: ProviderResponse, b: RunState) -> bool {
    &&& b.tokens_in == a.tokens_in + r.usage.input_tokens
    &&& b.tokens_out == a.tokens_out + r.usage.output_tokens
    &&& b.cost == cost_after(a.cost, r.cost)
    &&& b.turns_used == a.turns_used + 1
}

/// Over a whole run, the token totals are the sums of the responses' usage,
/// the cost is every reported cost added in turn, and the turns used are the
/// number of responses.
pub proof fn law_run_totals(states: Seq<RunState>, rs: Seq<ProviderResponse>)
    requires
        states.len() == rs.len() + 1,
        forall|k: int| 0 <= k < rs.len() ==> turn_totals(#[trigger] states[k], rs[k], states[k + 1]),
    ensures
        states.last().tokens_in == states[0].tokens_in + input_total(rs),
        states.last().tokens_out == states[0].tokens_out + output_total(rs),
        states.last().cost == cost_total(states[0].cost, rs),
        states.last().turns_used == states[0].turns_used + rs.len(),
    decreases rs.len(),
{
    if rs.len() > 0 {
        let n = rs.len() as int;
        law_run_totals(states.drop_last(), rs.drop_last());
        assert(turn_totals(states[n - 1], rs[n - 1], states[n]));
        assert(states.drop_last().last() == states[n - 1]);
    }
}

} // verus!
