//! The mutable context of an operator invocation: message buffer, metrics,
//! declared intents and registered rules; and its compilation into an
//! inference request.
use crate::effect::Intent;
use crate::infer::{response_message, InferRequest, InferResponse, ToolSchema, copy_schemas};
use crate::json::json_is_null;
use crate::message::{
    copy_messages, is_text_message, sum_tokens, total_tokens, CompactionPolicy, Content, Message,
    MessageModel, Role, lemma_single_text,
};
use crate::money::{decimal_add, decimal_checked_sum, sum_facts, decimal_mantissa, decimal_scale, decimal_zero};
use crate::rules::Rule;
use rust_decimal::Decimal;
use serde_json::Value;
use vstd::prelude::*;

verus! {

/// Accumulated metrics of one operator invocation.
#[derive(Debug, Clone)]
pub struct TurnMetrics {
    /// Input tokens consumed so far.
    pub tokens_in: u64,
    /// Output tokens consumed so far.
    pub tokens_out: u64,
    /// Cumulative cost.
    pub cost: Decimal,
    /// Completed inference turns.
    pub turns_completed: u32,
    /// Tool calls dispatched.
    pub tool_calls_total: u32,
    /// Tool calls that returned an error.
    pub tool_calls_failed: u32,
}

impl TurnMetrics {
    /// Fresh metrics: all counters zero, cost zero.
    pub fn new() -> (r: TurnMetrics)
        ensures
            r.tokens_in == 0,
            r.tokens_out == 0,
            decimal_mantissa(r.cost) == 0,
            r.turns_completed == 0,
            r.tool_calls_total == 0,
            r.tool_calls_failed == 0,
    {
        TurnMetrics {
            tokens_in: 0,
            tokens_out: 0,
            cost: decimal_zero(),
            turns_completed: 0,
            tool_calls_total: 0,
            tool_calls_failed: 0,
        }
    }

    /// Total tokens, input plus output.
    pub fn total_tokens(&self) -> (r: u64)
        requires
            self.tokens_in + self.tokens_out <= u64::MAX,
        ensures
            r == self.tokens_in + self.tokens_out,
    {
        self.tokens_in + self.tokens_out
    }
}

/// The mutable substrate of an agent run: messages, metrics, intents, rules.
pub struct Context {
    /// The message buffer: what is compiled and sent to the model.
    pub messages: Vec<Message>,
    /// Accumulated metrics.
    pub metrics: TurnMetrics,
    /// Intents declared during this invocation.
    pub intents: Vec<Intent>,
    /// Rules that fire around context operations.
    pub rules: Vec<Rule>,
}

/// Whether `after` is `before` with `prompt` as its system prompt: a leading
/// system message is replaced, otherwise one is inserted at the front.
pub open spec fn system_injected(
    before: Seq<MessageModel>,
    after: Seq<MessageModel>,
    prompt: Seq<char>,
) -> bool {
    &&& after.len() > 0
    &&& is_text_message(after[0], Role::System, prompt, CompactionPolicy::Normal)
    &&& if before.len() > 0 && before[0].role is System {
        after.skip(1) == before.skip(1)
    } else {
        after.skip(1) == before
    }
}

impl Context {
    /// The message buffer, as models.
    pub open spec fn messages_model(&self) -> Seq<MessageModel> {
        self.messages.deep_view()
    }

    /// The declared intents.
    pub open spec fn intents_model(&self) -> Seq<Intent> {
        self.intents@
    }

    /// The registered rules.
    pub open spec fn rules_model(&self) -> Seq<Rule> {
        self.rules@
    }

    /// An empty context: no messages, no intents, no rules, zero metrics.
    pub fn new() -> (r: Context)
        ensures
            r.messages_model().len() == 0,
            r.intents_model().len() == 0,
            r.rules_model().len() == 0,
            r.metrics.tokens_in == 0,
            r.metrics.tokens_out == 0,
            decimal_mantissa(r.metrics.cost) == 0,
            r.metrics.turns_completed == 0,
            r.metrics.tool_calls_total == 0,
            r.metrics.tool_calls_failed == 0,
    {
        Context { messages: Vec::new(), metrics: TurnMetrics::new(), intents: Vec::new(), rules: Vec::new() }
    }

    /// The message buffer (read-only).
    pub fn messages(&self) -> (r: &[Message])
        ensures
            r.deep_view() == self.messages_model(),
    {
        self.messages.as_slice()
    }

    /// Estimated token count of all messages.
    pub fn token_count(&self) -> (r: usize)
        requires
            total_tokens(self.messages_model()) <= usize::MAX,
        ensures
            r == total_tokens(self.messages_model()),
    {
        sum_tokens(self.messages.as_slice())
    }

    /// Append a message.
    pub fn push_message(&mut self, msg: Message)
        ensures
            final(self).messages_model() == old(self).messages_model().push(msg.deep_view()),
            final(self).metrics == old(self).metrics,
            final(self).intents_model() == old(self).intents_model(),
            final(self).rules_model() == old(self).rules_model(),
    {
        let ghost before = self.messages.deep_view();
        self.messages.push(msg);
        assert(self.messages.deep_view() =~= before.push(msg.deep_view()));
    }

    /// Insert a message at `index` (at most the current length).
    pub fn insert_message(&mut self, index: usize, msg: Message)
        requires
            index <= old(self).messages_model().len(),
        ensures
            final(self).messages_model() == old(self).messages_model().insert(
                index as int,
                msg.deep_view(),
            ),
            final(self).metrics == old(self).metrics,
            final(self).intents_model() == old(self).intents_model(),
            final(self).rules_model() == old(self).rules_model(),
    {
        let ghost before = self.messages.deep_view();
        self.messages.insert(index, msg);
        assert(self.messages.deep_view() =~= before.insert(index as int, msg.deep_view()));
    }

    /// Replace the message at `index` (below the current length).
    pub fn replace_message(&mut self, index: usize, msg: Message)
        requires
            index < old(self).messages_model().len(),
        ensures
            final(self).messages_model() == old(self).messages_model().update(
                index as int,
                msg.deep_view(),
            ),
            final(self).metrics == old(self).metrics,
            final(self).intents_model() == old(self).intents_model(),
            final(self).rules_model() == old(self).rules_model(),
    {
        let ghost before = self.messages.deep_view();
        self.messages.set(index, msg);
        assert(self.messages.deep_view() =~= before.update(index as int, msg.deep_view()));
    }

    /// Replace the whole message buffer.
    pub fn set_messages(&mut self, messages: Vec<Message>)
        ensures
            final(self).messages_model() == messages.deep_view(),
            final(self).metrics == old(self).metrics,
            final(self).intents_model() == old(self).intents_model(),
            final(self).rules_model() == old(self).rules_model(),
    {
        self.messages = messages;
    }

    /// Append several messages, in order.
    pub fn extend_messages(&mut self, msgs: Vec<Message>)
        ensures
            final(self).messages_model() == old(self).messages_model() + msgs.deep_view(),
            final(self).metrics == old(self).metrics,
            final(self).intents_model() == old(self).intents_model(),
            final(self).rules_model() == old(self).rules_model(),
    {
        let ghost start = self.messages.deep_view();
        let mut rest = msgs;
        self.messages.append(&mut rest);
        assert(self.messages.deep_view() =~= start + msgs.deep_view());
    }

    /// Set the system prompt: a leading system message is replaced, otherwise
    /// a new one is inserted at the front.
    pub fn inject_system(&mut self, prompt: &str)
        ensures
            system_injected(old(self).messages_model(), final(self).messages_model(), prompt@),
            final(self).metrics == old(self).metrics,
            final(self).intents_model() == old(self).intents_model(),
            final(self).rules_model() == old(self).rules_model(),
    {
        let system_msg = Message::new(Role::System, Content::text(prompt));
        let ghost before = self.messages.deep_view();
        let has_system = self.messages.len() > 0 && self.messages[0].role.is_system_role();
        if has_system {
            self.replace_message(0, system_msg);
            assert(self.messages_model().skip(1) =~= before.skip(1));
        } else {
            self.insert_message(0, system_msg);
            assert(self.messages_model().skip(1) =~= before);
        }
    }

    /// Append a message (alias of [`Context::push_message`]).
    pub fn inject_message(&mut self, msg: Message)
        ensures
            final(self).messages_model() == old(self).messages_model().push(msg.deep_view()),
            final(self).metrics == old(self).metrics,
            final(self).intents_model() == old(self).intents_model(),
            final(self).rules_model() == old(self).rules_model(),
    {
        self.push_message(msg);
    }

    /// Append several messages (alias of [`Context::extend_messages`]).
    pub fn inject_messages(&mut self, msgs: Vec<Message>)
        ensures
            final(self).messages_model() == old(self).messages_model() + msgs.deep_view(),
            final(self).metrics == old(self).metrics,
            final(self).intents_model() == old(self).intents_model(),
            final(self).rules_model() == old(self).rules_model(),
    {
        self.extend_messages(msgs);
    }

    /// Append a response as an assistant message and add its usage and cost
    /// to the metrics.
    pub fn append_response(&mut self, response: &InferResponse)
        requires
            old(self).metrics.tokens_in + response.usage.input_tokens <= u64::MAX,
            old(self).metrics.tokens_out + response.usage.output_tokens <= u64::MAX,
            response.cost matches Some(c) ==> decimal_checked_sum(old(self).metrics.cost, c) is Some,
        ensures
            final(self).messages_model() == old(self).messages_model().push(
                response_message(*response),
            ),
            final(self).metrics.tokens_in == old(self).metrics.tokens_in + response.usage.input_tokens,
            final(self).metrics.tokens_out == old(self).metrics.tokens_out
                + response.usage.output_tokens,
            final(self).metrics.cost == match response.cost {
                Some(c) => decimal_checked_sum(old(self).metrics.cost, c).unwrap(),
                None => old(self).metrics.cost,
            },
            response.cost matches Some(c) ==> sum_facts(old(self).metrics.cost, c, Some(final(self).metrics.cost)),
            final(self).metrics.turns_completed == old(self).metrics.turns_completed,
            final(self).metrics.tool_calls_total == old(self).metrics.tool_calls_total,
            final(self).metrics.tool_calls_failed == old(self).metrics.tool_calls_failed,
            final(self).intents_model() == old(self).intents_model(),
            final(self).rules_model() == old(self).rules_model(),
    {
        self.push_message(response.to_message());
        self.metrics.tokens_in = self.metrics.tokens_in + response.usage.input_tokens;
        self.metrics.tokens_out = self.metrics.tokens_out + response.usage.output_tokens;
        match &response.cost {
            Some(c) => {
                let sum = decimal_add(&self.metrics.cost, c);
                self.metrics.cost = sum.unwrap();
            },
            None => {},
        }
    }

    /// Append a response when its usage and cost can be added to the
    /// metrics without overflow; otherwise leave the context unchanged.
    /// Returns whether the response was appended.
    pub fn try_append_response(&mut self, response: &InferResponse) -> (r: bool)
        ensures
            r == (old(self).metrics.tokens_in + response.usage.input_tokens <= u64::MAX
                && old(self).metrics.tokens_out + response.usage.output_tokens <= u64::MAX
                && (response.cost matches Some(c) ==> decimal_checked_sum(old(self).metrics.cost, c) is Some)),
            !r ==> *final(self) == *old(self),
            r ==> final(self).messages_model() == old(self).messages_model().push(response_message(*response)),
            r ==> final(self).metrics.tokens_in == old(self).metrics.tokens_in + response.usage.input_tokens,
            r ==> final(self).metrics.tokens_out == old(self).metrics.tokens_out + response.usage.output_tokens,
            r ==> final(self).metrics.cost == match response.cost {
                Some(c) => decimal_checked_sum(old(self).metrics.cost, c).unwrap(),
                None => old(self).metrics.cost,
            },
            r ==> (response.cost matches Some(c) ==> sum_facts(old(self).metrics.cost, c, Some(final(self).metrics.cost))),
            r ==> final(self).metrics.turns_completed == old(self).metrics.turns_completed,
            r ==> final(self).metrics.tool_calls_total == old(self).metrics.tool_calls_total,
            r ==> final(self).metrics.tool_calls_failed == old(self).metrics.tool_calls_failed,
            r ==> final(self).intents_model() == old(self).intents_model(),
            r ==> final(self).rules_model() == old(self).rules_model(),
    {
        if self.metrics.tokens_in.checked_add(response.usage.input_tokens).is_none() {
            return false;
        }
        if self.metrics.tokens_out.checked_add(response.usage.output_tokens).is_none() {
            return false;
        }
        match &response.cost {
            Some(c) => {
                if decimal_add(&self.metrics.cost, c).is_none() {
                    return false;
                }
            },
            None => {},
        }
        self.append_response(response);
        true
    }

    /// Count a completed inference turn.
    pub fn count_turn(&mut self)
        requires
            old(self).metrics.turns_completed < u32::MAX,
        ensures
            final(self).metrics == (TurnMetrics {
                turns_completed: (old(self).metrics.turns_completed + 1) as u32,
                ..old(self).metrics
            }),
            final(self).messages_model() == old(self).messages_model(),
            final(self).intents_model() == old(self).intents_model(),
            final(self).rules_model() == old(self).rules_model(),
    {
        self.metrics.turns_completed = self.metrics.turns_completed + 1;
    }

    /// Declare an intent.
    pub fn push_intent(&mut self, intent: Intent)
        ensures
            final(self).intents_model() == old(self).intents_model().push(intent),
            final(self).messages_model() == old(self).messages_model(),
            final(self).metrics == old(self).metrics,
            final(self).rules_model() == old(self).rules_model(),
    {
        self.intents.push(intent);
    }

    /// Declare several intents, in order.
    pub fn extend_intents(&mut self, intents: Vec<Intent>)
        ensures
            final(self).intents_model() == old(self).intents_model() + intents@,
            final(self).messages_model() == old(self).messages_model(),
            final(self).metrics == old(self).metrics,
            final(self).rules_model() == old(self).rules_model(),
    {
        let mut rest = intents;
        let mut moved = Vec::new();
        moved.append(&mut rest);
        self.intents.append(&mut moved);
    }

    /// The declared intents (read-only).
    pub fn intents(&self) -> (r: &[Intent])
        ensures
            r@ == self.intents_model(),
    {
        self.intents.as_slice()
    }

    /// Take all declared intents out of the context.
    pub fn drain_intents(&mut self) -> (r: Vec<Intent>)
        ensures
            r@ == old(self).intents_model(),
            final(self).intents_model().len() == 0,
            final(self).messages_model() == old(self).messages_model(),
            final(self).metrics == old(self).metrics,
            final(self).rules_model() == old(self).rules_model(),
    {
        let mut taken = Vec::new();
        taken.append(&mut self.intents);
        taken
    }

    /// Register a rule.
    pub fn add_rule(&mut self, rule: Rule)
        ensures
            final(self).rules_model() == old(self).rules_model().push(rule),
            final(self).messages_model() == old(self).messages_model(),
            final(self).metrics == old(self).metrics,
            final(self).intents_model() == old(self).intents_model(),
    {
        self.rules.push(rule);
    }

    /// Number of registered rules.
    pub fn rule_count(&self) -> (r: usize)
        ensures
            r == self.rules_model().len(),
    {
        self.rules.len()
    }

    /// Number of declared intents.
    pub fn intent_count(&self) -> (r: usize)
        ensures
            r == self.intents_model().len(),
    {
        self.intents.len()
    }

    /// Number of messages.
    pub fn message_count(&self) -> (r: usize)
        ensures
            r == self.messages_model().len(),
    {
        self.messages.len()
    }
}

/// Configuration for compiling a context into an inference request.
#[derive(Debug, Clone)]
pub struct CompileConfig {
    /// System prompt.
    pub system: Option<String>,
    /// Model override.
    pub model: Option<String>,
    /// Maximum output tokens.
    pub max_tokens: Option<u32>,
    /// Tools offered to the model.
    pub tools: Vec<ToolSchema>,
    /// Provider-specific passthrough (`null` when unset).
    pub extra: Value,
}

/// A context snapshot compiled for inference.
#[derive(Debug, Clone)]
pub struct CompiledContext {
    /// The request to send.
    pub request: InferRequest,
}

/// The result of an inference call.
#[derive(Debug, Clone)]
pub struct InferResult {
    /// The raw response.
    pub response: InferResponse,
}

impl InferResult {
    /// Whether the model asked for tools.
    pub fn has_tool_calls(&self) -> (r: bool)
        ensures
            r == (self.response.tool_calls@.len() > 0),
    {
        self.response.has_tool_calls()
    }
}

impl Context {
    /// Snapshot the context into an inference request: the messages are
    /// copied and the configured system prompt, model, token limit, tools and
    /// passthrough are attached. The context itself is not changed.
    pub fn compile(&self, config: &CompileConfig) -> (r: CompiledContext)
        ensures
            r.request.messages.deep_view() == self.messages_model(),
            r.request.system == config.system,
            r.request.model == config.model,
            r.request.max_tokens == config.max_tokens,
            r.request.tools@ == config.tools@,
            r.request.extra == config.extra,
    {
        let mut request = InferRequest::new(copy_messages(self.messages.as_slice()));
        request.system = config.system.clone();
        request.model = config.model.clone();
        request.max_tokens = config.max_tokens;
        if config.tools.len() > 0 {
            request.tools = copy_schemas(&config.tools);
        }
        request.extra = config.extra.clone();
        CompiledContext { request }
    }
}

/// Injecting a system prompt twice is the same as injecting the second one
/// once: the later prompt replaces the earlier.
pub proof fn law_inject_system_replaces(
    a: Seq<MessageModel>,
    b: Seq<MessageModel>,
    c: Seq<MessageModel>,
    p1: Seq<char>,
    p2: Seq<char>,
)
    requires
        system_injected(a, b, p1),
        system_injected(b, c, p2),
    ensures
        system_injected(a, c, p2),
{
    assert(b[0].role is System);
    if a.len() > 0 && a[0].role is System {
    } else {
    }
}

impl Default for TurnMetrics {
    fn default() -> (r: TurnMetrics)
        ensures
            r.tokens_in == 0,
            r.tokens_out == 0,
            decimal_mantissa(r.cost) == 0,
            r.turns_completed == 0,
            r.tool_calls_total == 0,
            r.tool_calls_failed == 0,
    {
        TurnMetrics::new()
    }
}

impl Default for Context {
    fn default() -> (r: Context)
        ensures
            r.messages_model().len() == 0,
            r.intents_model().len() == 0,
            r.rules_model().len() == 0,
            r.metrics.tokens_in == 0,
            r.metrics.tokens_out == 0,
            decimal_mantissa(r.metrics.cost) == 0,
            r.metrics.turns_completed == 0,
            r.metrics.tool_calls_total == 0,
            r.metrics.tool_calls_failed == 0,
    {
        Context::new()
    }
}

impl Default for CompileConfig {
    /// No system prompt, model, token limit or tools; `null` passthrough.
    fn default() -> (r: CompileConfig)
        ensures
            r.system is None,
            r.model is None,
            r.max_tokens is None,
            r.tools@.len() == 0,
            crate::json::json_is_null(r.extra),
    {
        CompileConfig { system: None, model: None, max_tokens: None, tools: Vec::new(), extra: crate::json::json_null() }
    }
}

/// Typed boundary for a provider inference call, a target for rules that
/// govern inference.
#[derive(Debug, Clone, Copy, Default)]
pub struct InferBoundary;

/// Typed boundary for a streaming provider inference call.
#[derive(Debug, Clone, Copy, Default)]
pub struct StreamInferBoundary;

/// Message counts before and after a compaction.
#[derive(Debug, Clone, Copy, PartialEq, Eq)]
pub struct CompactResult {
    /// Messages before.
    pub before: usize,
    /// Messages after.
    pub after: usize,
}

impl Context {
    /// Replace the messages by their compacted form (as a compaction
    /// strategy produced it) and report the counts.
    pub fn compact_to(&mut self, compacted: Vec<Message>) -> (r: CompactResult)
        ensures
            r.before == old(self).messages_model().len(),
            r.after == compacted@.len(),
            final(self).messages_model() == compacted.deep_view(),
            final(self).metrics == old(self).metrics,
            final(self).intents_model() == old(self).intents_model(),
            final(self).rules_model() == old(self).rules_model(),
    {
        let before = self.messages.len();
        let after = compacted.len();
        self.set_messages(compacted);
        CompactResult { before, after }
    }
}

/// Set the system prompt: replace a leading system message, or insert one.
#[derive(Debug, Clone, PartialEq, Eq)]
pub struct InjectSystem {
    /// The prompt.
    pub prompt: String,
}

/// Append one message.
#[derive(Debug, Clone, PartialEq)]
pub struct InjectMessage {
    /// The message.
    pub message: Message,
}

/// Append several messages.
#[derive(Debug, Clone, PartialEq)]
pub struct InjectMessages {
    /// The messages, in order.
    pub messages: Vec<Message>,
}

/// Record a model response: its message and its usage.
#[derive(Debug, Clone)]
pub struct AppendResponse {
    /// The response.
    pub response: InferResponse,
}

impl InjectSystem {
    /// Apply to a context.
    pub fn execute(&self, ctx: &mut Context)
        ensures
            system_injected(old(ctx).messages_model(), final(ctx).messages_model(), self.prompt@),
            final(ctx).metrics == old(ctx).metrics,
            final(ctx).intents_model() == old(ctx).intents_model(),
    {
        ctx.inject_system(self.prompt.as_str());
    }
}

impl InjectMessage {
    /// Apply to a context.
    pub fn execute(&self, ctx: &mut Context)
        ensures
            final(ctx).messages_model() == old(ctx).messages_model().push(self.message.deep_view()),
            final(ctx).metrics == old(ctx).metrics,
            final(ctx).intents_model() == old(ctx).intents_model(),
    {
        ctx.push_message(self.message.duplicate());
    }
}

impl InjectMessages {
    /// Apply to a context.
    pub fn execute(&self, ctx: &mut Context)
        ensures
            final(ctx).messages_model() == old(ctx).messages_model() + self.messages.deep_view(),
            final(ctx).metrics == old(ctx).metrics,
            final(ctx).intents_model() == old(ctx).intents_model(),
    {
        let copy = crate::message::copy_messages(self.messages.as_slice());
        ctx.extend_messages(copy);
    }
}

impl AppendResponse {
    /// A response to record.
    pub fn new(response: InferResponse) -> (r: AppendResponse)
        ensures
            r.response == response,
    {
        AppendResponse { response }
    }

    /// Apply to a context: the response's message is appended and its token
    /// usage and cost are added to the metrics.
    pub fn execute(&self, ctx: &mut Context)
        requires
            old(ctx).metrics.tokens_in + self.response.usage.input_tokens <= u64::MAX,
            old(ctx).metrics.tokens_out + self.response.usage.output_tokens <= u64::MAX,
            self.response.cost matches Some(c) ==> decimal_checked_sum(old(ctx).metrics.cost, c) is Some,
        ensures
            final(ctx).messages_model() == old(ctx).messages_model().push(response_message(self.response)),
            final(ctx).metrics.tokens_in == old(ctx).metrics.tokens_in + self.response.usage.input_tokens,
            final(ctx).metrics.tokens_out == old(ctx).metrics.tokens_out + self.response.usage.output_tokens,
            final(ctx).metrics.cost == match self.response.cost {
                Some(c) => decimal_checked_sum(old(ctx).metrics.cost, c).unwrap(),
                None => old(ctx).metrics.cost,
            },
            self.response.cost matches Some(c) ==> sum_facts(old(ctx).metrics.cost, c, Some(final(ctx).metrics.cost)),
    {
        ctx.append_response(&self.response);
    }

    /// Apply to a context when the usage and cost can be added to its
    /// metrics without overflow; otherwise leave the context unchanged.
    /// Returns whether the response was appended.
    pub fn try_execute(&self, ctx: &mut Context) -> (r: bool)
        ensures
            r == (old(ctx).metrics.tokens_in + self.response.usage.input_tokens <= u64::MAX
                && old(ctx).metrics.tokens_out + self.response.usage.output_tokens <= u64::MAX
                && (self.response.cost matches Some(c) ==> decimal_checked_sum(old(ctx).metrics.cost, c) is Some)),
            !r ==> *final(ctx) == *old(ctx),
            r ==> final(ctx).messages_model() == old(ctx).messages_model().push(response_message(self.response)),
            r ==> final(ctx).metrics.tokens_in == old(ctx).metrics.tokens_in + self.response.usage.input_tokens,
            r ==> final(ctx).metrics.tokens_out == old(ctx).metrics.tokens_out + self.response.usage.output_tokens,
            r ==> final(ctx).metrics.cost == match self.response.cost {
                Some(c) => decimal_checked_sum(old(ctx).metrics.cost, c).unwrap(),
                None => old(ctx).metrics.cost,
            },
            r ==> (self.response.cost matches Some(c) ==> sum_facts(old(ctx).metrics.cost, c, Some(final(ctx).metrics.cost))),
            r ==> final(ctx).metrics.turns_completed == old(ctx).metrics.turns_completed,
            r ==> final(ctx).metrics.tool_calls_total == old(ctx).metrics.tool_calls_total,
            r ==> final(ctx).metrics.tool_calls_failed == old(ctx).metrics.tool_calls_failed,
            r ==> final(ctx).intents_model() == old(ctx).intents_model(),
            r ==> final(ctx).rules_model() == old(ctx).rules_model(),
    {
        ctx.try_append_response(&self.response)
    }
}

} // verus!
