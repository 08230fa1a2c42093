//! Decisions of the ReAct loop composed from context primitives: what to
//! compile, when the model is done, which tools wait for approval, what a
//! tool's failure reads as, and how structured output is retried.
use crate::context::{CompileConfig, Context, TurnMetrics};
use crate::effect::{Effect, Intent};
use crate::error::{engine_error_text, EngineError};
use crate::infer::{InferResponse, StopReason, ToolCall, ToolSchema};
use crate::json::{json_is_null, json_null};
use crate::message::{CompactionPolicy, Content, ContentPart, Message, Role, is_text_message};
use crate::operator::{ExitReason, OperatorMetadata, OperatorOutput};
use crate::output::{first_call_named, is_first_call_named, is_result_tool, OutputError, OutputMode, OutputSchema};
use crate::text::{decimal_digits, same_text, u64_text};
use crate::react::{contains_name, keep_named, names_of, offered_tools};
use crate::rules::BudgetGuardConfig;
use crate::context::system_injected;
use crate::message::MessageModel;
use serde_json::Value;
use vstd::prelude::*;

verus! {

/// Configuration of the loop (the sampling temperature, a float, and the
/// per-turn tool filter, a callback, are kept by the runtime).
#[derive(Debug, Clone, PartialEq, Eq)]
pub struct ReactLoopConfig {
    /// System prompt.
    pub system_prompt: String,
    /// Model to use.
    pub model: Option<String>,
    /// Max output tokens per inference call.
    pub max_tokens: Option<u32>,
}

impl ReactLoopConfig {
    /// The compile configuration for a turn, offering these tools.
    pub fn compile_config(&self, tools: Vec<ToolSchema>) -> (r: CompileConfig)
        ensures
            r.system matches Some(s) && s@ == self.system_prompt@,
            r.model == self.model,
            r.max_tokens == self.max_tokens,
            r.tools == tools,
            json_is_null(r.extra),
    {
        CompileConfig {
            system: Some(self.system_prompt.clone()),
            model: self.model.clone(),
            max_tokens: self.max_tokens,
            tools,
            extra: json_null(),
        }
    }
}

/// What the loop does after a response has been appended.
pub enum LoopStep {
    /// The model is done; end with this reason.
    Finish(ExitReason),
    /// Some calls need approval: declare these effects and wait.
    AwaitApproval(Vec<Effect>),
    /// Dispatch every call.
    Dispatch,
}

/// Whether `e` is the approval request for a call.
pub open spec fn is_approval_for(e: Effect, call: ToolCall) -> bool {
    e matches Effect::ToolApprovalRequired { tool_name, call_id, input } && tool_name@ == call.name@
        && call_id@ == call.id@ && input == call.input
}

/// Indices of the calls that need approval, skipping calls named `skip`.
pub open spec fn approval_indices(calls: Seq<ToolCall>, flags: Seq<bool>, skip: Option<Seq<char>>, n: int) -> Seq<int>
    decreases n,
{
    if n <= 0 {
        Seq::empty()
    } else {
        let rest = approval_indices(calls, flags, skip, n - 1);
        let skipped = match skip {
            Some(s) => calls[n - 1].name@ == s,
            None => false,
        };
        if flags[n - 1] && !skipped {
            rest.push(n - 1)
        } else {
            rest
        }
    }
}

/// Whether `effects` are the approval requests for the given calls, in order.
pub open spec fn are_approvals(effects: Seq<Effect>, calls: Seq<ToolCall>, idx: Seq<int>) -> bool {
    &&& effects.len() == idx.len()
    &&& forall|k: int| 0 <= k < idx.len() ==> is_approval_for(#[trigger] effects[k], calls[idx[k]])
}

/// The approval requests for the flagged calls, skipping those named `skip`.
pub fn approval_requests(calls: &Vec<ToolCall>, flags: &Vec<bool>, skip: Option<&str>) -> (r: Vec<Effect>)
    requires
        flags@.len() == calls@.len(),
    ensures
        are_approvals(
            r@,
            calls@,
            approval_indices(
                calls@,
                flags@,
                match skip {
                    Some(s) => Some(s@),
                    None => None,
                },
                calls@.len() as int,
            ),
        ),
{
    let ghost sk = match skip {
        Some(s) => Some(s@),
        None => None,
    };
    let mut out: Vec<Effect> = Vec::new();
    let n = calls.len();
    for i in 0..n
        invariant
            n == calls@.len(),
            n == flags@.len(),
            sk == match skip {
                Some(s) => Some(s@),
                None => None::<Seq<char>>,
            },
            are_approvals(out@, calls@, approval_indices(calls@, flags@, sk, i as int)),
    {
        let skipped = match skip {
            Some(s) => same_text(calls[i].name.as_str(), s),
            None => false,
        };
        if flags[i] && !skipped {
            let c = &calls[i];
            out.push(
                Effect::ToolApprovalRequired {
                    tool_name: c.name.clone(),
                    call_id: c.id.clone(),
                    input: c.input.clone(),
                },
            );
        }
    }
    out
}

/// The exit reason of a response that asks for no tools: a content filter
/// is a safety stop, anything else completes.
pub open spec fn is_done_exit(reason: StopReason, e: ExitReason) -> bool {
    match reason {
        StopReason::ContentFilter => e matches ExitReason::SafetyStop { reason } && reason@
            == "content filter triggered"@,
        _ => e == ExitReason::Complete,
    }
}

/// The exit reason of a response that asks for no tools.
pub fn done_exit(reason: StopReason) -> (r: ExitReason)
    ensures
        is_done_exit(reason, r),
{
    match reason {
        StopReason::ContentFilter => ExitReason::SafetyStop {
            reason: String::from_str("content filter triggered"),
        },
        _ => ExitReason::Complete,
    }
}

/// What follows a response: without tool calls the model is done (a
/// content filter is a safety stop, anything else completes); when calls of
/// tools that require approval (flagged one per call) are among them, the
/// loop waits for their approval requests; otherwise every call is dispatched.
pub open spec fn is_after_response(response: InferResponse, needs_approval: Seq<bool>, r: LoopStep) -> bool {
    &&& response.tool_calls@.len() == 0 ==> (r matches LoopStep::Finish(e) && is_done_exit(response.stop_reason, e))
    &&& response.tool_calls@.len() > 0 ==> {
        let idx = approval_indices(response.tool_calls@, needs_approval, None, response.tool_calls@.len() as int);
        if idx.len() > 0 {
            r matches LoopStep::AwaitApproval(effects) && are_approvals(effects@, response.tool_calls@, idx)
        } else {
            r is Dispatch
        }
    }
}

/// The calls picked for approval are flagged calls, in range, and some call
/// is picked exactly when some call is flagged.
proof fn lemma_approval_indices(calls: Seq<ToolCall>, flags: Seq<bool>, n: int)
    requires
        0 <= n <= flags.len(),
    ensures
        approval_indices(calls, flags, None, n).len() > 0 <==> exists|i: int| 0 <= i < n && #[trigger] flags[i],
        forall|k: int|
            0 <= k < approval_indices(calls, flags, None, n).len() ==> 0 <= #[trigger] approval_indices(
                calls,
                flags,
                None,
                n,
            )[k] < n && flags[approval_indices(calls, flags, None, n)[k]],
    decreases n,
{
    if n > 0 {
        lemma_approval_indices(calls, flags, n - 1);
        if !flags[n - 1] {
            assert forall|i: int| 0 <= i < n && #[trigger] flags[i] implies 0 <= i < n - 1 && flags[i] by {}
        }
    }
}

/// What a response leads to: the model is done exactly when it asked for no
/// tools, and then only a content filter makes it a safety stop; it waits for
/// approval exactly when some requested tool needs approval; otherwise every
/// call is dispatched.
pub proof fn law_after_response(response: InferResponse, needs_approval: Seq<bool>, r: LoopStep)
    requires
        is_after_response(response, needs_approval, r),
        needs_approval.len() == response.tool_calls@.len(),
    ensures
        r is Finish <==> response.tool_calls@.len() == 0,
        r matches LoopStep::Finish(e) ==> ((e is SafetyStop <==> response.stop_reason == StopReason::ContentFilter)
            && (e is SafetyStop || e == ExitReason::Complete)),
        r is AwaitApproval <==> (response.tool_calls@.len() > 0 && exists|i: int|
            0 <= i < needs_approval.len() && #[trigger] needs_approval[i]),
        r is Dispatch <==> (response.tool_calls@.len() > 0 && forall|i: int|
            0 <= i < needs_approval.len() ==> !#[trigger] needs_approval[i]),
{
    let calls = response.tool_calls@;
    lemma_approval_indices(calls, needs_approval, calls.len() as int);
}

/// Close a provider call of the loop, once its response has been appended
/// and the rules have fired: the inference counts as a completed turn, and
/// the response decides what follows.
pub fn close_call(ctx: &mut Context, response: &InferResponse, needs_approval: &Vec<bool>) -> (r: LoopStep)
    requires
        old(ctx).metrics.turns_completed < u32::MAX,
        needs_approval@.len() == response.tool_calls@.len(),
    ensures
        is_after_response(*response, needs_approval@, r),
        final(ctx).metrics == (TurnMetrics {
            turns_completed: (old(ctx).metrics.turns_completed + 1) as u32,
            ..old(ctx).metrics
        }),
        final(ctx).messages_model() == old(ctx).messages_model(),
        final(ctx).intents_model() == old(ctx).intents_model(),
        final(ctx).rules_model() == old(ctx).rules_model(),
{
    ctx.count_turn();
    after_response(response, needs_approval)
}

/// How many of a loop's steps were provider calls.
pub open spec fn calls_closed(closed: Seq<bool>) -> nat
    decreases closed.len(),
{
    if closed.len() == 0 {
        0
    } else {
        calls_closed(closed.drop_last()) + if closed.last() { 1nat } else { 0nat }
    }
}

/// Over a loop, the turns completed grow by the provider calls closed: each
/// `close_call` counts one, and the loop's other operations (appending
/// responses, firing rules, executing tools, injecting results) leave the
/// count as it is.
pub proof fn law_loop_turns(ms: Seq<TurnMetrics>, closed: Seq<bool>)
    requires
        ms.len() == closed.len() + 1,
        forall|k: int|
            0 <= k < closed.len() ==> (#[trigger] ms[k + 1]).turns_completed == ms[k].turns_completed + if closed[k] {
                1int
            } else {
                0int
            },
    ensures
        ms.last().turns_completed == ms[0].turns_completed + calls_closed(closed),
    decreases closed.len(),
{
    if closed.len() > 0 {
        let n = closed.len() as int;
        let pm = ms.drop_last();
        let pc = closed.drop_last();
        assert forall|k: int| 0 <= k < pc.len() implies (#[trigger] pm[k + 1]).turns_completed == pm[k].turns_completed
            + if pc[k] { 1int } else { 0int } by {
            assert(ms[k + 1].turns_completed == ms[k].turns_completed + if closed[k] { 1int } else { 0int });
        }
        law_loop_turns(pm, pc);
        assert(ms[n].turns_completed == ms[n - 1].turns_completed + if closed[n - 1] { 1int } else { 0int });
    }
}

/// What follows a response: without tool calls the model is done; when a
/// call of a tool that requires approval is among them (flagged by the
/// caller, one flag per call), the approvals are requested and the loop
/// waits; otherwise every call is dispatched.
pub fn after_response(response: &InferResponse, needs_approval: &Vec<bool>) -> (r: LoopStep)
    requires
        needs_approval@.len() == response.tool_calls@.len(),
    ensures
        is_after_response(*response, needs_approval@, r),
{
    if !response.has_tool_calls() {
        return LoopStep::Finish(done_exit(response.stop_reason));
    }
    let effects = approval_requests(&response.tool_calls, needs_approval, None);
    if effects.len() > 0 {
        LoopStep::AwaitApproval(effects)
    } else {
        LoopStep::Dispatch
    }
}

/// The text a tool call contributes: its result, or `Error: ` and the
/// error's text.
pub open spec fn tool_result_spec(r: Result<String, EngineError>) -> Seq<char> {
    match r {
        Ok(s) => s@,
        Err(e) => "Error: "@ + engine_error_text(e),
    }
}

/// The text a tool call contributes.
pub fn tool_result_text(r: Result<String, EngineError>) -> (t: String)
    ensures
        t@ == tool_result_spec(r),
{
    proof {
        reveal_strlit("Error: ");
    }
    match r {
        Ok(s) => s,
        Err(e) => String::from_str("Error: ").concat(e.to_text().as_str()),
    }
}

/// The effects of a list of intents.
pub open spec fn intent_effects(intents: Seq<Intent>) -> Seq<Effect> {
    intents.map_values(|i: Intent| i.kind)
}

/// The output of the loop: the response content and exit reason with the
/// context's totals, its turn count, the elapsed time and its declared
/// effects.
pub fn make_output(content: Content, exit: ExitReason, ctx: &Context, elapsed_ms: u64) -> (r: OperatorOutput)
    ensures
        r.message == content,
        r.exit_reason == exit,
        r.metadata.tokens_in == ctx.metrics.tokens_in,
        r.metadata.tokens_out == ctx.metrics.tokens_out,
        r.metadata.cost == ctx.metrics.cost,
        r.metadata.turns_used == ctx.metrics.turns_completed,
        r.metadata.sub_dispatches@.len() == 0,
        r.metadata.duration_ms == elapsed_ms,
        r.effects@ == intent_effects(ctx.intents@),
{
    let mut effects: Vec<Effect> = Vec::new();
    let n = ctx.intents.len();
    for i in 0..n
        invariant
            n == ctx.intents@.len(),
            effects@ == intent_effects(ctx.intents@.take(i as int)),
    {
        effects.push(ctx.intents[i].kind.duplicate());
        assert(intent_effects(ctx.intents@.take(i + 1)) =~= intent_effects(ctx.intents@.take(i as int)).push(
            ctx.intents@[i as int].kind,
        ));
    }
    assert(ctx.intents@.take(n as int) == ctx.intents@);
    let metadata = OperatorMetadata::new(
        ctx.metrics.tokens_in,
        ctx.metrics.tokens_out,
        ctx.metrics.cost.clone(),
        ctx.metrics.turns_completed,
        Vec::new(),
        elapsed_ms,
    );
    OperatorOutput::new(content, exit, metadata, effects)
}

/// Declare the approval requests on the context.
pub fn declare_effects(ctx: &mut Context, effects: Vec<Effect>)
    ensures
        intent_effects(final(ctx).intents@) == intent_effects(old(ctx).intents@) + effects@,
        final(ctx).messages_model() == old(ctx).messages_model(),
        final(ctx).metrics == old(ctx).metrics,
{
    let ghost start = old(ctx).intents@;
    let n = effects.len();
    for i in 0..n
        invariant
            n == effects@.len(),
            intent_effects(ctx.intents@) == intent_effects(start) + effects@.take(i as int),
            ctx.messages_model() == old(ctx).messages_model(),
            ctx.metrics == old(ctx).metrics,
    {
        let ghost before = ctx.intents@;
        ctx.push_intent(Intent::new(effects[i].duplicate()));
        assert(intent_effects(ctx.intents@) =~= intent_effects(before).push(effects@[i as int]));
        assert(effects@.take(i + 1) == effects@.take(i as int).push(effects@[i as int]));
    }
    assert(effects@.take(n as int) == effects@);
}

/// What the structured-output loop does after a response.
pub enum StructuredStep {
    /// Structured output was produced and validated.
    Done(Value),
    /// The loop ends with this error.
    Fail(EngineError),
    /// Validation failed: send the feedback (when there is a place for it),
    /// dispatch the other tools, and try again with this retry count.
    Retry { feedback: Option<Message>, retries: u32 },
    /// No structured output yet: dispatch the function tools and go on.
    DispatchTools,
}

/// The feedback text after a failed validation in tool-call mode.
pub open spec fn tool_feedback_text(message: Seq<char>) -> Seq<char> {
    "Validation error: "@ + message + ". Please fix and try again."@
}

/// The feedback text after a failed validation in text-JSON mode.
pub open spec fn json_feedback_text(message: Seq<char>) -> Seq<char> {
    "Your JSON output failed validation: "@ + message + ". Please output valid JSON."@
}

/// Whether `m` is the error result for a call, with this text.
pub open spec fn is_error_result_for(m: Message, call: ToolCall, text: Seq<char>) -> bool {
    &&& m.role matches Role::Tool { name, call_id } && name@ == call.name@ && call_id@ == call.id@
    &&& m.content.parts@.len() == 1
    &&& m.content.parts@[0] matches ContentPart::ToolResult { tool_use_id, content, is_error }
        && tool_use_id@ == call.id@ && content@ == text && is_error
    &&& m.meta.policy == CompactionPolicy::Normal
}

/// The halt reason after too many failed validations.
pub open spec fn retries_exhausted_text(max_retries: u32, message: Seq<char>) -> Seq<char> {
    "structured output validation failed after "@ + decimal_digits(max_retries as nat) + " retries: "@
        + message
}

/// The halt reason when the model finished without structured output; the
/// exit reason is shown as it is debug-printed.
pub open spec fn no_output_text(reason: StopReason) -> Seq<char> {
    "model completed without producing structured output (exit: "@ + match reason {
        StopReason::ContentFilter => "SafetyStop { reason: \"content filter triggered\" }"@,
        _ => "Complete"@,
    } + ")"@
}

/// The step of the structured-output loop for a response whose extraction
/// gave `extracted`, after `retries` failed validations.
pub open spec fn is_structured_step<F>(
    output: OutputSchema<F>,
    response: InferResponse,
    extracted: Result<Value, OutputError>,
    retries: u32,
    r: StructuredStep,
) -> bool {
    match extracted {
        Ok(v) => r == StructuredStep::Done(v),
        Err(OutputError::ValidationFailed { message, .. }) => if retries + 1 > output.max_retries {
            r matches StructuredStep::Fail(EngineError::Halted { reason }) && reason@
                == retries_exhausted_text(output.max_retries, message@)
        } else {
            r matches StructuredStep::Retry { feedback, retries: next } && next == retries + 1 && if output.mode
                == OutputMode::ToolCall {
                match first_call_named(response.tool_calls@, output.tool_name@) {
                    Some(i) => feedback matches Some(m) && is_error_result_for(
                        m,
                        response.tool_calls@[i],
                        tool_feedback_text(message@),
                    ),
                    None => feedback is None,
                }
            } else {
                feedback matches Some(m) && is_text_message(
                    m.deep_view(),
                    Role::User,
                    json_feedback_text(message@),
                    CompactionPolicy::Normal,
                )
            }
        },
        Err(OutputError::NoOutput) => if response.tool_calls@.len() > 0 {
            r is DispatchTools
        } else {
            r matches StructuredStep::Fail(EngineError::Halted { reason }) && reason@ == no_output_text(
                response.stop_reason,
            )
        },
    }
}

/// Index of the first tool call with this name.
fn find_call(calls: &Vec<ToolCall>, name: &str) -> (r: Option<usize>)
    ensures
        match r {
            Some(i) => is_first_call_named(calls@, name@, i as int),
            None => forall|j: int| 0 <= j < calls@.len() ==> #[trigger] calls@[j].name@ != name@,
        },
{
    let n = calls.len();
    for i in 0..n
        invariant
            n == calls@.len(),
            forall|j: int| 0 <= j < i ==> #[trigger] calls@[j].name@ != name@,
    {
        if same_text(calls[i].name.as_str(), name) {
            return Some(i);
        }
    }
    None
}

/// The step of the structured-output loop: validated output ends the loop;
/// a failed validation is fed back and retried until the retries run out;
/// no output goes on to the function tools, or fails when the model asked
/// for none.
pub fn structured_step<F>(
    output: &OutputSchema<F>,
    response: &InferResponse,
    extracted: Result<Value, OutputError>,
    retries: u32,
) -> (r: StructuredStep)
    requires
        retries < u32::MAX,
    ensures
        is_structured_step(*output, *response, extracted, retries, r),
{
    proof {
        reveal_strlit("structured output validation failed after ");
        reveal_strlit(" retries: ");
        reveal_strlit("Validation error: ");
        reveal_strlit(". Please fix and try again.");
        reveal_strlit("Your JSON output failed validation: ");
        reveal_strlit(". Please output valid JSON.");
        reveal_strlit("model completed without producing structured output (exit: ");
        reveal_strlit("SafetyStop { reason: \"content filter triggered\" }");
        reveal_strlit("Complete");
        reveal_strlit(")");
    }
    match extracted {
        Ok(v) => StructuredStep::Done(v),
        Err(OutputError::ValidationFailed { message, .. }) => {
            let next = retries + 1;
            if next > output.max_retries {
                let reason = String::from_str("structured output validation failed after ").concat(
                    u64_text(output.max_retries as u64).as_str(),
                ).concat(" retries: ").concat(message.as_str());
                return StructuredStep::Fail(EngineError::Halted { reason });
            }
            let feedback = match output.mode {
                OutputMode::ToolCall => match find_call(&response.tool_calls, output.tool_name.as_str()) {
                    Some(i) => {
                        let call = &response.tool_calls[i];
                        proof {
                            assert(first_call_named(response.tool_calls@, output.tool_name@) == Some(i as int)) by {
                                let w = choose|k: int|
                                    0 <= k < response.tool_calls@.len() && response.tool_calls@[k].name@
                                        == output.tool_name@ && (forall|j: int|
                                        0 <= j < k ==> #[trigger] response.tool_calls@[j].name@
                                            != output.tool_name@);
                                assert(response.tool_calls@[i as int].name@ == output.tool_name@);
                                if w < i {
                                    assert(response.tool_calls@[w].name@ != output.tool_name@);
                                } else if w > i {
                                    assert(response.tool_calls@[i as int].name@ != output.tool_name@);
                                }
                            }
                        }
                        let text = String::from_str("Validation error: ").concat(message.as_str()).concat(
                            ". Please fix and try again.",
                        );
                        Some(
                            InferResponse::tool_result_message(
                                call.id.as_str(),
                                call.name.as_str(),
                                text,
                                true,
                            ),
                        )
                    },
                    None => None,
                },
                OutputMode::TextJson => {
                    let text = String::from_str("Your JSON output failed validation: ").concat(
                        message.as_str(),
                    ).concat(". Please output valid JSON.");
                    let m = Message::new(Role::User, Content::from_string(text));
                    proof {
                        crate::message::lemma_single_text(m.content.parts@, text);
                    }
                    Some(m)
                },
            };
            StructuredStep::Retry { feedback, retries: next }
        },
        Err(OutputError::NoOutput) => {
            if response.has_tool_calls() {
                StructuredStep::DispatchTools
            } else {
                let shown = match response.stop_reason {
                    StopReason::ContentFilter => String::from_str(
                        "SafetyStop { reason: \"content filter triggered\" }",
                    ),
                    _ => String::from_str("Complete"),
                };
                let reason = String::from_str(
                    "model completed without producing structured output (exit: ",
                ).concat(shown.as_str()).concat(")");
                StructuredStep::Fail(EngineError::Halted { reason })
            }
        },
    }
}

/// The calls other than those of the output tool, in order.
pub open spec fn calls_except(calls: Seq<ToolCall>, name: Seq<char>) -> Seq<ToolCall>
    decreases calls.len(),
{
    if calls.len() == 0 {
        Seq::empty()
    } else {
        let rest = calls_except(calls.drop_last(), name);
        if calls.last().name@ == name {
            rest
        } else {
            rest.push(calls.last())
        }
    }
}

/// What to do with the function tools of a structured-output response.
pub enum FunctionTools {
    /// Some need approval: declare these effects; the loop halts.
    AwaitApproval(Vec<Effect>),
    /// Dispatch these calls, in order.
    Dispatch(Vec<ToolCall>),
}

/// The function tools of a response (every call but those of the output
/// tool): approval requests when a flagged call is among them, else the
/// calls to dispatch.
pub fn function_tools(response: &InferResponse, output_tool: &str, needs_approval: &Vec<bool>) -> (r: FunctionTools)
    requires
        needs_approval@.len() == response.tool_calls@.len(),
    ensures
        ({
            let idx = approval_indices(
                response.tool_calls@,
                needs_approval@,
                Some(output_tool@),
                response.tool_calls@.len() as int,
            );
            if idx.len() > 0 {
                r matches FunctionTools::AwaitApproval(effects) && are_approvals(
                    effects@,
                    response.tool_calls@,
                    idx,
                )
            } else {
                r matches FunctionTools::Dispatch(calls) && calls@ == calls_except(
                    response.tool_calls@,
                    output_tool@,
                )
            }
        }),
{
    let effects = approval_requests(&response.tool_calls, needs_approval, Some(output_tool));
    if effects.len() > 0 {
        return FunctionTools::AwaitApproval(effects);
    }
    let mut calls: Vec<ToolCall> = Vec::new();
    let n = response.tool_calls.len();
    for i in 0..n
        invariant
            n == response.tool_calls@.len(),
            calls@ == calls_except(response.tool_calls@.take(i as int), output_tool@),
    {
        assert(response.tool_calls@.take(i + 1).drop_last() == response.tool_calls@.take(i as int));
        if !same_text(response.tool_calls[i].name.as_str(), output_tool) {
            calls.push(response.tool_calls[i].duplicate());
        }
    }
    assert(response.tool_calls@.take(n as int) == response.tool_calls@);
    FunctionTools::Dispatch(calls)
}

/// The error that ends the structured-output loop when a tool needs approval.
pub fn approval_halt() -> (r: EngineError)
    ensures
        r matches EngineError::Halted { reason } && reason@
            == "tool approval required during structured output loop"@,
{
    EngineError::Halted { reason: String::from_str("tool approval required during structured output loop") }
}

/// The tools of a structured-output turn: the loop's tools, plus the
/// output tool in tool-call mode.
pub fn structured_tools<F>(output: &OutputSchema<F>, tools: Vec<ToolSchema>) -> (r: Vec<ToolSchema>)
    where F: Fn(&Value) -> Result<Value, String>,
    ensures
        output.mode == OutputMode::TextJson ==> r@ == tools@,
        output.mode == OutputMode::ToolCall ==> r@.len() == tools@.len() + 1 && r@.drop_last()
            == tools@ && is_result_tool(output.schema, output.tool_name, output.tool_description, r@.last()),
{
    let mut tools = tools;
    match output.mode {
        OutputMode::ToolCall => {
            let schema = output.tool_schema();
            let ghost before = tools@;
            tools.push(schema);
            assert(tools@.drop_last() == before);
        },
        OutputMode::TextJson => {},
    }
    tools
}

/// Configuration of a cognitive operator (the temperature and the tool
/// filter callback are kept by the runtime).
#[derive(Debug, Clone, PartialEq, Eq)]
pub struct CognitiveOperatorConfig {
    /// System prompt baked into every turn.
    pub system_prompt: String,
    /// Model identifier.
    pub model: Option<String>,
    /// Max output tokens per inference call.
    pub max_tokens: Option<u32>,
}

impl CognitiveOperatorConfig {
    /// The defaults: empty prompt, no model, 4096 tokens.
    pub fn default_config() -> (r: CognitiveOperatorConfig)
        ensures
            r.system_prompt@.len() == 0,
            r.model is None,
            r.max_tokens == Some(4096u32),
    {
        CognitiveOperatorConfig { system_prompt: String::new(), model: None, max_tokens: Some(4096) }
    }

    /// The loop configuration of this operator.
    pub fn react_loop_config(&self) -> (r: ReactLoopConfig)
        ensures
            r.system_prompt@ == self.system_prompt@,
            r.model == self.model,
            r.max_tokens == self.max_tokens,
    {
        ReactLoopConfig {
            system_prompt: self.system_prompt.clone(),
            model: self.model.clone(),
            max_tokens: self.max_tokens,
        }
    }

    /// Set up a run's context: the system prompt (when not empty) and the
    /// user's message.
    pub fn prepare_context(&self, ctx: &mut Context, message: Content)
        ensures
            ({
                &&& self.system_prompt@.len() > 0 ==> system_injected(
                    old(ctx).messages_model(),
                    final(ctx).messages_model().drop_last(),
                    self.system_prompt@,
                )
                &&& self.system_prompt@.len() == 0 ==> final(ctx).messages_model().drop_last()
                    == old(ctx).messages_model()
                &&& final(ctx).messages_model().len() > 0
                &&& final(ctx).messages_model().last() == (MessageModel {
                    role: Role::User,
                    parts: message.parts@,
                    policy: CompactionPolicy::Normal,
                })
            }),
            final(ctx).metrics == old(ctx).metrics,
    {
        if self.system_prompt.as_str().unicode_len() > 0 {
            ctx.inject_system(self.system_prompt.as_str());
        }
        let ghost mid = ctx.messages_model();
        let m = Message::new(Role::User, message);
        ctx.inject_message(m);
        assert(ctx.messages_model().drop_last() == mid);
    }
}

/// The tools visible to the model: those the filter let through, restricted
/// to the allowed names when the request lists them.
pub fn visible_tools(tools: &Vec<ToolSchema>, allowed: &Option<Vec<String>>) -> (r: Vec<ToolSchema>)
    ensures
        r@ == offered_tools(tools@, names_of(*allowed)),
{
    match allowed {
        None => crate::infer::copy_schemas(tools),
        Some(names) => {
            let mut kept: Vec<ToolSchema> = Vec::new();
            let n = tools.len();
            for i in 0..n
                invariant
                    n == tools@.len(),
                    kept@ == keep_named(tools@.take(i as int), names@),
            {
                assert(tools@.take(i + 1).drop_last() == tools@.take(i as int));
                if contains_name(names, tools[i].name.as_str()) {
                    kept.push(tools[i].duplicate());
                }
            }
            assert(tools@.take(n as int) == tools@);
            kept
        },
    }
}

/// What an agent builder collected before a provider is supplied.
#[derive(Debug, Clone, PartialEq, Eq)]
pub struct AgentSettings {
    /// Operator id, if set.
    pub operator_id: Option<String>,
    /// Standalone system prompt; overrides the loop configuration's when not
    /// empty.
    pub system_prompt: String,
    /// Loop configuration.
    pub config: ReactLoopConfig,
    /// Turn limit, enforced by a budget guard.
    pub max_turns: Option<u32>,
}

/// What an agent is built from: its id, its loop configuration, and the
/// budget guard that runs before every other middleware, if any.
#[derive(Debug, Clone)]
pub struct AgentPlan {
    /// Operator id.
    pub operator_id: String,
    /// Loop configuration.
    pub config: ReactLoopConfig,
    /// The guard enforcing the turn limit.
    pub guard: Option<BudgetGuardConfig>,
}

impl AgentSettings {
    /// Nothing set: default id, empty prompt, default loop configuration,
    /// no turn limit.
    pub fn new() -> (r: AgentSettings)
        ensures
            r.operator_id is None,
            r.system_prompt@.len() == 0,
            r.config.system_prompt@.len() == 0,
            r.config.model is None,
            r.config.max_tokens is None,
            r.max_turns is None,
    {
        AgentSettings {
            operator_id: None,
            system_prompt: String::new(),
            config: ReactLoopConfig { system_prompt: String::new(), model: None, max_tokens: None },
            max_turns: None,
        }
    }

    /// Set the operator id.
    pub fn operator_id(self, id: String) -> (r: AgentSettings)
        ensures
            r == (AgentSettings { operator_id: Some(id), ..self }),
    {
        AgentSettings { operator_id: Some(id), ..self }
    }

    /// Set the system prompt.
    pub fn system_prompt(self, prompt: String) -> (r: AgentSettings)
        ensures
            r == (AgentSettings { system_prompt: prompt, ..self }),
    {
        AgentSettings { system_prompt: prompt, ..self }
    }

    /// Set the turn limit.
    pub fn max_turns(self, max: u32) -> (r: AgentSettings)
        ensures
            r == (AgentSettings { max_turns: Some(max), ..self }),
    {
        AgentSettings { max_turns: Some(max), ..self }
    }

    /// Set the max output tokens per call.
    pub fn max_tokens(self, max: u32) -> (r: AgentSettings)
        ensures
            r == (AgentSettings { config: ReactLoopConfig { max_tokens: Some(max), ..self.config }, ..self }),
    {
        let config = ReactLoopConfig { max_tokens: Some(max), ..self.config };
        AgentSettings { config, ..self }
    }

    /// Replace the loop configuration.
    pub fn config(self, config: ReactLoopConfig) -> (r: AgentSettings)
        ensures
            r == (AgentSettings { config, ..self }),
    {
        AgentSettings { config, ..self }
    }

    /// The plan: the id (`agent` when unset), the loop configuration with
    /// the standalone prompt when it is not empty, and a guard with the turn
    /// limit (other limits at their defaults) when one was set.
    pub fn plan(self) -> (r: AgentPlan)
        ensures
            match self.operator_id {
                Some(id) => r.operator_id == id,
                None => r.operator_id@ == "agent"@,
            },
            r.config.system_prompt@ == if self.system_prompt@.len() > 0 {
                self.system_prompt@
            } else {
                self.config.system_prompt@
            },
            r.config.model == self.config.model,
            r.config.max_tokens == self.config.max_tokens,
            match self.max_turns {
                Some(t) => r.guard matches Some(g) && g.max_turns == Some(t) && g.max_cost is None
                    && g.max_duration is None && g.max_tool_calls is None,
                None => r.guard is None,
            },
    {
        let operator_id = match self.operator_id {
            Some(id) => id,
            None => String::from_str("agent"),
        };
        let mut config = self.config;
        if self.system_prompt.as_str().unicode_len() > 0 {
            config.system_prompt = self.system_prompt;
        }
        let guard = match self.max_turns {
            Some(t) => {
                let base = BudgetGuardConfig::default_limits();
                Some(BudgetGuardConfig { max_turns: Some(t), ..base })
            },
            None => None,
        };
        AgentPlan { operator_id, config, guard }
    }
}

impl Default for CognitiveOperatorConfig {
    fn default() -> (r: CognitiveOperatorConfig)
        ensures
            r.system_prompt@.len() == 0,
            r.model is None,
            r.max_tokens == Some(4096u32),
    {
        CognitiveOperatorConfig::default_config()
    }
}

/// Builder state: no provider supplied yet.
#[derive(Debug, Clone, Copy, Default)]
pub struct NoProvider;

/// Builder state: a provider of type `P` was supplied.
pub struct WithProvider<P>(pub P);

} // verus!
