//! Executing a tool call: what a result reads as, how the attempt is
//! counted, and how dispatch failures become engine errors. The registry
//! lookup, the tool itself and the dispatcher are the runtime's.
use crate::context::TurnMetrics;
use crate::error::{EngineError, ToolError};
use crate::infer::ToolCall;
use crate::json::{json_as_str, json_from_text, json_is_null, json_null, json_parse, json_string, json_text, json_to_text};
use serde_json::Value;
use vstd::prelude::*;

verus! {

/// A tool result as the model reads it: a JSON string as its text, any other
/// value as its JSON text.
pub open spec fn tool_result_spec(v: Value) -> Seq<char> {
    match json_string(v) {
        Some(s) => s,
        None => json_text(v),
    }
}

/// A tool result as the model reads it.
pub fn format_tool_result(value: &Value) -> (r: String)
    ensures
        r@ == tool_result_spec(*value),
{
    match json_as_str(value) {
        Some(s) => s,
        None => json_to_text(value),
    }
}

/// The error for a call of a tool that does not exist.
pub fn unknown_tool(name: &str) -> (r: EngineError)
    ensures
        r matches EngineError::Halted { reason } && reason@ == "unknown tool: "@ + name@,
{
    proof {
        reveal_strlit("unknown tool: ");
    }
    EngineError::Halted { reason: String::from_str("unknown tool: ").concat(name) }
}

/// Count a tool call made through the registry: every call counts, failed
/// ones count as failures too; the tool's error becomes an engine error.
pub fn record_tool_call(metrics: &mut TurnMetrics, result: Result<Value, ToolError>) -> (r: Result<Value, EngineError>)
    requires
        old(metrics).tool_calls_total < u32::MAX,
        old(metrics).tool_calls_failed < u32::MAX,
    ensures
        final(metrics).tool_calls_total == old(metrics).tool_calls_total + 1,
        final(metrics).tool_calls_failed == old(metrics).tool_calls_failed + if result is Err { 1int } else { 0int },
        *final(metrics) == (TurnMetrics {
            tool_calls_total: final(metrics).tool_calls_total,
            tool_calls_failed: final(metrics).tool_calls_failed,
            ..*old(metrics)
        }),
        match result {
            Ok(v) => r == Ok::<Value, EngineError>(v),
            Err(e) => r == Err::<Value, EngineError>(EngineError::Tool(e)),
        },
{
    metrics.tool_calls_total = metrics.tool_calls_total + 1;
    match result {
        Ok(v) => Ok(v),
        Err(e) => {
            metrics.tool_calls_failed = metrics.tool_calls_failed + 1;
            Err(EngineError::Tool(e))
        },
    }
}

/// The text a dispatched tool receives: the call's input as JSON text.
pub fn dispatch_input_text(call: &ToolCall) -> (r: String)
    ensures
        r@ == json_text(call.input),
{
    json_to_text(&call.input)
}

/// The value of a dispatched tool's answer: its text parsed as JSON, or
/// `null` when the answer is not text or not JSON.
pub fn dispatched_value(text: Option<String>) -> (r: Value)
    ensures
        match text {
            Some(t) => match json_parse(t@) {
                Ok(v) => r == v,
                Err(_) => json_is_null(r),
            },
            None => json_is_null(r),
        },
{
    match text {
        Some(t) => match json_from_text(t.as_str()) {
            Ok(v) => v,
            Err(_) => json_null(),
        },
        None => json_null(),
    }
}

/// Kind of a dispatch failure.
#[derive(Debug, Clone, Copy, PartialEq, Eq)]
pub enum ErrorCode {
    /// No such operator.
    NotFound,
    /// Anything else.
    Other,
}

/// A failed dispatch: its kind and message.
#[derive(Debug, Clone, PartialEq, Eq)]
pub struct DispatchFailure {
    /// Kind of failure.
    pub code: ErrorCode,
    /// What went wrong.
    pub message: String,
}

/// The engine error for a dispatch that could not start: an unknown tool
/// halts, anything else is passed on by its message.
pub fn dispatch_start_error(name: &str, failure: DispatchFailure) -> (r: EngineError)
    ensures
        failure.code == ErrorCode::NotFound ==> (r matches EngineError::Halted { reason } && reason@
            == "unknown tool: "@ + name@),
        failure.code == ErrorCode::Other ==> r == EngineError::Custom(failure.message),
{
    match failure.code {
        ErrorCode::NotFound => unknown_tool(name),
        ErrorCode::Other => EngineError::Custom(failure.message),
    }
}

/// The engine error for a dispatch that failed after starting: not-found
/// halts naming the failure's message, anything else is passed on.
pub fn recover_engine_error(failure: DispatchFailure) -> (r: EngineError)
    ensures
        failure.code == ErrorCode::NotFound ==> (r matches EngineError::Halted { reason } && reason@
            == "unknown tool: "@ + failure.message@),
        failure.code == ErrorCode::Other ==> r == EngineError::Custom(failure.message),
{
    match failure.code {
        ErrorCode::NotFound => unknown_tool(failure.message.as_str()),
        ErrorCode::Other => EngineError::Custom(failure.message),
    }
}

/// Count a dispatch that started, and turn what it collected into the
/// call's value: the answer's text parsed as JSON (else `null`), or a
/// failure, which also counts as a failed call.
pub fn record_dispatch(metrics: &mut TurnMetrics, collected: Result<Option<String>, DispatchFailure>) -> (r: Result<Value, EngineError>)
    requires
        old(metrics).tool_calls_total < u32::MAX,
        old(metrics).tool_calls_failed < u32::MAX,
    ensures
        final(metrics).tool_calls_total == old(metrics).tool_calls_total + 1,
        final(metrics).tool_calls_failed == old(metrics).tool_calls_failed + if collected is Err { 1int } else { 0int },
        *final(metrics) == (TurnMetrics {
            tool_calls_total: final(metrics).tool_calls_total,
            tool_calls_failed: final(metrics).tool_calls_failed,
            ..*old(metrics)
        }),
        match collected {
            Ok(Some(t)) => match json_parse(t@) {
                Ok(v) => r == Ok::<Value, EngineError>(v),
                Err(_) => r matches Ok(v) && json_is_null(v),
            },
            Ok(None) => r matches Ok(v) && json_is_null(v),
            Err(f) => match f.code {
                ErrorCode::NotFound => r matches Err(EngineError::Halted { reason }) && reason@
                    == "unknown tool: "@ + f.message@,
                ErrorCode::Other => r == Err::<Value, EngineError>(EngineError::Custom(f.message)),
            },
        },
{
    metrics.tool_calls_total = metrics.tool_calls_total + 1;
    match collected {
        Ok(text) => Ok(dispatched_value(text)),
        Err(f) => {
            metrics.tool_calls_failed = metrics.tool_calls_failed + 1;
            Err(recover_engine_error(f))
        },
    }
}

} // verus!
