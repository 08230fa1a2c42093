//! Errors of the context engine and their classification into operator errors.
use crate::operator::ExitReason;
use vstd::prelude::*;

verus! {

/// Why a tool call failed.
#[derive(Debug, Clone, PartialEq, Eq)]
pub enum ToolError {
    /// No tool of that name.
    NotFound(String),
    /// The input did not match the tool's schema.
    InvalidInput(String),
    /// The tool ran and failed.
    ExecutionFailed(String),
}

/// A failed provider call.
#[derive(Debug, Clone, PartialEq, Eq)]
pub struct ProviderError {
    /// What went wrong.
    pub message: String,
    /// Whether retrying may succeed.
    pub retryable: bool,
}

/// Errors an operator reports to its caller.
#[derive(Debug, Clone, PartialEq, Eq)]
pub enum OperatorError {
    /// The model call failed.
    Model { message: String, retryable: bool },
    /// A sub-dispatch (tool) failed.
    SubDispatch { operator: String, message: String },
    /// A rule or limit halted the run.
    Halted { reason: String },
    /// Assembling the context failed.
    ContextAssembly(String),
    /// Anything else.
    Other(String),
}

/// Errors produced by context engine operations.
#[derive(Debug, Clone, PartialEq, Eq)]
pub enum EngineError {
    /// A rule or operation halted execution.
    Halted { reason: String },
    /// A structured exit was requested.
    Exit { outcome: ExitReason, detail: String },
    /// Inference failed at the provider.
    Provider(ProviderError),
    /// An operator error passed through.
    Operator(OperatorError),
    /// Tool dispatch failed.
    Tool(ToolError),
    /// Anything else, by message.
    Custom(String),
}

/// Name of an exit reason, as used in halt messages.
pub open spec fn exit_label(e: ExitReason) -> Seq<char> {
    match e {
        ExitReason::Complete => "Complete"@,
        ExitReason::MaxTurns => "MaxTurns"@,
        ExitReason::BudgetExhausted => "BudgetExhausted"@,
        ExitReason::Timeout => "Timeout"@,
        ExitReason::SafetyStop { .. } => "SafetyStop"@,
        ExitReason::InterceptorHalt { .. } => "InterceptorHalt"@,
        ExitReason::AwaitingApproval => "AwaitingApproval"@,
        ExitReason::Custom(_) => "Custom"@,
    }
}

/// The name of an exit reason.
pub fn exit_label_text(e: &ExitReason) -> (r: String)
    ensures
        r@ == exit_label(*e),
{
    match e {
        ExitReason::Complete => String::from_str("Complete"),
        ExitReason::MaxTurns => String::from_str("MaxTurns"),
        ExitReason::BudgetExhausted => String::from_str("BudgetExhausted"),
        ExitReason::Timeout => String::from_str("Timeout"),
        ExitReason::SafetyStop { .. } => String::from_str("SafetyStop"),
        ExitReason::InterceptorHalt { .. } => String::from_str("InterceptorHalt"),
        ExitReason::AwaitingApproval => String::from_str("AwaitingApproval"),
        ExitReason::Custom(_) => String::from_str("Custom"),
    }
}

/// The `Debug` text of a string: the string in double quotes, with quotes,
/// backslashes and unprintable characters escaped.
pub uninterp spec fn str_debug(s: Seq<char>) -> Seq<char>;

/// `Debug` formatting of a `str`.
#[verifier::external_body]
fn debug_text(s: &str) -> (r: String)
    ensures
        r@ == str_debug(s@),
{
    format!("{:?}", s)
}

/// The `Debug` text of an exit reason: the variant's name, with its payload
/// as a derived `Debug` prints it.
pub open spec fn exit_debug(e: ExitReason) -> Seq<char> {
    match e {
        ExitReason::SafetyStop { reason } => "SafetyStop { reason: "@ + str_debug(reason@) + " }"@,
        ExitReason::InterceptorHalt { reason } => "InterceptorHalt { reason: "@ + str_debug(reason@) + " }"@,
        ExitReason::Custom(s) => "Custom("@ + str_debug(s@) + ")"@,
        _ => exit_label(e),
    }
}

/// The `Debug` text of an exit reason.
pub fn exit_debug_text(e: &ExitReason) -> (r: String)
    ensures
        r@ == exit_debug(*e),
{
    proof {
        reveal_strlit("SafetyStop { reason: ");
        reveal_strlit("InterceptorHalt { reason: ");
        reveal_strlit(" }");
        reveal_strlit("Custom(");
        reveal_strlit(")");
    }
    match e {
        ExitReason::SafetyStop { reason } => String::from_str("SafetyStop { reason: ").concat(
            debug_text(reason.as_str()).as_str(),
        ).concat(" }"),
        ExitReason::InterceptorHalt { reason } => String::from_str("InterceptorHalt { reason: ").concat(
            debug_text(reason.as_str()).as_str(),
        ).concat(" }"),
        ExitReason::Custom(s) => String::from_str("Custom(").concat(debug_text(s.as_str()).as_str()).concat(")"),
        _ => exit_label_text(e),
    }
}

/// The operator label of a tool error: `tool:<name>` for an unknown tool, `tool` otherwise.
pub open spec fn tool_label(e: ToolError) -> Seq<char> {
    match e {
        ToolError::NotFound(name) => "tool:"@ + name@,
        _ => "tool"@,
    }
}

/// The text of a tool error.
pub open spec fn tool_error_text(e: ToolError) -> Seq<char> {
    match e {
        ToolError::NotFound(name) => "tool not found: "@ + name@,
        ToolError::InvalidInput(m) => "invalid input: "@ + m@,
        ToolError::ExecutionFailed(m) => "execution failed: "@ + m@,
    }
}

/// Whether `out` is the operator error that `err` is classified as: provider
/// errors keep their retryability, operator errors pass through, tool errors
/// become sub-dispatch errors labelled by tool, halts become halts, an exit
/// becomes a halt whose reason is the exit's `Debug` text and the detail,
/// anything else is `Other`.
pub open spec fn classifies(err: EngineError, out: OperatorError) -> bool {
    match err {
        EngineError::Provider(e) => out == (OperatorError::Model { message: e.message, retryable: e.retryable }),
        EngineError::Operator(e) => out == e,
        EngineError::Tool(e) => out matches OperatorError::SubDispatch { operator, message }
            && operator@ == tool_label(e) && message@ == tool_error_text(e),
        EngineError::Halted { reason } => out == (OperatorError::Halted { reason }),
        EngineError::Exit { outcome, detail } => out matches OperatorError::Halted { reason }
            && reason@ == exit_debug(outcome) + ": "@ + detail@,
        EngineError::Custom(m) => out == OperatorError::Other(m),
    }
}

impl ToolError {
    /// The text of this error.
    pub fn to_text(&self) -> (r: String)
        ensures
            r@ == tool_error_text(*self),
    {
        proof {
            reveal_strlit("tool not found: ");
            reveal_strlit("invalid input: ");
            reveal_strlit("execution failed: ");
        }
        match self {
            ToolError::NotFound(n) => String::from_str("tool not found: ").concat(n.as_str()),
            ToolError::InvalidInput(m) => String::from_str("invalid input: ").concat(m.as_str()),
            ToolError::ExecutionFailed(m) => String::from_str("execution failed: ").concat(m.as_str()),
        }
    }
}

impl ProviderError {
    /// Whether retrying may succeed.
    pub fn is_retryable(&self) -> (r: bool)
        ensures
            r == self.retryable,
    {
        self.retryable
    }
}

/// Classified mapping from an engine error to an operator error.
pub fn map_engine_error(err: EngineError) -> (r: OperatorError)
    ensures
        classifies(err, r),
{
    match err {
        EngineError::Provider(e) => {
            if e.is_retryable() {
                OperatorError::Model { message: e.message, retryable: true }
            } else {
                OperatorError::Model { message: e.message, retryable: false }
            }
        },
        EngineError::Operator(e) => e,
        EngineError::Tool(e) => {
            let label = match &e {
                ToolError::NotFound(name) => {
                    proof {
                        reveal_strlit("tool:");
                    }
                    String::from_str("tool:").concat(name.as_str())
                },
                _ => {
                    proof {
                        reveal_strlit("tool");
                    }
                    String::from_str("tool")
                },
            };
            OperatorError::SubDispatch { operator: label, message: e.to_text() }
        },
        EngineError::Halted { reason } => OperatorError::Halted { reason },
        EngineError::Exit { outcome, detail } => {
            proof {
                reveal_strlit(": ");
            }
            let reason = exit_debug_text(&outcome).concat(": ").concat(detail.as_str());
            OperatorError::Halted { reason }
        },
        EngineError::Custom(m) => OperatorError::Other(m),
    }
}

/// The text of an operator error.
pub open spec fn operator_error_text(e: OperatorError) -> Seq<char> {
    match e {
        OperatorError::Model { message, retryable } => if retryable {
            "retryable: "@ + message@
        } else {
            "model error: "@ + message@
        },
        OperatorError::SubDispatch { operator, message } => "sub-dispatch error ("@ + operator@ + "): "@
            + message@,
        OperatorError::Halted { reason } => "halted: "@ + reason@,
        OperatorError::ContextAssembly(m) => "context assembly failed: "@ + m@,
        OperatorError::Other(m) => m@,
    }
}

/// The text of an engine error: a prefix naming its kind, then the detail.
pub open spec fn engine_error_text(e: EngineError) -> Seq<char> {
    match e {
        EngineError::Halted { reason } => "halted: "@ + reason@,
        EngineError::Exit { outcome, detail } => "exit "@ + exit_label(outcome) + ": "@ + detail@,
        EngineError::Provider(p) => "provider: "@ + p.message@,
        EngineError::Operator(o) => "operator: "@ + operator_error_text(o),
        EngineError::Tool(t) => "tool: "@ + tool_error_text(t),
        EngineError::Custom(m) => m@,
    }
}

impl OperatorError {
    /// The text of this error.
    pub fn to_text(&self) -> (r: String)
        ensures
            r@ == operator_error_text(*self),
    {
        proof {
            reveal_strlit("retryable: ");
            reveal_strlit("model error: ");
            reveal_strlit("sub-dispatch error (");
            reveal_strlit("): ");
            reveal_strlit("halted: ");
            reveal_strlit("context assembly failed: ");
        }
        match self {
            OperatorError::Model { message, retryable } => {
                if *retryable {
                    String::from_str("retryable: ").concat(message.as_str())
                } else {
                    String::from_str("model error: ").concat(message.as_str())
                }
            },
            OperatorError::SubDispatch { operator, message } => String::from_str("sub-dispatch error (")
                .concat(operator.as_str()).concat("): ").concat(message.as_str()),
            OperatorError::Halted { reason } => String::from_str("halted: ").concat(reason.as_str()),
            OperatorError::ContextAssembly(m) => String::from_str("context assembly failed: ").concat(m.as_str()),
            OperatorError::Other(m) => m.clone(),
        }
    }
}

impl EngineError {
    /// The text of this error.
    pub fn to_text(&self) -> (r: String)
        ensures
            r@ == engine_error_text(*self),
    {
        proof {
            reveal_strlit("halted: ");
            reveal_strlit("exit ");
            reveal_strlit(": ");
            reveal_strlit("provider: ");
            reveal_strlit("operator: ");
            reveal_strlit("tool: ");
        }
        match self {
            EngineError::Halted { reason } => String::from_str("halted: ").concat(reason.as_str()),
            EngineError::Exit { outcome, detail } => String::from_str("exit ").concat(
                exit_label_text(outcome).as_str(),
            ).concat(": ").concat(detail.as_str()),
            EngineError::Provider(p) => String::from_str("provider: ").concat(p.message.as_str()),
            EngineError::Operator(o) => String::from_str("operator: ").concat(o.to_text().as_str()),
            EngineError::Tool(t) => String::from_str("tool: ").concat(t.to_text().as_str()),
            EngineError::Custom(m) => m.clone(),
        }
    }
}

} // verus!
