//! Side effects an agent declares (memory writes, delegation, signals) and
//! the intents that carry them out of an operator invocation.
use serde_json::Value;
use vstd::prelude::*;

verus! {

/// Where a memory entry lives.
#[derive(Debug, Clone, PartialEq, Eq)]
pub enum Scope {
    /// Shared by every session.
    Global,
    /// One session.
    Session(String),
    /// One workflow.
    Workflow(String),
    /// Any other scope, by name.
    Custom(String),
}

/// A side effect declared by an agent.
#[derive(Debug, Clone, PartialEq)]
pub enum Effect {
    /// Write a value to memory.
    WriteMemory { scope: Scope, key: String, value: Value },
    /// Delete a value from memory.
    DeleteMemory { scope: Scope, key: String },
    /// Hand a task to another agent and wait for it.
    Delegate { agent: String, message: String },
    /// Pass the conversation to another agent.
    Handoff { agent: String, state: Value },
    /// Send a signal to a workflow.
    Signal { target: String, signal_type: String, data: Value },
    /// A tool call waits for approval.
    ToolApprovalRequired { tool_name: String, call_id: String, input: Value },
}

/// The kind of an intent is the effect it asks for.
pub type IntentKind = Effect;

/// An effect declared during an operator invocation, to be carried out by the caller.
#[derive(Debug, Clone, PartialEq)]
pub struct Intent {
    /// What is asked for.
    pub kind: IntentKind,
}

impl Intent {
    /// An intent for the given effect.
    pub fn new(kind: IntentKind) -> (r: Intent)
        ensures
            r.kind == kind,
    {
        Intent { kind }
    }
}

impl Scope {
    /// A copy of this scope.
    pub fn duplicate(&self) -> (r: Scope)
        ensures
            r == *self,
    {
        match self {
            Scope::Global => Scope::Global,
            Scope::Session(s) => Scope::Session(s.clone()),
            Scope::Workflow(s) => Scope::Workflow(s.clone()),
            Scope::Custom(s) => Scope::Custom(s.clone()),
        }
    }
}

impl Effect {
    /// A copy of this effect.
    pub fn duplicate(&self) -> (r: Effect)
        ensures
            r == *self,
    {
        match self {
            Effect::WriteMemory { scope, key, value } => Effect::WriteMemory {
                scope: scope.duplicate(),
                key: key.clone(),
                value: value.clone(),
            },
            Effect::DeleteMemory { scope, key } => Effect::DeleteMemory {
                scope: scope.duplicate(),
                key: key.clone(),
            },
            Effect::Delegate { agent, message } => Effect::Delegate {
                agent: agent.clone(),
                message: message.clone(),
            },
            Effect::Handoff { agent, state } => Effect::Handoff {
                agent: agent.clone(),
                state: state.clone(),
            },
            Effect::Signal { target, signal_type, data } => Effect::Signal {
                target: target.clone(),
                signal_type: signal_type.clone(),
                data: data.clone(),
            },
            Effect::ToolApprovalRequired { tool_name, call_id, input } => Effect::ToolApprovalRequired {
                tool_name: tool_name.clone(),
                call_id: call_id.clone(),
                input: input.clone(),
            },
        }
    }
}

/// A copy of a list of effects.
pub fn copy_effects(effects: &Vec<Effect>) -> (r: Vec<Effect>)
    ensures
        r@ == effects@,
{
    let mut out: Vec<Effect> = Vec::new();
    let n = effects.len();
    for i in 0..n
        invariant
            n == effects@.len(),
            out@ == effects@.take(i as int),
    {
        out.push(effects[i].duplicate());
        assert(effects@.take(i + 1) == effects@.take(i as int).push(effects@[i as int]));
    }
    assert(effects@.take(n as int) == effects@);
    out
}

} // verus!
