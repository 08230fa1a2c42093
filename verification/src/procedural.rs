//! Procedural memory: distilling reusable procedures from tool traces and
//! recalling them. Procedures with float bookkeeping live with the runtime.
use crate::infer::InferRequest;
use crate::message::{message_text, Message, MessageModel, Role};
use crate::prompts::{
    is_prompt_request, prompt_or_default, prompt_request, push_line, push_transcript, transcript,
    views,
};
use crate::text::join_lines;
use vstd::prelude::*;

verus! {

/// One step of a procedure.
#[derive(Debug, Clone, PartialEq, Eq)]
pub struct ProcedureStep {
    /// Action name (e.g. a tool name).
    pub action: String,
    /// What the step does.
    pub description: String,
    /// Expected input pattern.
    pub input_pattern: Option<String>,
}

impl ProcedureStep {
    /// A step without an input pattern.
    pub fn new(action: &str, description: &str) -> (r: ProcedureStep)
        ensures
            r.action@ == action@,
            r.description@ == description@,
            r.input_pattern is None,
    {
        ProcedureStep { action: String::from_str(action), description: String::from_str(description), input_pattern: None }
    }
}

/// Default system prompt for distilling a procedure.
pub const DEFAULT_DISTILL_PROCEDURE_PROMPT: &'static str = r#"You are a procedural memory distiller. Given a sequence of tool-use messages representing a completed task, extract a reusable procedure.

Output ONLY a JSON object matching this schema:
{
  "key": "string - unique id, lowercase kebab-case prefixed with 'p:'",
  "description": "string - what the procedure accomplishes",
  "steps": [{"action": "string", "description": "string", "input_pattern": null}],
  "success_count": 0,
  "failure_count": 0,
  "keywords": ["string - retrieval keywords"],
  "last_used": null
}

Rules:
1. key must be lowercase, kebab-case, prefixed with 'p:'
2. steps must be in execution order
3. Extract only the essential, repeatable steps — omit one-off decisions
4. keywords: terms that describe when this procedure would be useful
5. Output ONLY valid JSON — no markdown fences, no explanation."#;

/// Configuration for distilling a procedure from a tool trace.
#[derive(Debug, Clone, PartialEq, Eq)]
pub struct DistillProcedureConfig {
    /// Custom system prompt; `None` uses [`DEFAULT_DISTILL_PROCEDURE_PROMPT`].
    pub system_prompt: Option<String>,
    /// Maximum tokens of the response.
    pub max_tokens: u32,
}

impl DistillProcedureConfig {
    /// The default configuration: default prompt, 2048 tokens.
    pub fn default_config() -> (r: DistillProcedureConfig)
        ensures
            r.system_prompt is None,
            r.max_tokens == 2048,
    {
        DistillProcedureConfig { system_prompt: None, max_tokens: 2048 }
    }

    /// The request: a `## Tool Trace` heading and the trace's transcript.
    pub fn build_request(&self, tool_trace: &[Message]) -> (r: InferRequest)
        ensures
            is_prompt_request(
                r,
                match self.system_prompt {
                    Some(s) => s@,
                    None => DEFAULT_DISTILL_PROCEDURE_PROMPT@,
                },
                join_lines(seq!["## Tool Trace"@] + transcript(tool_trace.deep_view())),
                self.max_tokens,
            ),
    {
        proof {
            reveal_strlit("## Tool Trace");
        }
        let system = prompt_or_default(&self.system_prompt, DEFAULT_DISTILL_PROCEDURE_PROMPT);
        let mut lines: Vec<String> = Vec::new();
        push_line(&mut lines, String::from_str("## Tool Trace"));
        push_transcript(&mut lines, tool_trace);
        assert(views(lines@) =~= seq!["## Tool Trace"@] + transcript(tool_trace.deep_view()));
        prompt_request(system, &lines, self.max_tokens)
    }
}

/// Configuration for recalling procedures.
#[derive(Debug, Clone, PartialEq, Eq)]
pub struct RecallProcedureConfig {
    /// Reserved custom system prompt.
    pub system_prompt: Option<String>,
    /// Reserved token limit.
    pub max_tokens: u32,
}

/// Index of the last user message at or before index `n - 1`, if any.
pub open spec fn last_user_index(msgs: Seq<MessageModel>, n: int) -> Option<int>
    decreases n,
{
    if n <= 0 {
        None
    } else if msgs[n - 1].role is User {
        Some(n - 1)
    } else {
        last_user_index(msgs, n - 1)
    }
}

/// The recall query: the text of the most recent user message, or empty.
pub open spec fn recall_query(msgs: Seq<MessageModel>) -> Seq<char> {
    match last_user_index(msgs, msgs.len() as int) {
        Some(i) => message_text(msgs[i]),
        None => Seq::empty(),
    }
}

/// The last user message before `n` is a user message, and no later one
/// before `n` is; without one, no message before `n` is a user message.
proof fn lemma_last_user_index(msgs: Seq<MessageModel>, n: int)
    requires
        0 <= n <= msgs.len(),
    ensures
        last_user_index(msgs, n) matches Some(i) ==> 0 <= i < n && msgs[i].role is User && forall|j: int|
            i < j < n ==> !(#[trigger] msgs[j].role is User),
        last_user_index(msgs, n) is None ==> forall|j: int| 0 <= j < n ==> !(#[trigger] msgs[j].role is User),
    decreases n,
{
    if n > 0 && !(msgs[n - 1].role is User) {
        lemma_last_user_index(msgs, n - 1);
    }
}

/// The recall query is the text of the most recent user message: some user
/// message has that text and no later message is a user message; with no
/// user message at all the query is empty.
pub proof fn law_recall_query(msgs: Seq<MessageModel>)
    ensures
        (exists|i: int| 0 <= i < msgs.len() && #[trigger] msgs[i].role is User) ==> exists|i: int|
            0 <= i < msgs.len() && #[trigger] msgs[i].role is User && recall_query(msgs) == message_text(msgs[i])
                && forall|j: int| i < j < msgs.len() ==> !(#[trigger] msgs[j].role is User),
        (forall|i: int| 0 <= i < msgs.len() ==> !(#[trigger] msgs[i].role is User)) ==> recall_query(msgs).len()
            == 0,
{
    lemma_last_user_index(msgs, msgs.len() as int);
}

impl RecallProcedureConfig {
    /// The default configuration: no prompt, 256 tokens.
    pub fn default_config() -> (r: RecallProcedureConfig)
        ensures
            r.system_prompt is None,
            r.max_tokens == 256,
    {
        RecallProcedureConfig { system_prompt: None, max_tokens: 256 }
    }

    /// The search query for procedure lookup: the text of the most recent
    /// user message, or an empty string when there is none.
    pub fn build_query(&self, messages: &[Message]) -> (r: String)
        ensures
            r@ == recall_query(messages.deep_view()),
    {
        let mut i = messages.len();
        while i > 0
            invariant
                i <= messages@.len(),
                messages@.len() == messages.deep_view().len(),
                last_user_index(messages.deep_view(), messages.deep_view().len() as int)
                    == last_user_index(messages.deep_view(), i as int),
            decreases i,
        {
            match messages[i - 1].role {
                Role::User => {
                    return messages[i - 1].text_content();
                },
                _ => {},
            }
            i = i - 1;
        }
        String::new()
    }
}

impl Default for DistillProcedureConfig {
    fn default() -> (r: DistillProcedureConfig)
        ensures
            r.system_prompt is None,
            r.max_tokens == 2048,
    {
        DistillProcedureConfig::default_config()
    }
}

impl Default for RecallProcedureConfig {
    fn default() -> (r: RecallProcedureConfig)
        ensures
            r.system_prompt is None,
            r.max_tokens == 256,
    {
        RecallProcedureConfig::default_config()
    }
}

} // verus!
