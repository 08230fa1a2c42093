//! Inference requests and responses exchanged with a model provider.
use crate::json::{json_null, json_is_null};
use crate::message::{
    parts_text, Content, ContentPart, Message, MessageModel, Role, CompactionPolicy,
};
use rust_decimal::Decimal;
use serde_json::Value;
use vstd::prelude::*;

verus! {

/// Why the model stopped generating.
#[derive(Debug, Clone, Copy, PartialEq, Eq, Structural)]
pub enum StopReason {
    /// The model finished its turn.
    EndTurn,
    /// The model wants tools to be called.
    ToolUse,
    /// The output hit the token limit.
    MaxTokens,
    /// A safety filter stopped the output.
    ContentFilter,
}

/// Token usage reported for one inference call.
#[derive(Debug, Clone, Copy, PartialEq, Eq)]
pub struct TokenUsage {
    /// Input tokens.
    pub input_tokens: u64,
    /// Output tokens.
    pub output_tokens: u64,
}

/// A tool call requested by the model.
#[derive(Debug, Clone, PartialEq)]
pub struct ToolCall {
    /// Provider-assigned call id.
    pub id: String,
    /// Tool name.
    pub name: String,
    /// Tool input.
    pub input: Value,
}

/// A tool offered to the model.
#[derive(Debug, Clone, PartialEq)]
pub struct ToolSchema {
    /// Tool name.
    pub name: String,
    /// What the tool does.
    pub description: String,
    /// JSON Schema of the tool's input.
    pub input_schema: Value,
}

/// A request for one inference call.
#[derive(Debug, Clone)]
pub struct InferRequest {
    /// Conversation messages.
    pub messages: Vec<Message>,
    /// System prompt.
    pub system: Option<String>,
    /// Model override.
    pub model: Option<String>,
    /// Maximum output tokens.
    pub max_tokens: Option<u32>,
    /// Tools offered to the model.
    pub tools: Vec<ToolSchema>,
    /// Provider-specific passthrough (`null` when unset).
    pub extra: Value,
}

/// A response from one inference call.
#[derive(Debug, Clone)]
pub struct InferResponse {
    /// Generated content.
    pub content: Content,
    /// Tool calls requested.
    pub tool_calls: Vec<ToolCall>,
    /// Why generation stopped.
    pub stop_reason: StopReason,
    /// Token usage.
    pub usage: TokenUsage,
    /// Model that answered.
    pub model: String,
    /// Cost of the call, when the provider reports one.
    pub cost: Option<Decimal>,
}

/// Whether a list of parts holds at least one text part.
pub open spec fn has_text_part(parts: Seq<ContentPart>) -> bool {
    exists|i: int| 0 <= i < parts.len() && #[trigger] parts[i] is Text
}

/// The tool-use parts for a list of tool calls.
pub open spec fn tool_use_parts(calls: Seq<ToolCall>) -> Seq<ContentPart> {
    calls.map_values(|c: ToolCall| ContentPart::ToolUse { id: c.id, name: c.name, input: c.input })
}

/// The assistant message recording a response: its content followed by one
/// tool-use part per tool call.
pub open spec fn response_message(r: InferResponse) -> MessageModel {
    MessageModel {
        role: Role::Assistant,
        parts: r.content.parts@ + tool_use_parts(r.tool_calls@),
        policy: CompactionPolicy::Normal,
    }
}

impl InferRequest {
    /// A request carrying `messages` and nothing else.
    pub fn new(messages: Vec<Message>) -> (r: InferRequest)
        ensures
            r.messages == messages,
            r.system is None,
            r.model is None,
            r.max_tokens is None,
            r.tools@.len() == 0,
            json_is_null(r.extra),
    {
        InferRequest {
            messages,
            system: None,
            model: None,
            max_tokens: None,
            tools: Vec::new(),
            extra: json_null(),
        }
    }
}

impl ToolCall {
    /// A copy of this tool call.
    pub fn duplicate(&self) -> (r: ToolCall)
        ensures
            r == *self,
    {
        ToolCall { id: self.id.clone(), name: self.name.clone(), input: self.input.clone() }
    }
}

impl ToolSchema {
    /// A copy of this schema.
    pub fn duplicate(&self) -> (r: ToolSchema)
        ensures
            r == *self,
    {
        ToolSchema {
            name: self.name.clone(),
            description: self.description.clone(),
            input_schema: self.input_schema.clone(),
        }
    }
}

/// A copy of a list of tool schemas.
pub fn copy_schemas(schemas: &Vec<ToolSchema>) -> (r: Vec<ToolSchema>)
    ensures
        r@ == schemas@,
{
    let mut out: Vec<ToolSchema> = Vec::new();
    let n = schemas.len();
    for i in 0..n
        invariant
            n == schemas@.len(),
            out@ == schemas@.take(i as int),
    {
        out.push(schemas[i].duplicate());
        assert(schemas@.take(i + 1) == schemas@.take(i as int).push(schemas@[i as int]));
    }
    assert(schemas@.take(n as int) == schemas@);
    out
}

impl InferResponse {
    /// Whether the model asked for tools.
    pub fn has_tool_calls(&self) -> (r: bool)
        ensures
            r == (self.tool_calls@.len() > 0),
    {
        self.tool_calls.len() > 0
    }

    /// The response text: the concatenated text parts, or `None` when the
    /// content holds no text part.
    pub fn text(&self) -> (r: Option<String>)
        ensures
            match r {
                Some(t) => has_text_part(self.content.parts@) && t@ == parts_text(
                    self.content.parts@,
                ),
                None => !has_text_part(self.content.parts@),
            },
    {
        let n = self.content.parts.len();
        let mut found = false;
        for i in 0..n
            invariant
                n == self.content.parts@.len(),
                found == exists|j: int| 0 <= j < i && #[trigger] self.content.parts@[j] is Text,
        {
            match &self.content.parts[i] {
                ContentPart::Text { .. } => {
                    found = true;
                },
                _ => {},
            }
        }
        if found {
            Some(self.content.as_text())
        } else {
            None
        }
    }

    /// The assistant message that records this response.
    pub fn to_message(&self) -> (r: Message)
        ensures
            r.deep_view() == response_message(*self),
    {
        let mut parts = self.content.duplicate().parts;
        let n = self.tool_calls.len();
        let ghost base = self.content.parts@;
        for i in 0..n
            invariant
                n == self.tool_calls@.len(),
                base == self.content.parts@,
                parts@ == base + tool_use_parts(self.tool_calls@.take(i as int)),
        {
            let c = &self.tool_calls[i];
            parts.push(ContentPart::ToolUse { id: c.id.clone(), name: c.name.clone(), input: c.input.clone() });
            assert(self.tool_calls@.take(i + 1) == self.tool_calls@.take(i as int).push(self.tool_calls@[i as int]));
            assert(tool_use_parts(self.tool_calls@.take(i + 1)) =~= tool_use_parts(self.tool_calls@.take(i as int)).push(
                ContentPart::ToolUse { id: c.id, name: c.name, input: c.input }));
        }
        assert(self.tool_calls@.take(n as int) == self.tool_calls@);
        Message::new(Role::Assistant, Content { parts })
    }

    /// The message carrying a tool's result back to the model.
    pub fn tool_result_message(call_id: &str, name: &str, content: String, is_error: bool) -> (r: Message)
        ensures
            r.role matches Role::Tool { name: n, call_id: c } && n@ == name@ && c@ == call_id@,
            r.content.parts@.len() == 1,
            r.content.parts@[0] matches ContentPart::ToolResult { tool_use_id, content: c, is_error: e }
                && tool_use_id@ == call_id@ && c == content && e == is_error,
            r.meta.policy == CompactionPolicy::Normal,
    {
        let mut parts = Vec::new();
        parts.push(ContentPart::ToolResult { tool_use_id: String::from_str(call_id), content, is_error });
        Message::new(Role::Tool { name: String::from_str(name), call_id: String::from_str(call_id) }, Content { parts })
    }
}

} // verus!
