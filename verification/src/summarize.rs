//! Requests that ask the model to summarize a conversation or extract its
//! cognitive state, and the reading of their answers.
use crate::error::EngineError;
use crate::fences::{strip_fences_spec, strip_json_fences};
use crate::infer::{has_text_part, InferRequest, InferResponse};
use crate::json::{json_from_text, json_parse, json_pretty, json_pretty_text};
use crate::message::{copy_messages, parts_text, CompactionPolicy, Content, Message, Role};
use crate::text::{replace_all, replaced};
use serde_json::Value;
use vstd::prelude::*;

verus! {

/// Default system prompt for summarization.
pub const DEFAULT_SUMMARY_PROMPT: &'static str = "Summarize the conversation so far. Preserve: (1) key decisions made, (2) unresolved questions, (3) facts established, (4) current task state. Be concise but lose no critical information.";

/// Default system prompt template for extraction; `{schema}` is replaced by
/// the pretty-printed schema.
pub const DEFAULT_EXTRACT_PROMPT_TEMPLATE: &'static str = "Extract the current cognitive state from this conversation according to the following JSON schema. Return ONLY valid JSON, no explanation.\n\nSchema:\n{schema}";

/// Configuration of a summarization call.
#[derive(Debug, Clone, PartialEq, Eq)]
pub struct SummarizeConfig {
    /// System prompt.
    pub prompt: String,
    /// Max output tokens.
    pub max_tokens: u32,
    /// Policy of the summary message.
    pub output_policy: CompactionPolicy,
    /// Model to use, if any.
    pub model: Option<String>,
}

/// Configuration of an extraction call.
#[derive(Debug, Clone, PartialEq, Eq)]
pub struct ExtractConfig {
    /// System prompt template holding `{schema}`.
    pub prompt_template: String,
    /// Max output tokens.
    pub max_tokens: u32,
    /// Model to use, if any.
    pub model: Option<String>,
}

impl SummarizeConfig {
    /// The defaults: the default prompt, 2048 tokens, a pinned summary, no model.
    pub fn default_config() -> (r: SummarizeConfig)
        ensures
            r.prompt@ == DEFAULT_SUMMARY_PROMPT@,
            r.max_tokens == 2048,
            r.output_policy == CompactionPolicy::Pinned,
            r.model is None,
    {
        SummarizeConfig {
            prompt: String::from_str(DEFAULT_SUMMARY_PROMPT),
            max_tokens: 2048,
            output_policy: CompactionPolicy::Pinned,
            model: None,
        }
    }

    /// The summarization request: the messages, the prompt as system prompt,
    /// the token limit and the model.
    pub fn build_request(&self, messages: &[Message]) -> (r: InferRequest)
        ensures
            r.messages.deep_view() == messages.deep_view(),
            r.system matches Some(s) && s@ == self.prompt@,
            r.max_tokens == Some(self.max_tokens),
            r.model == self.model,
            r.tools@.len() == 0,
    {
        let mut request = InferRequest::new(copy_messages(messages));
        request.system = Some(self.prompt.clone());
        request.max_tokens = Some(self.max_tokens);
        request.model = self.model.clone();
        request
    }

    /// The summary message: the response's content as an assistant message
    /// with the configured policy; an answer without text halts.
    pub fn parse_response(&self, response: InferResponse) -> (r: Result<Message, EngineError>)
        ensures
            !has_text_part(response.content.parts@) || parts_text(response.content.parts@).len() == 0
                ==> (r matches Err(EngineError::Halted { reason }) && reason@
                == "summarization produced empty response"@),
            has_text_part(response.content.parts@) && parts_text(response.content.parts@).len() > 0
                ==> (r matches Ok(m) && m.role == Role::Assistant && m.content == response.content
                && m.meta.policy == self.output_policy),
    {
        let empty = match response.text() {
            Some(t) => t.as_str().unicode_len() == 0,
            None => true,
        };
        if empty {
            return Err(EngineError::Halted { reason: String::from_str("summarization produced empty response") });
        }
        let mut m = Message::new(Role::Assistant, response.content);
        m.meta.policy = self.output_policy;
        Ok(m)
    }
}

/// The system prompt of an extraction: the template with every `{schema}`
/// replaced by the pretty-printed schema.
pub open spec fn extract_system(template: Seq<char>, schema: Value) -> Seq<char> {
    replaced(template, "{schema}"@, json_pretty(schema))
}

/// The text an extraction answer is parsed from: the response text (empty
/// when there is none) with code fences stripped.
pub open spec fn extraction_text(response: InferResponse) -> Seq<char> {
    strip_fences_spec(if has_text_part(response.content.parts@) {
        parts_text(response.content.parts@)
    } else {
        Seq::empty()
    })
}

impl ExtractConfig {
    /// The defaults: the default template, 4096 tokens, no model.
    pub fn default_config() -> (r: ExtractConfig)
        ensures
            r.prompt_template@ == DEFAULT_EXTRACT_PROMPT_TEMPLATE@,
            r.max_tokens == 4096,
            r.model is None,
    {
        ExtractConfig {
            prompt_template: String::from_str(DEFAULT_EXTRACT_PROMPT_TEMPLATE),
            max_tokens: 4096,
            model: None,
        }
    }

    /// The extraction request: the messages, the template with the schema
    /// filled in as system prompt, the token limit and the model.
    pub fn build_request(&self, messages: &[Message], schema: &Value) -> (r: InferRequest)
        ensures
            r.messages.deep_view() == messages.deep_view(),
            r.system matches Some(s) && s@ == extract_system(self.prompt_template@, *schema),
            r.max_tokens == Some(self.max_tokens),
            r.model == self.model,
            r.tools@.len() == 0,
    {
        proof {
            reveal_strlit("{schema}");
        }
        let pretty = json_pretty_text(schema);
        let system = replace_all(self.prompt_template.as_str(), "{schema}", pretty.as_str());
        let mut request = InferRequest::new(copy_messages(messages));
        request.system = Some(system);
        request.max_tokens = Some(self.max_tokens);
        request.model = self.model.clone();
        request
    }

    /// The extracted state: the answer's text without fences, parsed as
    /// JSON; a parse failure halts with the parser's message.
    pub fn parse_response(&self, response: &InferResponse) -> (r: Result<Value, EngineError>)
        ensures
            match json_parse(extraction_text(*response)) {
                Ok(v) => r == Ok::<Value, EngineError>(v),
                Err(e) => r matches Err(EngineError::Halted { reason }) && reason@
                    == "cognitive state extraction failed to parse: "@ + e,
            },
    {
        proof {
            reveal_strlit("cognitive state extraction failed to parse: ");
        }
        let text = match response.text() {
            Some(t) => t,
            None => String::new(),
        };
        let trimmed = strip_json_fences(text.as_str());
        match json_from_text(trimmed) {
            Ok(v) => Ok(v),
            Err(e) => Err(
                EngineError::Halted {
                    reason: String::from_str("cognitive state extraction failed to parse: ").concat(e.as_str()),
                },
            ),
        }
    }
}

impl Default for SummarizeConfig {
    fn default() -> (r: SummarizeConfig)
        ensures
            r.prompt@ == DEFAULT_SUMMARY_PROMPT@,
            r.max_tokens == 2048,
            r.output_policy == CompactionPolicy::Pinned,
            r.model is None,
    {
        SummarizeConfig::default_config()
    }
}

impl Default for ExtractConfig {
    fn default() -> (r: ExtractConfig)
        ensures
            r.prompt_template@ == DEFAULT_EXTRACT_PROMPT_TEMPLATE@,
            r.max_tokens == 4096,
            r.model is None,
    {
        ExtractConfig::default_config()
    }
}

} // verus!
