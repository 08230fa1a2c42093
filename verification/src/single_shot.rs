//! The single-shot operator: one model call with the input as the only user
//! message, no tools, and the answer returned as it is.
use crate::infer::TokenUsage;
use crate::json::json_is_null;
use crate::message::{Content, ContentPart, Message, MessageModel, Role, CompactionPolicy};
use crate::money::{decimal_mantissa, decimal_scale, decimal_zero};
use crate::operator::{ExitReason, OperatorInput, OperatorMetadata, OperatorOutput};
use crate::react::resolved_system;
use crate::react_run::{ProviderRequest, ProviderResponse};
use vstd::prelude::*;

verus! {

/// Static configuration of a single-shot operator.
#[derive(Debug, Clone, PartialEq, Eq)]
pub struct SingleShotConfig {
    /// Base system prompt.
    pub system_prompt: String,
    /// Default model identifier (empty for none).
    pub default_model: String,
    /// Default max tokens per response.
    pub default_max_tokens: u32,
}

/// The model of a call: the request's override, else the default unless it
/// is empty.
pub open spec fn is_resolved_model(config: SingleShotConfig, input: OperatorInput, r: Option<String>) -> bool {
    match input.config {
        Some(c) if c.model is Some => r == c.model,
        _ => if config.default_model@.len() == 0 {
            r is None
        } else {
            r matches Some(m) && m@ == config.default_model@
        },
    }
}

/// The system prompt of a call: the base prompt, then a newline and the
/// request's addendum when there is one.
pub open spec fn resolved_system_of(config: SingleShotConfig, input: OperatorInput) -> Seq<char> {
    resolved_system(
        config.system_prompt@,
        match input.config {
            Some(c) => c.system_addendum,
            None => None,
        },
    )
}

/// The system prompt of a single-shot call: with a per-request addendum it
/// is the base prompt, a newline and the addendum (never empty); without one
/// it is the base prompt.
pub proof fn law_single_shot_system(config: SingleShotConfig, input: OperatorInput)
    ensures
        input.config matches Some(c) ==> (c.system_addendum matches Some(a) ==> (resolved_system_of(config, input)
            == config.system_prompt@ + "\n"@ + a@ && resolved_system_of(config, input).len() > 0)),
        !(input.config matches Some(c) && c.system_addendum is Some) ==> resolved_system_of(config, input)
            == config.system_prompt@,
{
    reveal_strlit("\n");
}

impl SingleShotConfig {
    /// The defaults: empty prompt and model, 4096 tokens.
    pub fn default_config() -> (r: SingleShotConfig)
        ensures
            r.system_prompt@.len() == 0,
            r.default_model@.len() == 0,
            r.default_max_tokens == 4096,
    {
        SingleShotConfig { system_prompt: String::new(), default_model: String::new(), default_max_tokens: 4096 }
    }

    /// The model for a request.
    pub fn resolve_model(&self, input: &OperatorInput) -> (r: Option<String>)
        ensures
            is_resolved_model(*self, *input, r),
            input.config matches Some(c) ==> (c.model matches Some(m) ==> r == Some(m)),
            !(input.config matches Some(c) && c.model is Some) ==> (if self.default_model@.len() == 0 {
                r is None
            } else {
                r matches Some(m) && m@ == self.default_model@
            }),
    {
        let chosen = match &input.config {
            Some(c) => c.model.clone(),
            None => None,
        };
        match chosen {
            Some(m) => Some(m),
            None => if self.default_model.as_str().unicode_len() == 0 {
                None
            } else {
                Some(self.default_model.clone())
            },
        }
    }

    /// The system prompt for a request.
    pub fn resolve_system(&self, input: &OperatorInput) -> (r: String)
        ensures
            r@ == resolved_system_of(*self, *input),
            input.config matches Some(c) ==> (c.system_addendum matches Some(a) ==> r@ == self.system_prompt@
                + "\n"@ + a@),
            !(input.config matches Some(c) && c.system_addendum is Some) ==> r@ == self.system_prompt@,
    {
        proof {
            reveal_strlit("\n");
        }
        let addendum = match &input.config {
            Some(c) => c.system_addendum.clone(),
            None => None,
        };
        match addendum {
            Some(a) => self.system_prompt.clone().concat("\n").concat(a.as_str()),
            None => self.system_prompt.clone(),
        }
    }

    /// The request: the input as the only user message, no tools, the
    /// default token limit, the system prompt unless it is empty, and the
    /// input's passthrough.
    pub fn request(&self, input: &OperatorInput) -> (r: ProviderRequest)
        ensures
            is_resolved_model(*self, *input, r.model),
            input.config matches Some(c) ==> (c.model matches Some(m) ==> r.model == Some(m)),
            !(input.config matches Some(c) && c.model is Some) ==> (if self.default_model@.len() == 0 {
                r.model is None
            } else {
                r.model matches Some(m) && m@ == self.default_model@
            }),
            r.messages.deep_view() == seq![
                MessageModel { role: Role::User, parts: input.message.parts@, policy: CompactionPolicy::Normal },
            ],
            r.tools@.len() == 0,
            r.max_tokens == Some(self.default_max_tokens),
            resolved_system_of(*self, *input).len() == 0 ==> r.system is None,
            resolved_system_of(*self, *input).len() > 0 ==> (r.system matches Some(s) && s@
                == resolved_system_of(*self, *input)),
            r.extra == input.metadata,
            input.config matches Some(c) ==> (c.system_addendum matches Some(a) ==> (r.system matches Some(s)
                && s@ == self.system_prompt@ + "\n"@ + a@)),
            !(input.config matches Some(c) && c.system_addendum is Some) ==> (if self.system_prompt@.len() == 0 {
                r.system is None
            } else {
                r.system matches Some(s) && s@ == self.system_prompt@
            }),
    {
        proof {
            law_single_shot_system(*self, *input);
        }
        let model = self.resolve_model(input);
        let system = self.resolve_system(input);
        let m = Message::new(Role::User, input.message.duplicate());
        let mut messages: Vec<Message> = Vec::new();
        messages.push(m);
        assert(messages.deep_view() =~= seq![m.deep_view()]);
        let system = if system.as_str().unicode_len() == 0 {
            None
        } else {
            Some(system)
        };
        ProviderRequest {
            model,
            messages,
            tools: Vec::new(),
            max_tokens: Some(self.default_max_tokens),
            system,
            extra: input.metadata.clone(),
        }
    }
}

/// The output of a single-shot call: the response's content, complete, with
/// its usage, its cost (zero when not reported), one turn, no dispatches and
/// no effects.
pub fn single_shot_output(response: ProviderResponse, elapsed_ms: u64) -> (r: OperatorOutput)
    ensures
        r.message.parts == response.content,
        r.exit_reason == ExitReason::Complete,
        r.metadata.tokens_in == response.usage.input_tokens,
        r.metadata.tokens_out == response.usage.output_tokens,
        match response.cost {
            Some(c) => r.metadata.cost == c,
            None => decimal_mantissa(r.metadata.cost) == 0 && decimal_scale(r.metadata.cost) == 0,
        },
        r.metadata.turns_used == 1,
        r.metadata.sub_dispatches@.len() == 0,
        r.metadata.duration_ms == elapsed_ms,
        r.effects@.len() == 0,
{
    let cost = match response.cost {
        Some(c) => c,
        None => decimal_zero(),
    };
    let metadata = OperatorMetadata::new(
        response.usage.input_tokens,
        response.usage.output_tokens,
        cost,
        1,
        Vec::new(),
        elapsed_ms,
    );
    OperatorOutput::new(Content { parts: response.content }, ExitReason::Complete, metadata, Vec::new())
}

impl Default for SingleShotConfig {
    fn default() -> (r: SingleShotConfig)
        ensures
            r.system_prompt@.len() == 0,
            r.default_model@.len() == 0,
            r.default_max_tokens == 4096,
    {
        SingleShotConfig::default_config()
    }
}

} // verus!
