//! Structured output: what the model must return, and extracting and
//! validating it from a response.
use crate::fences::{extract_json_block, json_block_spec};
use crate::infer::{has_text_part, InferResponse, ToolCall, ToolSchema};
use crate::json::{
    json_array, json_from_text, json_get, json_items, json_member, json_object, json_parse,
    json_string, json_string_value,
};
use crate::message::parts_text;
use serde_json::Value;
use vstd::prelude::*;

verus! {

/// How the model returns structured output.
#[derive(Debug, Clone, Copy, PartialEq, Eq, Structural)]
pub enum OutputMode {
    /// The model calls a result tool whose input carries the output.
    ToolCall,
    /// The model writes JSON in its text.
    TextJson,
}

/// Why structured output could not be extracted.
#[derive(Debug, Clone, PartialEq)]
pub enum OutputError {
    /// No output of the expected kind was produced.
    NoOutput,
    /// Output was produced but failed validation.
    ValidationFailed {
        /// Why it failed.
        message: String,
        /// The value that failed, when there is one.
        raw: Option<Value>,
    },
}

/// The default name of the result tool.
pub const RETURN_RESULT_TOOL: &'static str = "return_result";

/// An output schema: the JSON Schema the output must follow, how the model
/// returns it, and a validator.
pub struct OutputSchema<F> {
    /// JSON Schema of the output.
    pub schema: Value,
    /// How the model returns it.
    pub mode: OutputMode,
    /// Validation retries before giving up.
    pub max_retries: u32,
    /// Result tool name (tool-call mode).
    pub tool_name: String,
    /// Result tool description (tool-call mode).
    pub tool_description: String,
    /// Validator: takes raw JSON, returns the validated value or a message.
    pub validator: F,
}

/// Whether `t` is the result tool of an output schema: named and described
/// as configured, with an input schema that is an object of exactly the
/// members `type` (`"object"`), `properties` (exactly the member `result`,
/// which is the output schema) and `required` (the one string `result`).
pub open spec fn is_result_tool(schema: Value, name: String, description: String, t: ToolSchema) -> bool {
    let s = t.input_schema;
    &&& t.name == name
    &&& t.description == description
    &&& json_string(s) is None
    &&& json_items(s) is None
    &&& json_member(s, "type"@) matches Some(ty) && json_string(ty) == Some("object"@)
    &&& json_member(s, "properties"@) matches Some(p) && {
        &&& json_member(p, "result"@) == Some(schema)
        &&& json_string(p) is None
        &&& json_items(p) is None
        &&& forall|k: Seq<char>| k != "result"@ ==> #[trigger] json_member(p, k) is None
    }
    &&& json_member(s, "required"@) matches Some(q) && json_items(q) matches Some(items) && items.len() == 1
        && json_string(items[0]) == Some("result"@)
    &&& forall|k: Seq<char>|
        k != "type"@ && k != "properties"@ && k != "required"@ ==> #[trigger] json_member(s, k) is None
}

/// The text of an output error.
pub open spec fn output_error_text(e: OutputError) -> Seq<char> {
    match e {
        OutputError::NoOutput => "model did not produce structured output"@,
        OutputError::ValidationFailed { message, .. } => "output validation failed: "@ + message@,
    }
}

impl OutputError {
    /// The error's text.
    pub fn to_text(&self) -> (r: String)
        ensures
            r@ == output_error_text(*self),
    {
        proof {
            reveal_strlit("model did not produce structured output");
            reveal_strlit("output validation failed: ");
        }
        match self {
            OutputError::NoOutput => String::from_str("model did not produce structured output"),
            OutputError::ValidationFailed { message, .. } => String::from_str(
                "output validation failed: ",
            ).concat(message.as_str()),
        }
    }
}

/// Index of the first tool call with the given name, if any.
pub open spec fn first_call_named(calls: Seq<ToolCall>, name: Seq<char>) -> Option<int> {
    if exists|i: int| 0 <= i < calls.len() && #[trigger] calls[i].name@ == name {
        Some(
            choose|i: int|
                0 <= i < calls.len() && calls[i].name@ == name && (forall|j: int|
                    0 <= j < i ==> #[trigger] calls[j].name@ != name),
        )
    } else {
        None
    }
}

/// Whether `i` is the first tool call with the given name.
pub open spec fn is_first_call_named(calls: Seq<ToolCall>, name: Seq<char>, i: int) -> bool {
    0 <= i < calls.len() && calls[i].name@ == name && forall|j: int|
        0 <= j < i ==> #[trigger] calls[j].name@ != name
}

impl<F: Fn(&Value) -> Result<Value, String>> OutputSchema<F> {
    /// Whether the validator can be called on any value.
    pub open spec fn validator_total(&self) -> bool {
        forall|v: Value| #[trigger] call_requires(self.validator, (&v,))
    }

    /// Tool-call mode: three retries, the `return_result` tool.
    pub fn tool_call(schema: Value, validator: F) -> (r: Self)
        ensures
            r.schema == schema,
            r.mode == OutputMode::ToolCall,
            r.max_retries == 3,
            r.tool_name@ == RETURN_RESULT_TOOL@,
            r.tool_description@ == "Return a structured result. Call this tool with the final answer."@,
            r.validator == validator,
    {
        OutputSchema {
            schema,
            mode: OutputMode::ToolCall,
            max_retries: 3,
            tool_name: String::from_str(RETURN_RESULT_TOOL),
            tool_description: String::from_str(
                "Return a structured result. Call this tool with the final answer.",
            ),
            validator,
        }
    }

    /// Text-JSON mode: three retries, no tool description.
    pub fn text_json(schema: Value, validator: F) -> (r: Self)
        ensures
            r.schema == schema,
            r.mode == OutputMode::TextJson,
            r.max_retries == 3,
            r.tool_name@ == RETURN_RESULT_TOOL@,
            r.tool_description@ == Seq::<char>::empty(),
            r.validator == validator,
    {
        OutputSchema {
            schema,
            mode: OutputMode::TextJson,
            max_retries: 3,
            tool_name: String::from_str(RETURN_RESULT_TOOL),
            tool_description: String::new(),
            validator,
        }
    }

    /// Set the number of validation retries.
    pub fn with_max_retries(self, max: u32) -> (r: Self)
        ensures
            r.max_retries == max,
            r.schema == self.schema,
            r.mode == self.mode,
            r.tool_name == self.tool_name,
            r.tool_description == self.tool_description,
            r.validator == self.validator,
    {
        OutputSchema { max_retries: max, ..self }
    }

    /// Set the result tool's name.
    pub fn with_tool_name(self, name: String) -> (r: Self)
        ensures
            r.tool_name == name,
            r.schema == self.schema,
            r.mode == self.mode,
            r.max_retries == self.max_retries,
            r.tool_description == self.tool_description,
            r.validator == self.validator,
    {
        OutputSchema { tool_name: name, ..self }
    }

    /// The result tool: named and described as configured; its input is an
    /// object whose required `result` property follows the output schema.
    pub fn tool_schema(&self) -> (r: ToolSchema)
        ensures
            is_result_tool(self.schema, self.tool_name, self.tool_description, r),
    {
        proof {
            reveal_strlit("type");
            reveal_strlit("object");
            reveal_strlit("properties");
            reveal_strlit("result");
            reveal_strlit("required");
        }
        let mut props: Vec<(String, Value)> = Vec::new();
        props.push((String::from_str("result"), self.schema.clone()));
        let ghost pv = props@;
        assert(pv[0].0@ == "result"@);
        let properties = json_object(props);
        assert(json_member(properties, pv[0].0@) == Some(pv[0].1));
        let mut required_items: Vec<Value> = Vec::new();
        required_items.push(json_string_value("result"));
        let required = json_array(required_items);
        let mut entries: Vec<(String, Value)> = Vec::new();
        entries.push((String::from_str("type"), json_string_value("object")));
        entries.push((String::from_str("properties"), properties));
        entries.push((String::from_str("required"), required));
        let ghost e = entries@;
        assert(e[0].0@ == "type"@ && e[1].0@ == "properties"@ && e[2].0@ == "required"@);
        assert(e[0].0@.len() == 4 && e[1].0@.len() == 10 && e[2].0@.len() == 8);
        assert(e[0].0@ != e[1].0@ && e[0].0@ != e[2].0@ && e[1].0@ != e[2].0@);
        let input_schema = json_object(entries);
        assert(json_member(input_schema, e[0].0@) == Some(e[0].1));
        assert(json_member(input_schema, e[1].0@) == Some(e[1].1));
        assert(json_member(input_schema, e[2].0@) == Some(e[2].1));
        ToolSchema {
            name: self.tool_name.clone(),
            description: self.tool_description.clone(),
            input_schema,
        }
    }

    /// Run the validator on a value.
    pub fn validate(&self, value: &Value) -> (r: Result<Value, String>)
        requires
            self.validator_total(),
        ensures
            call_ensures(self.validator, (value,), r),
    {
        assert(call_requires(self.validator, (value,)));
        (self.validator)(value)
    }

    /// Extract and validate structured output from a response.
    ///
    /// Tool-call mode: the first call of the result tool must carry a
    /// `result` member, which is validated. Text-JSON mode: the response text
    /// (or the first fenced block in it) must parse as JSON, which is
    /// validated.
    pub fn extract(&self, response: &InferResponse) -> (r: Result<Value, OutputError>)
        requires
            self.validator_total(),
        ensures
            self.mode == OutputMode::ToolCall ==> extract_tool_call_outcome(
                self.validator,
                self.tool_name@,
                response.tool_calls@,
                r,
            ),
            self.mode == OutputMode::TextJson ==> extract_text_outcome(
                self.validator,
                response,
                r,
            ),
    {
        match self.mode {
            OutputMode::ToolCall => self.extract_tool_call(response),
            OutputMode::TextJson => self.extract_text_json(response),
        }
    }

    fn extract_tool_call(&self, response: &InferResponse) -> (r: Result<Value, OutputError>)
        requires
            self.validator_total(),
        ensures
            extract_tool_call_outcome(self.validator, self.tool_name@, response.tool_calls@, r),
    {
        let n = response.tool_calls.len();
        let mut found: Option<usize> = None;
        let mut i: usize = 0;
        while i < n
            invariant
                n == response.tool_calls@.len(),
                i <= n,
                found is None ==> forall|j: int| 0 <= j < i ==> #[trigger] response.tool_calls@[j].name@ != self.tool_name@,
                found matches Some(k) ==> is_first_call_named(response.tool_calls@, self.tool_name@, k as int),
            decreases n - i,
        {
            if found.is_none() && response.tool_calls[i].name == self.tool_name {
                found = Some(i);
            }
            i = i + 1;
        }
        match found {
            None => Err(OutputError::NoOutput),
            Some(k) => {
                let call = &response.tool_calls[k];
                match json_get(&call.input, "result") {
                    None => {
                        proof {
                            reveal_strlit("missing 'result' field in tool call input");
                        }
                        Err(OutputError::ValidationFailed {
                            message: String::from_str("missing 'result' field in tool call input"),
                            raw: Some(call.input.clone()),
                        })
                    },
                    Some(result) => match {
                        assert(call_requires(self.validator, (&result,)));
                        (self.validator)(&result)
                    } {
                        Ok(v) => Ok(v),
                        Err(message) => Err(OutputError::ValidationFailed { message, raw: Some(result) }),
                    },
                }
            },
        }
    }

    fn extract_text_json(&self, response: &InferResponse) -> (r: Result<Value, OutputError>)
        requires
            self.validator_total(),
        ensures
            extract_text_outcome(self.validator, response, r),
    {
        let text = match response.text() {
            None => {
                return Err(OutputError::NoOutput);
            },
            Some(t) => t,
        };
        if text.as_str().unicode_len() == 0 {
            return Err(OutputError::NoOutput);
        }
        let json_str = match extract_json_block(text.as_str()) {
            Some(block) => block,
            None => text.as_str(),
        };
        match json_from_text(json_str) {
            Err(e) => {
                proof {
                    reveal_strlit("JSON parse error: ");
                }
                Err(OutputError::ValidationFailed {
                    message: String::from_str("JSON parse error: ").concat(e.as_str()),
                    raw: None,
                })
            },
            Ok(value) => match {
                assert(call_requires(self.validator, (&value,)));
                (self.validator)(&value)
            } {
                Ok(v) => Ok(v),
                Err(message) => Err(OutputError::ValidationFailed { message, raw: Some(value) }),
            },
        }
    }
}

/// The outcome of tool-call extraction: no call of the result tool gives
/// `NoOutput`; a first call without a `result` member fails validation with
/// its input as the raw value; otherwise the validator decides on `result`.
pub open spec fn extract_tool_call_outcome<F: Fn(&Value) -> Result<Value, String>>(
    validator: F,
    tool_name: Seq<char>,
    calls: Seq<ToolCall>,
    r: Result<Value, OutputError>,
) -> bool {
    if forall|j: int| 0 <= j < calls.len() ==> #[trigger] calls[j].name@ != tool_name {
        r == Err::<Value, OutputError>(OutputError::NoOutput)
    } else {
        exists|k: int|
            #[trigger] is_first_call_named(calls, tool_name, k) && match json_member(
                calls[k].input,
                "result"@,
            ) {
                None => r matches Err(OutputError::ValidationFailed { message, raw })
                    && message@ == "missing 'result' field in tool call input"@ && raw == Some(
                    calls[k].input,
                ),
                Some(result) => validated_outcome(validator, result, r),
            }
    }
}

/// The outcome of validating `value`: the validator's `Ok` passes through;
/// its `Err(message)` becomes a validation failure with `value` as raw.
pub open spec fn validated_outcome<F: Fn(&Value) -> Result<Value, String>>(
    validator: F,
    value: Value,
    r: Result<Value, OutputError>,
) -> bool {
    exists|out: Result<Value, String>|
        #[trigger] call_ensures(validator, (&value,), out) && match out {
            Ok(v) => r == Ok::<Value, OutputError>(v),
            Err(message) => r == Err::<Value, OutputError>(
                OutputError::ValidationFailed { message, raw: Some(value) },
            ),
        }
}

/// The outcome of text-JSON extraction: no text or empty text gives
/// `NoOutput`; the first fenced block (or the whole text) must parse, else
/// the parse error is reported; the parsed value is validated.
pub open spec fn extract_text_outcome<F: Fn(&Value) -> Result<Value, String>>(
    validator: F,
    response: &InferResponse,
    r: Result<Value, OutputError>,
) -> bool {
    let parts = response.content.parts@;
    if !has_text_part(parts) || parts_text(parts).len() == 0 {
        r == Err::<Value, OutputError>(OutputError::NoOutput)
    } else {
        let text = parts_text(parts);
        let json_text = match json_block_spec(text) {
            Some(b) => b,
            None => text,
        };
        match json_parse(json_text) {
            Err(e) => r matches Err(OutputError::ValidationFailed { message, raw })
                && message@ == "JSON parse error: "@ + e && raw is None,
            Ok(value) => validated_outcome(validator, value, r),
        }
    }
}

/// Tool-call extraction: without a call of the result tool there is no
/// output; a value comes back only as what the validator accepted for the
/// `result` member of the first such call.
pub proof fn law_extract_tool_call<F: Fn(&Value) -> Result<Value, String>>(
    validator: F,
    tool_name: Seq<char>,
    calls: Seq<ToolCall>,
    r: Result<Value, OutputError>,
)
    requires
        extract_tool_call_outcome(validator, tool_name, calls, r),
    ensures
        (forall|j: int| 0 <= j < calls.len() ==> #[trigger] calls[j].name@ != tool_name) ==> r == Err::<
            Value,
            OutputError,
        >(OutputError::NoOutput),
        r matches Ok(v) ==> exists|k: int|
            #[trigger] is_first_call_named(calls, tool_name, k) && (json_member(calls[k].input, "result"@) matches Some(
                res,
            ) && call_ensures(validator, (&res,), Ok::<Value, String>(v))),
        r is Ok ==> exists|j: int| 0 <= j < calls.len() && #[trigger] calls[j].name@ == tool_name,
{
    if r is Ok {
        let k = choose|k: int|
            #[trigger] is_first_call_named(calls, tool_name, k) && match json_member(calls[k].input, "result"@) {
                None => r matches Err(OutputError::ValidationFailed { message, raw }) && message@
                    == "missing 'result' field in tool call input"@ && raw == Some(calls[k].input),
                Some(result) => validated_outcome(validator, result, r),
            };
        assert(calls[k].name@ == tool_name);
    }
}

/// Text-JSON extraction: without text there is no output; a value comes back
/// only as what the validator accepted for the parsed JSON of the first
/// fenced block, or of the whole text when there is no block.
pub proof fn law_extract_text<F: Fn(&Value) -> Result<Value, String>>(
    validator: F,
    response: &InferResponse,
    r: Result<Value, OutputError>,
)
    requires
        extract_text_outcome(validator, response, r),
    ensures
        !has_text_part(response.content.parts@) ==> r == Err::<Value, OutputError>(OutputError::NoOutput),
        r matches Ok(v) ==> has_text_part(response.content.parts@) && exists|value: Value|
            json_parse(
                match json_block_spec(parts_text(response.content.parts@)) {
                    Some(b) => b,
                    None => parts_text(response.content.parts@),
                },
            ) == Ok::<Value, Seq<char>>(value) && #[trigger] call_ensures(validator, (&value,), Ok::<Value, String>(v)),
{
    if r is Ok {
        let parts = response.content.parts@;
        let text = parts_text(parts);
        let jt = match json_block_spec(text) {
            Some(b) => b,
            None => text,
        };
        let value = json_parse(jt)->Ok_0;
        let out = choose|out: Result<Value, String>|
            #[trigger] call_ensures(validator, (&value,), out) && match out {
                Ok(v) => r == Ok::<Value, OutputError>(v),
                Err(message) => r == Err::<Value, OutputError>(
                    OutputError::ValidationFailed { message, raw: Some(value) },
                ),
            };
        assert(out == Ok::<Value, String>(r->Ok_0));
        assert(call_ensures(validator, (&value,), Ok::<Value, String>(r->Ok_0)));
    }
}

} // verus!
