//! Decisions of the ReAct operator: configuration resolution, the tools
//! offered to the model (including the effect tools), turning effect-tool
//! calls into effects, and scope parsing.
use crate::effect::{Effect, Scope};
use crate::infer::ToolSchema;
use crate::json::{
    json_array, json_as_str, json_get, json_is_null, json_items, json_member, json_null,
    json_object, json_string, json_string_value,
};
use crate::message::Message;
use crate::operator::OperatorConfig;
use crate::react_run::ProviderRequest;
use crate::text::{has_prefix, same_text, strip_prefix_text};
use rust_decimal::Decimal;
use serde_json::Value;
use vstd::prelude::*;

verus! {

/// Static configuration of a ReAct operator (the compaction reserve, a
/// fraction, and the model selector, a callback, are kept by the runtime).
#[derive(Debug, Clone, PartialEq, Eq)]
pub struct ReactConfig {
    /// Base system prompt.
    pub system_prompt: String,
    /// Default model identifier (empty for none).
    pub default_model: String,
    /// Default max tokens per response.
    pub default_max_tokens: u32,
    /// Default max turns before stopping.
    pub default_max_turns: u32,
    /// Maximum total tool calls across all turns; `None` is unlimited.
    pub max_tool_calls: Option<u32>,
    /// Maximum run of identical consecutive tool calls before the run is
    /// declared stuck; `None` disables the check.
    pub max_repeat_calls: Option<u32>,
}

/// Configuration of one run: defaults merged with the request's overrides.
#[derive(Debug, Clone)]
pub struct ResolvedConfig {
    /// Model to use, if any.
    pub model: Option<String>,
    /// System prompt.
    pub system: String,
    /// Turn limit.
    pub max_turns: u32,
    /// Cost limit.
    pub max_cost: Option<Decimal>,
    /// Time limit in milliseconds.
    pub max_duration_ms: Option<u64>,
    /// Names of the tools the model may use.
    pub allowed_operators: Option<Vec<String>>,
    /// Max tokens per response.
    pub max_tokens: u32,
}

impl ReactConfig {
    /// The defaults: empty prompt and model, 4096 tokens, 10 turns, no
    /// tool-call or repeat limits.
    pub fn default_config() -> (r: ReactConfig)
        ensures
            r.system_prompt@.len() == 0,
            r.default_model@.len() == 0,
            r.default_max_tokens == 4096,
            r.default_max_turns == 10,
            r.max_tool_calls is None,
            r.max_repeat_calls is None,
    {
        ReactConfig {
            system_prompt: String::new(),
            default_model: String::new(),
            default_max_tokens: 4096,
            default_max_turns: 10,
            max_tool_calls: None,
            max_repeat_calls: None,
        }
    }
}

/// The system prompt of a run: the base prompt, followed by a newline and the
/// addendum when there is one.
pub open spec fn resolved_system(base: Seq<char>, addendum: Option<String>) -> Seq<char> {
    match addendum {
        Some(a) => base + "\n"@ + a@,
        None => base,
    }
}

/// The contents of an optional list of names.
pub open spec fn names_of(o: Option<Vec<String>>) -> Option<Seq<String>> {
    match o {
        Some(v) => Some(v@),
        None => None,
    }
}

/// A copy of an optional list of names.
fn copy_names(o: &Option<Vec<String>>) -> (r: Option<Vec<String>>)
    ensures
        names_of(r) == names_of(*o),
{
    match o {
        Some(v) => {
            let c = v.clone();
            assert(c@ =~= v@);
            Some(c)
        },
        None => None,
    }
}

/// Whether `r` is `config` merged with the overrides `tc`.
pub open spec fn is_resolved(config: ReactConfig, tc: Option<OperatorConfig>, r: ResolvedConfig) -> bool {
    &&& r.system@ == resolved_system(
        config.system_prompt@,
        match tc {
            Some(c) => c.system_addendum,
            None => None,
        },
    )
    &&& match tc {
        Some(c) if c.model is Some => r.model == c.model,
        _ => if config.default_model@.len() == 0 {
            r.model is None
        } else {
            r.model matches Some(m) && m@ == config.default_model@
        },
    }
    &&& r.max_turns == match tc {
        Some(c) if c.max_turns is Some => c.max_turns.unwrap(),
        _ => config.default_max_turns,
    }
    &&& r.max_cost == match tc {
        Some(c) => c.max_cost,
        None => None,
    }
    &&& r.max_duration_ms == match tc {
        Some(c) => c.max_duration_ms,
        None => None,
    }
    &&& names_of(r.allowed_operators) == match tc {
        Some(c) => names_of(c.allowed_operators),
        None => None,
    }
    &&& r.max_tokens == config.default_max_tokens
}

/// A request's overrides win: its cost and time limits are the run's (no
/// limit without a request configuration), its turn limit replaces the
/// default, and its addendum follows the base prompt after a newline.
pub proof fn law_request_overrides(config: ReactConfig, tc: Option<OperatorConfig>, r: ResolvedConfig)
    requires
        is_resolved(config, tc, r),
    ensures
        tc matches Some(c) ==> r.max_cost == c.max_cost && r.max_duration_ms == c.max_duration_ms,
        tc is None ==> r.max_cost is None && r.max_duration_ms is None,
        tc matches Some(c) ==> (c.max_turns matches Some(t) ==> r.max_turns == t),
        !(tc matches Some(c) && c.max_turns is Some) ==> r.max_turns == config.default_max_turns,
        tc matches Some(c) ==> (c.system_addendum matches Some(a) ==> r.system@ == config.system_prompt@ + "\n"@
            + a@),
        !(tc matches Some(c) && c.system_addendum is Some) ==> r.system@ == config.system_prompt@,
{
}

/// Merge the operator's defaults with a request's overrides.
pub fn resolve_config(config: &ReactConfig, tc: &Option<OperatorConfig>) -> (r: ResolvedConfig)
    ensures
        is_resolved(*config, *tc, r),
        tc matches Some(c) ==> r.max_cost == c.max_cost && r.max_duration_ms == c.max_duration_ms,
        tc is None ==> r.max_cost is None && r.max_duration_ms is None,
        tc matches Some(c) ==> (c.max_turns matches Some(t) ==> r.max_turns == t),
        !(tc matches Some(c) && c.max_turns is Some) ==> r.max_turns == config.default_max_turns,
        tc matches Some(c) ==> (c.system_addendum matches Some(a) ==> r.system@ == config.system_prompt@ + "\n"@
            + a@),
        !(tc matches Some(c) && c.system_addendum is Some) ==> r.system@ == config.system_prompt@,
        r.max_tokens == config.default_max_tokens,
{
    proof {
        reveal_strlit("\n");
    }
    let addendum = match tc {
        Some(c) => c.system_addendum.clone(),
        None => None,
    };
    let system = match &addendum {
        Some(a) => config.system_prompt.clone().concat("\n").concat(a.as_str()),
        None => config.system_prompt.clone(),
    };
    let override_model = match tc {
        Some(c) => c.model.clone(),
        None => None,
    };
    let model = match override_model {
        Some(m) => Some(m),
        None => {
            if config.default_model.as_str().unicode_len() == 0 {
                None
            } else {
                Some(config.default_model.clone())
            }
        },
    };
    let max_turns = match tc {
        Some(c) => match c.max_turns {
            Some(t) => t,
            None => config.default_max_turns,
        },
        None => config.default_max_turns,
    };
    let (max_cost, max_duration_ms, allowed_operators) = match tc {
        Some(c) => (c.max_cost.clone(), c.max_duration_ms, copy_names(&c.allowed_operators)),
        None => (None, None, None),
    };
    ResolvedConfig {
        model,
        system,
        max_turns,
        max_cost,
        max_duration_ms,
        allowed_operators,
        max_tokens: config.default_max_tokens,
    }
}

/// The scope named by a scope string: `global`, `session:<id>`,
/// `workflow:<id>`, anything else a custom scope of that name.
pub open spec fn is_parsed_scope(s: Seq<char>, r: Scope) -> bool {
    if s == "global"@ {
        r is Global
    } else if has_prefix(s, "session:"@) {
        r matches Scope::Session(id) && id@ == s.skip(8)
    } else if has_prefix(s, "workflow:"@) {
        r matches Scope::Workflow(id) && id@ == s.skip(9)
    } else {
        r matches Scope::Custom(c) && c@ == s
    }
}

/// Parse a scope string.
pub fn parse_scope(s: &str) -> (r: Scope)
    ensures
        is_parsed_scope(s@, r),
{
    proof {
        reveal_strlit("global");
        reveal_strlit("session:");
        reveal_strlit("workflow:");
    }
    if same_text(s, "global") {
        return Scope::Global;
    }
    match strip_prefix_text(s, "session:") {
        Some(id) => {
            return Scope::Session(id);
        },
        None => {},
    }
    match strip_prefix_text(s, "workflow:") {
        Some(id) => {
            return Scope::Workflow(id);
        },
        None => {},
    }
    Scope::Custom(String::from_str(s))
}

/// The string held by member `key` of a JSON value, if both exist.
pub open spec fn member_str(v: Value, key: Seq<char>) -> Option<Seq<char>> {
    match json_member(v, key) {
        Some(m) => json_string(m),
        None => None,
    }
}

/// Whether `e` is a member value or, when the member is missing, `null`.
pub open spec fn member_or_null(v: Value, key: Seq<char>, e: Value) -> bool {
    match json_member(v, key) {
        Some(m) => e == m,
        None => json_is_null(e),
    }
}

/// The member string, or a default when missing or not a string.
pub open spec fn member_str_or(v: Value, key: Seq<char>, default: Seq<char>) -> Seq<char> {
    match member_str(v, key) {
        Some(s) => s,
        None => default,
    }
}

/// What a call of an effect tool declares: `write_memory` (scope, key, value),
/// `delete_memory` (scope, key), `delegate` (agent, message defaulting to
/// empty), `handoff` (agent, state defaulting to `null`) and `signal` (target,
/// signal type defaulting to `default`, data defaulting to `null`). A missing
/// required member, or a call of any other tool, declares nothing.
pub open spec fn is_effect_of(name: Seq<char>, input: Value, r: Option<Effect>) -> bool {
    if name == "write_memory"@ {
        if member_str(input, "scope"@) is Some && member_str(input, "key"@) is Some
            && json_member(input, "value"@) is Some {
            r matches Some(Effect::WriteMemory { scope, key, value })
                && is_parsed_scope(member_str(input, "scope"@).unwrap(), scope)
                && key@ == member_str(input, "key"@).unwrap()
                && value == json_member(input, "value"@).unwrap()
        } else {
            r is None
        }
    } else if name == "delete_memory"@ {
        if member_str(input, "scope"@) is Some && member_str(input, "key"@) is Some {
            r matches Some(Effect::DeleteMemory { scope, key })
                && is_parsed_scope(member_str(input, "scope"@).unwrap(), scope)
                && key@ == member_str(input, "key"@).unwrap()
        } else {
            r is None
        }
    } else if name == "delegate"@ {
        if member_str(input, "agent"@) is Some {
            r matches Some(Effect::Delegate { agent, message })
                && agent@ == member_str(input, "agent"@).unwrap()
                && message@ == member_str_or(input, "message"@, Seq::empty())
        } else {
            r is None
        }
    } else if name == "handoff"@ {
        if member_str(input, "agent"@) is Some {
            r matches Some(Effect::Handoff { agent, state })
                && agent@ == member_str(input, "agent"@).unwrap()
                && member_or_null(input, "state"@, state)
        } else {
            r is None
        }
    } else if name == "signal"@ {
        if member_str(input, "target"@) is Some {
            r matches Some(Effect::Signal { target, signal_type, data })
                && target@ == member_str(input, "target"@).unwrap()
                && signal_type@ == member_str_or(input, "signal_type"@, "default"@)
                && member_or_null(input, "data"@, data)
        } else {
            r is None
        }
    } else {
        r is None
    }
}

/// Effect tools: only the five effect tools declare anything; a
/// `write_memory` call with a string scope and key and a value declares the
/// write of exactly that key and value, a `delete_memory` call the deletion
/// of that key; `delegate`, `handoff` and `signal` name the agent or target
/// they were given.
pub proof fn law_effect_tools(name: Seq<char>, input: Value, r: Option<Effect>)
    requires
        is_effect_of(name, input, r),
    ensures
        r is Some ==> name == "write_memory"@ || name == "delete_memory"@ || name == "delegate"@ || name
            == "handoff"@ || name == "signal"@,
        name == "write_memory"@ ==> (json_member(input, "scope"@) matches Some(s) ==> (json_member(
            input,
            "key"@,
        ) matches Some(k) ==> (json_member(input, "value"@) matches Some(v) ==> (json_string(s) is Some
            && json_string(k) is Some ==> (r matches Some(Effect::WriteMemory { key, value, .. })
            && Some(key@) == json_string(k) && value == v))))),
        name == "write_memory"@ && json_member(input, "value"@) is None ==> r is None,
        name == "delete_memory"@ ==> (member_str(input, "scope"@) is Some ==> (member_str(input, "key"@) matches Some(
            k,
        ) ==> (r matches Some(Effect::DeleteMemory { key, .. }) && key@ == k))),
        name == "delegate"@ ==> (r is Some <==> member_str(input, "agent"@) is Some),
        name == "delegate"@ ==> (r matches Some(e) ==> (e matches Effect::Delegate { agent, .. } && member_str(
            input,
            "agent"@,
        ) == Some(agent@))),
        name == "handoff"@ ==> (r is Some <==> member_str(input, "agent"@) is Some),
        name == "signal"@ ==> (r is Some <==> member_str(input, "target"@) is Some),
{
    reveal_strlit("write_memory");
    reveal_strlit("delete_memory");
    reveal_strlit("delegate");
    reveal_strlit("handoff");
    reveal_strlit("signal");
    assert("delete_memory"@.len() == 13);
    assert("write_memory"@.len() == 12);
    assert("delegate"@.len() == 8);
    assert("handoff"@.len() == 7);
    assert("signal"@.len() == 6);
}

/// The string member `key` of `v`.
fn get_str(v: &Value, key: &str) -> (r: Option<String>)
    ensures
        match r {
            Some(s) => member_str(*v, key@) == Some(s@),
            None => member_str(*v, key@) is None,
        },
{
    match json_get(v, key) {
        Some(m) => json_as_str(&m),
        None => None,
    }
}

/// Member `key` of `v`, or `null` when missing.
fn get_or_null(v: &Value, key: &str) -> (r: Value)
    ensures
        member_or_null(*v, key@, r),
{
    match json_get(v, key) {
        Some(m) => m,
        None => json_null(),
    }
}

/// The effect declared by a call of an effect tool, if the call is one.
pub fn try_as_effect(name: &str, input: &Value) -> (r: Option<Effect>)
    ensures
        is_effect_of(name@, *input, r),
{
    proof {
        reveal_strlit("write_memory");
        reveal_strlit("delete_memory");
        reveal_strlit("delegate");
        reveal_strlit("handoff");
        reveal_strlit("signal");
        reveal_strlit("default");
    }
    if same_text(name, "write_memory") {
        let scope = get_str(input, "scope");
        let key = get_str(input, "key");
        let value = json_get(input, "value");
        match (scope, key, value) {
            (Some(s), Some(k), Some(v)) => Some(
                Effect::WriteMemory { scope: parse_scope(s.as_str()), key: k, value: v },
            ),
            _ => None,
        }
    } else if same_text(name, "delete_memory") {
        let scope = get_str(input, "scope");
        let key = get_str(input, "key");
        match (scope, key) {
            (Some(s), Some(k)) => Some(Effect::DeleteMemory { scope: parse_scope(s.as_str()), key: k }),
            _ => None,
        }
    } else if same_text(name, "delegate") {
        match get_str(input, "agent") {
            Some(agent) => {
                let message = match get_str(input, "message") {
                    Some(m) => m,
                    None => String::new(),
                };
                Some(Effect::Delegate { agent, message })
            },
            None => None,
        }
    } else if same_text(name, "handoff") {
        match get_str(input, "agent") {
            Some(agent) => Some(Effect::Handoff { agent, state: get_or_null(input, "state") }),
            None => None,
        }
    } else if same_text(name, "signal") {
        match get_str(input, "target") {
            Some(target) => {
                let signal_type = match get_str(input, "signal_type") {
                    Some(t) => t,
                    None => String::from_str("default"),
                };
                Some(Effect::Signal { target, signal_type, data: get_or_null(input, "data") })
            },
            None => None,
        }
    } else {
        None
    }
}

/// A property descriptor: name, optional JSON type, description.
pub type PropertySpec = (Seq<char>, Option<Seq<char>>, Seq<char>);

/// The view of an optional string.
pub open spec fn opt_text(o: Option<&str>) -> Option<Seq<char>> {
    match o {
        Some(t) => Some(t@),
        None => None,
    }
}

/// Views of property descriptors.
pub open spec fn property_specs(props: Seq<(&str, Option<&str>, &str)>) -> Seq<PropertySpec> {
    props.map_values(|d: (&str, Option<&str>, &str)| (d.0@, opt_text(d.1), d.2@))
}

/// Views of a list of strings.
pub open spec fn texts(items: Seq<&str>) -> Seq<Seq<char>> {
    items.map_values(|t: &str| t@)
}

/// Whether `v` is a property schema with this type (absent when `None`) and
/// description.
pub open spec fn is_property(v: Value, ty: Option<Seq<char>>, desc: Seq<char>) -> bool {
    &&& member_str(v, "description"@) == Some(desc)
    &&& match ty {
        Some(t) => member_str(v, "type"@) == Some(t),
        None => json_member(v, "type"@) is None,
    }
}

/// Whether `v` is an object schema with these properties and required names.
pub open spec fn is_object_schema(v: Value, props: Seq<PropertySpec>, required: Seq<Seq<char>>) -> bool {
    &&& member_str(v, "type"@) == Some("object"@)
    &&& json_member(v, "properties"@) matches Some(p) && forall|i: int|
        0 <= i < props.len() ==> (json_member(p, #[trigger] props[i].0) matches Some(pv)
            && is_property(pv, props[i].1, props[i].2))
    &&& json_member(v, "required"@) matches Some(q) && json_items(q) matches Some(items)
        && items.len() == required.len() && forall|i: int|
        0 <= i < required.len() ==> json_string(#[trigger] items[i]) == Some(required[i])
}

/// A property schema.
fn property(ty: Option<&str>, desc: &str) -> (r: Value)
    ensures
        is_property(r, opt_text(ty), desc@),
{
    proof {
        reveal_strlit("type");
        reveal_strlit("description");
    }
    let mut entries: Vec<(String, Value)> = Vec::new();
    match ty {
        Some(t) => {
            entries.push((String::from_str("type"), json_string_value(t)));
        },
        None => {},
    }
    entries.push((String::from_str("description"), json_string_value(desc)));
    let ghost e = entries@;
    assert(forall|i: int| 0 <= i < e.len() ==> e[i].0@ == "type"@ || e[i].0@ == "description"@);
    assert(e[e.len() - 1].0@ == "description"@);
    let r = json_object(entries);
    assert(json_member(r, e[e.len() - 1].0@) == Some(e[e.len() - 1].1));
    if ty.is_some() {
        assert(e[0].0@ == "type"@);
        assert(json_member(r, e[0].0@) == Some(e[0].1));
    } else {
        assert(e.len() == 1);
    }
    r
}

/// An object schema with these properties and required names.
fn object_schema(props: Vec<(&str, Option<&str>, &str)>, required: Vec<&str>) -> (r: Value)
    requires
        forall|i: int, j: int| 0 <= i < j < props@.len() ==> props@[i].0@ != props@[j].0@,
    ensures
        is_object_schema(r, property_specs(props@), texts(required@)),
{
    proof {
        reveal_strlit("type");
        reveal_strlit("object");
        reveal_strlit("properties");
        reveal_strlit("required");
    }
    let mut prop_entries: Vec<(String, Value)> = Vec::new();
    let n = props.len();
    let mut i: usize = 0;
    while i < n
        invariant
            n == props@.len(),
            i <= n,
            forall|a: int, b: int| 0 <= a < b < props@.len() ==> props@[a].0@ != props@[b].0@,
            prop_entries@.len() == i,
            forall|k: int|
                #![trigger prop_entries@[k]]
                0 <= k < i ==> prop_entries@[k].0@ == props@[k].0@ && is_property(
                    prop_entries@[k].1,
                    opt_text(props@[k].1),
                    props@[k].2@,
                ),
        decreases n - i,
    {
        let d = props[i];
        let key = String::from_str(d.0);
        let value = property(d.1, d.2);
        let ghost before = prop_entries@;
        prop_entries.push((key, value));
        assert(prop_entries@ == before.push((key, value)));
        i = i + 1;
    }
    assert(forall|a: int, b: int| 0 <= a < b < prop_entries@.len() ==> prop_entries@[a].0@ != prop_entries@[b].0@);
    let ghost pe = prop_entries@;
    let properties = json_object(prop_entries);
    assert forall|i: int| 0 <= i < property_specs(props@).len() implies (json_member(
        properties,
        #[trigger] property_specs(props@)[i].0,
    ) matches Some(pv) && is_property(pv, property_specs(props@)[i].1, property_specs(props@)[i].2)) by {
        assert(pe[i].0@ == props@[i].0@);
        assert(json_member(properties, pe[i].0@) == Some(pe[i].1));
    }
    let mut items: Vec<Value> = Vec::new();
    let m = required.len();
    for i in 0..m
        invariant
            m == required@.len(),
            items@.len() == i,
            forall|k: int| 0 <= k < i ==> json_string(#[trigger] items@[k]) == Some(required@[k]@),
    {
        items.push(json_string_value(required[i]));
    }
    let required_value = json_array(items);
    let mut entries: Vec<(String, Value)> = Vec::new();
    entries.push((String::from_str("type"), json_string_value("object")));
    entries.push((String::from_str("properties"), properties));
    entries.push((String::from_str("required"), required_value));
    let ghost e = entries@;
    assert(e[0].0@ == "type"@ && e[1].0@ == "properties"@ && e[2].0@ == "required"@);
    assert(e[0].0@.len() == 4 && e[1].0@.len() == 10 && e[2].0@.len() == 8);
    let r = json_object(entries);
    assert(json_member(r, e[0].0@) == Some(e[0].1));
    assert(json_member(r, e[1].0@) == Some(e[1].1));
    assert(json_member(r, e[2].0@) == Some(e[2].1));
    r
}

/// Names of the effect tools, in the order they are offered.
pub open spec fn effect_tool_names() -> Seq<Seq<char>> {
    seq!["write_memory"@, "delete_memory"@, "delegate"@, "handoff"@, "signal"@]
}

/// Descriptions of the effect tools.
pub open spec fn effect_tool_descriptions() -> Seq<Seq<char>> {
    seq![
        "Write a value to persistent memory."@,
        "Delete a value from persistent memory."@,
        "Delegate a task to another agent."@,
        "Hand off the conversation to another agent."@,
        "Send a signal to another workflow."@,
    ]
}

/// Properties of each effect tool's input.
pub open spec fn effect_tool_properties() -> Seq<Seq<PropertySpec>> {
    seq![
        seq![
            ("scope"@, Some("string"@), "Memory scope (e.g. 'global', 'session:id')"@),
            ("key"@, Some("string"@), "Memory key"@),
            ("value"@, None, "Value to store"@),
        ],
        seq![("scope"@, Some("string"@), "Memory scope"@), ("key"@, Some("string"@), "Memory key"@)],
        seq![
            ("agent"@, Some("string"@), "Agent ID to delegate to"@),
            ("message"@, Some("string"@), "Task description for the agent"@),
        ],
        seq![
            ("agent"@, Some("string"@), "Agent ID to hand off to"@),
            ("state"@, None, "State to pass to the next agent"@),
        ],
        seq![
            ("target"@, Some("string"@), "Target workflow ID"@),
            ("signal_type"@, Some("string"@), "Signal type identifier"@),
            ("data"@, None, "Signal payload data"@),
        ],
    ]
}

/// Required input members of each effect tool.
pub open spec fn effect_tool_required() -> Seq<Seq<Seq<char>>> {
    seq![
        seq!["scope"@, "key"@, "value"@],
        seq!["scope"@, "key"@],
        seq!["agent"@, "message"@],
        seq!["agent"@],
        seq!["target"@],
    ]
}

/// Whether `r` is the list of effect-tool schemas.
pub open spec fn are_effect_tool_schemas(r: Seq<ToolSchema>) -> bool {
    &&& r.len() == 5
    &&& forall|i: int| 0 <= i < 5 ==> {
        &&& (#[trigger] r[i]).name@ == effect_tool_names()[i]
        &&& r[i].description@ == effect_tool_descriptions()[i]
        &&& is_object_schema(r[i].input_schema, effect_tool_properties()[i], effect_tool_required()[i])
    }
}

fn effect_schema(
    name: &str,
    description: &str,
    props: Vec<(&str, Option<&str>, &str)>,
    required: Vec<&str>,
) -> (r: ToolSchema)
    requires
        forall|i: int, j: int| 0 <= i < j < props@.len() ==> props@[i].0@ != props@[j].0@,
    ensures
        r.name@ == name@,
        r.description@ == description@,
        is_object_schema(r.input_schema, property_specs(props@), texts(required@)),
{
    ToolSchema {
        name: String::from_str(name),
        description: String::from_str(description),
        input_schema: object_schema(props, required),
    }
}

/// Schemas of the effect tools the model can call: writing and deleting
/// memory, delegating, handing off and signalling.
pub fn effect_tool_schemas() -> (r: Vec<ToolSchema>)
    ensures
        are_effect_tool_schemas(r@),
{
    proof {
        reveal_strlit("scope");
        reveal_strlit("key");
        reveal_strlit("value");
        reveal_strlit("agent");
        reveal_strlit("message");
        reveal_strlit("state");
        reveal_strlit("target");
        reveal_strlit("signal_type");
        reveal_strlit("data");
    }
    let p0 = vec![
        ("scope", Some("string"), "Memory scope (e.g. 'global', 'session:id')"),
        ("key", Some("string"), "Memory key"),
        ("value", None, "Value to store"),
    ];
    let r0 = vec!["scope", "key", "value"];
    assert("scope"@[0] == 's' && "value"@[0] == 'v' && "agent"@[0] == 'a' && "state"@[0] == 's');
    assert(p0@[0].0@ == "scope"@ && p0@[1].0@ == "key"@ && p0@[2].0@ == "value"@);
    assert(property_specs(p0@) =~= effect_tool_properties()[0]);
    assert(texts(r0@) =~= effect_tool_required()[0]);
    let s0 = effect_schema("write_memory", "Write a value to persistent memory.", p0, r0);
    let p1 = vec![("scope", Some("string"), "Memory scope"), ("key", Some("string"), "Memory key")];
    let r1 = vec!["scope", "key"];
    assert(p1@[0].0@ == "scope"@ && p1@[1].0@ == "key"@);
    assert(property_specs(p1@) =~= effect_tool_properties()[1]);
    assert(texts(r1@) =~= effect_tool_required()[1]);
    let s1 = effect_schema("delete_memory", "Delete a value from persistent memory.", p1, r1);
    let p2 = vec![
        ("agent", Some("string"), "Agent ID to delegate to"),
        ("message", Some("string"), "Task description for the agent"),
    ];
    let r2 = vec!["agent", "message"];
    assert(p2@[0].0@ == "agent"@ && p2@[1].0@ == "message"@);
    assert(property_specs(p2@) =~= effect_tool_properties()[2]);
    assert(texts(r2@) =~= effect_tool_required()[2]);
    let s2 = effect_schema("delegate", "Delegate a task to another agent.", p2, r2);
    let p3 = vec![
        ("agent", Some("string"), "Agent ID to hand off to"),
        ("state", None, "State to pass to the next agent"),
    ];
    let r3 = vec!["agent"];
    assert(p3@[0].0@ == "agent"@ && p3@[1].0@ == "state"@);
    assert(property_specs(p3@) =~= effect_tool_properties()[3]);
    assert(texts(r3@) =~= effect_tool_required()[3]);
    let s3 = effect_schema("handoff", "Hand off the conversation to another agent.", p3, r3);
    let p4 = vec![
        ("target", Some("string"), "Target workflow ID"),
        ("signal_type", Some("string"), "Signal type identifier"),
        ("data", None, "Signal payload data"),
    ];
    let r4 = vec!["target"];
    assert(p4@[0].0@ == "target"@ && p4@[1].0@ == "signal_type"@ && p4@[2].0@ == "data"@);
    assert(property_specs(p4@) =~= effect_tool_properties()[4]);
    assert(texts(r4@) =~= effect_tool_required()[4]);
    let s4 = effect_schema("signal", "Send a signal to another workflow.", p4, r4);
    let r = vec![s0, s1, s2, s3, s4];
    assert(are_effect_tool_schemas(r@));
    r
}

/// Whether a name is in a list of names.
pub open spec fn name_in(names: Seq<String>, name: Seq<char>) -> bool {
    exists|i: int| 0 <= i < names.len() && (#[trigger] names[i])@ == name
}

/// The schemas whose names are in `names`, in order.
pub open spec fn keep_named(schemas: Seq<ToolSchema>, names: Seq<String>) -> Seq<ToolSchema>
    decreases schemas.len(),
{
    if schemas.len() == 0 {
        Seq::empty()
    } else {
        let rest = keep_named(schemas.drop_last(), names);
        if name_in(names, schemas.last().name@) {
            rest.push(schemas.last())
        } else {
            rest
        }
    }
}

/// The tools offered to the model: all of them, or only the allowed ones.
pub open spec fn offered_tools(all: Seq<ToolSchema>, allowed: Option<Seq<String>>) -> Seq<ToolSchema> {
    match allowed {
        Some(names) => keep_named(all, names),
        None => all,
    }
}

/// Whether `name` is one of `names`.
pub fn contains_name(names: &Vec<String>, name: &str) -> (r: bool)
    ensures
        r == name_in(names@, name@),
{
    let n = names.len();
    for i in 0..n
        invariant
            n == names@.len(),
            forall|k: int| 0 <= k < i ==> (#[trigger] names@[k])@ != name@,
    {
        if same_text(names[i].as_str(), name) {
            assert(names@[i as int]@ == name@);
            return true;
        }
    }
    false
}

/// The tools offered to the model: the registry's schemas followed by the
/// effect tools, restricted to the allowed names when a list is given.
pub fn build_tool_schemas(registry: &Vec<ToolSchema>, allowed: &Option<Vec<String>>) -> (r: Vec<ToolSchema>)
    ensures
        exists|e: Seq<ToolSchema>|
            are_effect_tool_schemas(e) && r@ == offered_tools(registry@ + e, names_of(*allowed)),
{
    let mut all = crate::infer::copy_schemas(registry);
    let mut effects = effect_tool_schemas();
    let ghost e = effects@;
    all.append(&mut effects);
    assert(all@ == registry@ + e);
    match allowed {
        None => all,
        Some(names) => {
            let mut kept: Vec<ToolSchema> = Vec::new();
            let n = all.len();
            for i in 0..n
                invariant
                    n == all@.len(),
                    kept@ == keep_named(all@.take(i as int), names@),
            {
                assert(all@.take(i + 1).drop_last() == all@.take(i as int));
                if contains_name(names, all[i].name.as_str()) {
                    kept.push(all[i].duplicate());
                }
            }
            assert(all@.take(n as int) == all@);
            kept
        },
    }
}

/// The request of one turn: the run's model, system prompt and token limit,
/// the buffer, the offered tools and the input's passthrough.
pub fn turn_request(config: &ResolvedConfig, messages: &Vec<Message>, tools: &Vec<ToolSchema>, extra: &Value) -> (r: ProviderRequest)
    ensures
        r.model == config.model,
        r.messages.deep_view() == messages.deep_view(),
        r.tools@ == tools@,
        r.max_tokens == Some(config.max_tokens),
        r.system matches Some(s) && s@ == config.system@,
        r.extra == *extra,
{
    ProviderRequest {
        model: config.model.clone(),
        messages: crate::message::copy_messages(messages.as_slice()),
        tools: crate::infer::copy_schemas(tools),
        max_tokens: Some(config.max_tokens),
        system: Some(config.system.clone()),
        extra: extra.clone(),
    }
}

/// The request with the model a selector chose, if it chose one.
pub fn select_model(request: ProviderRequest, chosen: Option<String>) -> (r: ProviderRequest)
    ensures
        r == (ProviderRequest {
            model: match chosen {
                Some(m) => Some(m),
                None => request.model,
            },
            ..request
        }),
{
    match chosen {
        Some(m) => ProviderRequest { model: Some(m), ..request },
        None => request,
    }
}

/// The text that names a scope: `global`, `session:<id>`, `workflow:<id>`,
/// or a custom scope's own name.
pub open spec fn scope_text(scope: Scope) -> Seq<char> {
    match scope {
        Scope::Global => "global"@,
        Scope::Session(id) => "session:"@ + id@,
        Scope::Workflow(id) => "workflow:"@ + id@,
        Scope::Custom(c) => c@,
    }
}

/// Parsing a scope's text gives the scope back, for every scope whose text
/// is unambiguous: any global, session or workflow scope, and any custom
/// scope whose name is neither `global` nor starts with `session:` or
/// `workflow:`.
pub proof fn law_parse_scope_round_trip(scope: Scope)
    requires
        scope matches Scope::Custom(c) ==> c@ != "global"@ && !has_prefix(c@, "session:"@)
            && !has_prefix(c@, "workflow:"@),
    ensures
        match scope {
            Scope::Global => is_parsed_scope(scope_text(scope), Scope::Global),
            Scope::Session(id) => forall|r: Scope|
                is_parsed_scope(scope_text(scope), r) ==> (r matches Scope::Session(x) && x@ == id@),
            Scope::Workflow(id) => forall|r: Scope|
                is_parsed_scope(scope_text(scope), r) ==> (r matches Scope::Workflow(x) && x@ == id@),
            Scope::Custom(c) => forall|r: Scope|
                is_parsed_scope(scope_text(scope), r) ==> (r matches Scope::Custom(x) && x@ == c@),
        },
{
    reveal_strlit("global");
    reveal_strlit("session:");
    reveal_strlit("workflow:");
    match scope {
        Scope::Global => {},
        Scope::Session(id) => {
            let t = "session:"@ + id@;
            assert(t.subrange(0, 8) =~= "session:"@);
            assert(t.skip(8) =~= id@);
            assert(t != "global"@) by {
                assert(t[0] == 's');
            }
        },
        Scope::Workflow(id) => {
            let t = "workflow:"@ + id@;
            assert(t.subrange(0, 9) =~= "workflow:"@);
            assert(t.skip(9) =~= id@);
            assert(t != "global"@) by {
                assert(t[0] == 'w');
            }
            assert(!has_prefix(t, "session:"@)) by {
                assert(t[0] == 'w');
                if has_prefix(t, "session:"@) {
                    assert(t.subrange(0, 8)[0] == 's');
                }
            }
        },
        Scope::Custom(c) => {},
    }
}

impl Default for ReactConfig {
    fn default() -> (r: ReactConfig)
        ensures
            r.system_prompt@.len() == 0,
            r.default_model@.len() == 0,
            r.default_max_tokens == 4096,
            r.default_max_turns == 10,
            r.max_tool_calls is None,
            r.max_repeat_calls is None,
    {
        ReactConfig::default_config()
    }
}

} // verus!
