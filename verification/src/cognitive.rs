//! Compressed cognitive state (CCS): the bounded state an agent keeps in
//! place of replaying its transcript, the request that asks a model to
//! compress a turn into it, and the qualification gate over recalled artifacts.
use crate::fences::{strip_fences_spec, strip_json_fences};
use crate::infer::InferRequest;
use crate::json::{json_array_items, json_as_str, json_from_text, json_get, json_items, json_member, json_parse, json_string};
use serde_json::Value;
use crate::message::{Message, MessageModel};
use crate::prompts::{
    is_prompt_request, prompt_or_default, prompt_request, push_line, push_transcript, role_label, transcript,
    views,
};
use crate::message::message_text;
use crate::text::join_lines;
use vstd::prelude::*;

verus! {

/// A canonicalized entity tracked in the cognitive state.
#[derive(Debug, Clone, PartialEq, Eq)]
pub struct Entity {
    /// Canonical name.
    pub name: String,
    /// Application-defined type (e.g. "server", "person").
    pub entity_type: String,
}

impl Entity {
    /// An entity.
    pub fn new(name: &str, entity_type: &str) -> (r: Entity)
        ensures
            r.name@ == name@,
            r.entity_type@ == entity_type@,
    {
        Entity { name: String::from_str(name), entity_type: String::from_str(entity_type) }
    }
}

/// A directed relation between two entities.
#[derive(Debug, Clone, PartialEq, Eq)]
pub struct Relation {
    /// Source entity.
    pub from: String,
    /// Target entity.
    pub to: String,
    /// Relation type (e.g. "serves", "depends_on").
    pub relation: String,
}

impl Relation {
    /// A relation.
    pub fn new(from: &str, to: &str, relation: &str) -> (r: Relation)
        ensures
            r.from@ == from@,
            r.to@ == to@,
            r.relation@ == relation@,
    {
        Relation { from: String::from_str(from), to: String::from_str(to), relation: String::from_str(relation) }
    }
}

/// The compressed cognitive state maintained across turns; each turn
/// replaces it entirely.
#[derive(Debug, Clone, PartialEq, Eq)]
pub struct CognitiveState {
    /// What changed this turn.
    pub episodic_trace: String,
    /// Dominant intent or topic.
    pub semantic_gist: String,
    /// Canonicalized entities.
    pub focal_entities: Vec<Entity>,
    /// Dependencies between entities.
    pub relational_map: Vec<Relation>,
    /// Persistent objective.
    pub goal: String,
    /// Invariant rules and constraints.
    pub constraints: Vec<String>,
    /// Expected next operation.
    pub predictive_cue: String,
    /// Unresolved elements.
    pub uncertainty: Vec<String>,
    /// References to external evidence.
    pub artifact_refs: Vec<String>,
}

impl Default for CognitiveState {
    fn default() -> (r: CognitiveState)
        ensures
            r.episodic_trace@.len() == 0,
            r.semantic_gist@.len() == 0,
            r.focal_entities@.len() == 0,
            r.relational_map@.len() == 0,
            r.goal@.len() == 0,
            r.constraints@.len() == 0,
            r.predictive_cue@.len() == 0,
            r.uncertainty@.len() == 0,
            r.artifact_refs@.len() == 0,
    {
        CognitiveState {
            episodic_trace: String::new(),
            semantic_gist: String::new(),
            focal_entities: Vec::new(),
            relational_map: Vec::new(),
            goal: String::new(),
            constraints: Vec::new(),
            predictive_cue: String::new(),
            uncertainty: Vec::new(),
            artifact_refs: Vec::new(),
        }
    }
}

/// Errors of cognitive-state operations.
#[derive(Debug, Clone, PartialEq, Eq)]
pub enum CognitiveError {
    /// A model response could not be parsed.
    ParseFailed(String),
}

impl CognitiveError {
    /// The error's text: `failed to parse CCS: <detail>`.
    pub fn to_text(&self) -> (r: String)
        ensures
            self matches CognitiveError::ParseFailed(d) && r@ == "failed to parse CCS: "@ + d@,
    {
        proof {
            reveal_strlit("failed to parse CCS: ");
        }
        match self {
            CognitiveError::ParseFailed(d) => String::from_str("failed to parse CCS: ").concat(d.as_str()),
        }
    }
}

/// Default system prompt for cognitive-state compression.
pub const DEFAULT_CCS_PROMPT: &'static str = r#"You are a cognitive state compressor. Given the conversation messages, previous cognitive state, and recalled artifacts, produce a new Compressed Cognitive State (CCS) as a JSON object.

The CCS schema:
{
  "episodic_trace": "string - what changed this turn",
  "semantic_gist": "string - dominant intent/topic",
  "focal_entities": [{"name": "string", "entity_type": "string"}],
  "relational_map": [{"from": "string", "to": "string", "relation": "string"}],
  "goal": "string - persistent objective",
  "constraints": ["string - invariant rules"],
  "predictive_cue": "string - expected next action",
  "uncertainty": ["string - unresolved elements"],
  "artifact_refs": ["string - references to external evidence"]
}

Rules:
1. REPLACE the previous state entirely — do not append.
2. Preserve all active constraints from the previous state unless explicitly revoked.
3. Update entities and relations based on new evidence.
4. Be concise — this state must remain bounded.
5. Output ONLY valid JSON, no markdown fences."#;

/// Configuration of cognitive-state compression.
#[derive(Debug, Clone, PartialEq, Eq)]
pub struct CompressCognitiveStateConfig {
    /// Custom system prompt; `None` uses [`DEFAULT_CCS_PROMPT`].
    pub system_prompt: Option<String>,
    /// Maximum tokens of the response.
    pub max_tokens: u32,
}

/// The user-message lines of a compression request: the turn's transcript
/// (when there are messages), the previous state (when given) and the
/// recalled artifacts (when any).
pub open spec fn ccs_lines(
    msgs: Seq<MessageModel>,
    prev_json: Option<Seq<char>>,
    artifacts: Seq<Seq<char>>,
) -> Seq<Seq<char>> {
    (if msgs.len() > 0 {
        seq!["## Current Turn Messages"@] + transcript(msgs)
    } else {
        Seq::empty()
    }) + (match prev_json {
        Some(p) => seq![Seq::<char>::empty(), "## Previous Cognitive State"@, p],
        None => Seq::empty(),
    }) + (if artifacts.len() > 0 {
        seq![Seq::<char>::empty(), "## Recalled Artifacts"@] + artifacts.map_values(
            |a: Seq<char>| "- "@ + a,
        )
    } else {
        Seq::empty()
    })
}

/// Whether `lines` lay out a compression prompt for these inputs: when there
/// are messages, a heading and then one line `[role] text` per message, in
/// order; then, when a previous state is given, a blank line, its heading and
/// its JSON; then, when there are artifacts, a blank line, their heading and
/// one line `- artifact` each.
pub open spec fn ccs_layout(
    lines: Seq<Seq<char>>,
    msgs: Seq<MessageModel>,
    prev_json: Option<Seq<char>>,
    artifacts: Seq<Seq<char>>,
) -> bool {
    let m: int = if msgs.len() > 0 { msgs.len() as int + 1 } else { 0 };
    let p = if prev_json is Some { 3int } else { 0int };
    let a: int = if artifacts.len() > 0 { artifacts.len() as int + 2 } else { 0 };
    &&& lines.len() == m + p + a
    &&& msgs.len() > 0 ==> lines[0] == "## Current Turn Messages"@
    &&& forall|k: int|
        0 <= k < msgs.len() ==> #[trigger] lines[k + 1] == "["@ + role_label(msgs[k].role) + "] "@ + message_text(
            msgs[k],
        )
    &&& prev_json matches Some(j) ==> lines[m] == Seq::<char>::empty() && lines[m + 1]
        == "## Previous Cognitive State"@ && lines[m + 2] == j
    &&& artifacts.len() > 0 ==> lines[m + p] == Seq::<char>::empty() && lines[m + p + 1] == "## Recalled Artifacts"@
    &&& forall|k: int| 0 <= k < artifacts.len() ==> #[trigger] lines[m + p + 2 + k] == "- "@ + artifacts[k]
}

/// The lines of a compression prompt follow its layout: every message of the
/// turn appears as `[role] text` in order after the heading, then the
/// previous state, then the artifacts.
pub proof fn law_ccs_lines_layout(msgs: Seq<MessageModel>, prev_json: Option<Seq<char>>, artifacts: Seq<Seq<char>>)
    ensures
        ccs_layout(ccs_lines(msgs, prev_json, artifacts), msgs, prev_json, artifacts),
{
    let lines = ccs_lines(msgs, prev_json, artifacts);
    let a = if msgs.len() > 0 {
        seq!["## Current Turn Messages"@] + transcript(msgs)
    } else {
        Seq::empty()
    };
    let b = match prev_json {
        Some(p) => seq![Seq::<char>::empty(), "## Previous Cognitive State"@, p],
        None => Seq::empty(),
    };
    let c = if artifacts.len() > 0 {
        seq![Seq::<char>::empty(), "## Recalled Artifacts"@] + artifacts.map_values(|x: Seq<char>| "- "@ + x)
    } else {
        Seq::empty()
    };
    assert(lines == a + b + c);
    let m: int = if msgs.len() > 0 { msgs.len() as int + 1 } else { 0 };
    let p = if prev_json is Some { 3int } else { 0int };
    assert(a.len() == m);
    assert(b.len() == p);
    assert forall|k: int| 0 <= k < msgs.len() implies #[trigger] lines[k + 1] == "["@ + role_label(msgs[k].role)
        + "] "@ + message_text(msgs[k]) by {
        assert(lines[k + 1] == a[k + 1]);
        assert(a[k + 1] == transcript(msgs)[k]);
    }
    if msgs.len() > 0 {
        assert(lines[0] == a[0]);
    }
    if prev_json is Some {
        assert(lines[m] == b[0]);
        assert(lines[m + 1] == b[1]);
        assert(lines[m + 2] == b[2]);
    }
    if artifacts.len() > 0 {
        assert(lines[m + p] == c[0]);
        assert(lines[m + p + 1] == c[1]);
    }
    assert forall|k: int| 0 <= k < artifacts.len() implies #[trigger] lines[m + p + 2 + k] == "- "@ + artifacts[k] by {
        assert(lines[m + p + 2 + k] == c[2 + k]);
    }
}

impl CompressCognitiveStateConfig {
    /// The default configuration: default prompt, 4096 tokens.
    pub fn default_config() -> (r: CompressCognitiveStateConfig)
        ensures
            r.system_prompt is None,
            r.max_tokens == 4096,
    {
        CompressCognitiveStateConfig { system_prompt: None, max_tokens: 4096 }
    }

    /// The compression request: the system prompt, and one user message with
    /// the turn's transcript, the previous state's JSON (pretty-printed by the
    /// caller) and the recalled artifact references.
    pub fn build_request(
        &self,
        messages: &[Message],
        prev_ccs_json: Option<&str>,
        artifacts: &[String],
    ) -> (r: InferRequest)
        ensures
            is_prompt_request(
                r,
                match self.system_prompt {
                    Some(s) => s@,
                    None => DEFAULT_CCS_PROMPT@,
                },
                join_lines(
                    ccs_lines(
                        messages.deep_view(),
                        match prev_ccs_json {
                            Some(p) => Some(p@),
                            None => None,
                        },
                        views(artifacts@),
                    ),
                ),
                self.max_tokens,
            ),
            exists|lines: Seq<Seq<char>>|
                ccs_layout(
                    lines,
                    messages.deep_view(),
                    match prev_ccs_json {
                        Some(p) => Some(p@),
                        None => None,
                    },
                    views(artifacts@),
                ) && is_prompt_request(
                    r,
                    match self.system_prompt {
                        Some(s) => s@,
                        None => DEFAULT_CCS_PROMPT@,
                    },
                    #[trigger] join_lines(lines),
                    self.max_tokens,
                ),
    {
        proof {
            law_ccs_lines_layout(
                messages.deep_view(),
                match prev_ccs_json {
                    Some(p) => Some(p@),
                    None => None,
                },
                views(artifacts@),
            );
            reveal_strlit("## Current Turn Messages");
            reveal_strlit("## Previous Cognitive State");
            reveal_strlit("## Recalled Artifacts");
            reveal_strlit("- ");
            reveal_strlit("");
        }
        let system = prompt_or_default(&self.system_prompt, DEFAULT_CCS_PROMPT);
        let mut lines: Vec<String> = Vec::new();
        let ghost msgs = messages.deep_view();
        if messages.len() > 0 {
            push_line(&mut lines, String::from_str("## Current Turn Messages"));
            push_transcript(&mut lines, messages);
        }
        let ghost after_msgs = views(lines@);
        assert(after_msgs =~= (if msgs.len() > 0 {
            seq!["## Current Turn Messages"@] + transcript(msgs)
        } else {
            Seq::empty()
        }));
        match prev_ccs_json {
            Some(p) => {
                push_line(&mut lines, String::new());
                push_line(&mut lines, String::from_str("## Previous Cognitive State"));
                push_line(&mut lines, String::from_str(p));
            },
            None => {},
        }
        let ghost after_prev = views(lines@);
        if artifacts.len() > 0 {
            push_line(&mut lines, String::new());
            push_line(&mut lines, String::from_str("## Recalled Artifacts"));
            let n = artifacts.len();
            let ghost base = views(lines@);
            for i in 0..n
                invariant
                    n == artifacts@.len(),
                    views(lines@) == base + views(artifacts@).take(i as int).map_values(
                        |a: Seq<char>| "- "@ + a,
                    ),
            {
                let line = String::from_str("- ").concat(artifacts[i].as_str());
                push_line(&mut lines, line);
                assert(views(artifacts@).take(i + 1) =~= views(artifacts@).take(i as int).push(artifacts@[i as int]@));
                assert(views(lines@) =~= base + views(artifacts@).take(i + 1).map_values(
                    |a: Seq<char>| "- "@ + a,
                ));
            }
            assert(views(artifacts@).take(n as int) =~= views(artifacts@));
        }
        assert(views(lines@) =~= ccs_lines(
            msgs,
            match prev_ccs_json {
                Some(p) => Some(p@),
                None => None,
            },
            views(artifacts@),
        ));
        prompt_request(system, &lines, self.max_tokens)
    }
}

/// Writes and reads the cognitive state under a fixed key in a state store
/// (the store calls themselves are made by the runtime).
pub struct CommitCognitiveState;

/// The well-known store key of the committed cognitive state.
pub const COGNITIVE_STATE_KEY: &'static str = "__skg_cognitive_state";

// ── Qualification gate ──────────────────────────────────────────────────

/// A candidate artifact offered for qualification.
#[derive(Debug, Clone, PartialEq, Eq)]
pub struct RecalledArtifact {
    /// Stable identifier.
    pub key: String,
    /// Short excerpt shown to the model.
    pub snippet: String,
}

impl RecalledArtifact {
    /// A candidate artifact.
    pub fn new(key: &str, snippet: &str) -> (r: RecalledArtifact)
        ensures
            r.key@ == key@,
            r.snippet@ == snippet@,
    {
        RecalledArtifact { key: String::from_str(key), snippet: String::from_str(snippet) }
    }
}

/// Default system prompt for the qualification gate.
pub const DEFAULT_QUALIFY_PROMPT: &'static str = r#"You are an ACC qualification filter. Your job is to decide which recalled artifacts are decision-relevant given the agent's current cognitive state.

You will receive:
1. The current Compressed Cognitive State (CCS) as JSON.
2. A list of candidate artifacts, each with a key and a short snippet.

Your task:
- Read the CCS to understand the agent's current goal, constraints, and context.
- For each candidate, determine if its snippet is relevant to advancing the current goal or resolving an active uncertainty.
- Approve only candidates that provide decision-relevant information.

Output ONLY a JSON object in this exact format:
{"approved": ["key1", "key2"]}

Rules:
1. Include only keys from the candidate list. Do not invent keys.
2. The approved list may be empty if no candidates are relevant.
3. Output ONLY valid JSON — no markdown fences, no explanation."#;

/// Configuration of the qualification gate.
#[derive(Debug, Clone, PartialEq, Eq)]
pub struct QualifyRecallConfig {
    /// Custom system prompt; `None` uses [`DEFAULT_QUALIFY_PROMPT`].
    pub system_prompt: Option<String>,
    /// Maximum tokens of the response.
    pub max_tokens: u32,
}

/// The lines of one candidate: key, snippet, blank line.
pub open spec fn candidate_lines(c: RecalledArtifact) -> Seq<Seq<char>> {
    seq!["key: "@ + c.key@, "snippet: "@ + c.snippet@, Seq::<char>::empty()]
}

/// The lines of all candidates, in order.
pub open spec fn candidates_lines(cs: Seq<RecalledArtifact>) -> Seq<Seq<char>>
    decreases cs.len(),
{
    if cs.len() == 0 {
        Seq::empty()
    } else {
        candidates_lines(cs.drop_last()) + candidate_lines(cs.last())
    }
}

/// The user-message lines of a qualification request.
pub open spec fn qualify_lines(ccs_json: Seq<char>, cs: Seq<RecalledArtifact>) -> Seq<Seq<char>> {
    seq!["## Current Cognitive State"@, ccs_json, Seq::<char>::empty(), "## Candidate Artifacts"@]
        + candidates_lines(cs)
}

/// Whether `lines` lay out a qualification prompt: the current state's
/// heading and JSON, a blank line, the candidates' heading, then for each
/// candidate in order its `key: ` line, its `snippet: ` line and a blank line.
pub open spec fn qualify_layout(lines: Seq<Seq<char>>, ccs_json: Seq<char>, cs: Seq<RecalledArtifact>) -> bool {
    &&& lines.len() == 4 + 3 * cs.len()
    &&& lines[0] == "## Current Cognitive State"@
    &&& lines[1] == ccs_json
    &&& lines[2] == Seq::<char>::empty()
    &&& lines[3] == "## Candidate Artifacts"@
    &&& forall|k: int| 0 <= k < cs.len() ==> #[trigger] lines[4 + 3 * k] == "key: "@ + cs[k].key@
    &&& forall|k: int| 0 <= k < cs.len() ==> #[trigger] lines[5 + 3 * k] == "snippet: "@ + cs[k].snippet@
    &&& forall|k: int| 0 <= k < cs.len() ==> #[trigger] lines[6 + 3 * k] == Seq::<char>::empty()
}

/// The candidates' lines: three per candidate, in order.
proof fn lemma_candidates_lines(cs: Seq<RecalledArtifact>)
    ensures
        candidates_lines(cs).len() == 3 * cs.len(),
        forall|k: int| 0 <= k < cs.len() ==> #[trigger] candidates_lines(cs)[3 * k] == "key: "@ + cs[k].key@,
        forall|k: int| 0 <= k < cs.len() ==> #[trigger] candidates_lines(cs)[3 * k + 1] == "snippet: "@ + cs[k].snippet@,
        forall|k: int| 0 <= k < cs.len() ==> #[trigger] candidates_lines(cs)[3 * k + 2] == Seq::<char>::empty(),
    decreases cs.len(),
{
    if cs.len() > 0 {
        let p = cs.drop_last();
        lemma_candidates_lines(p);
        let l = candidates_lines(cs);
        assert(l == candidates_lines(p) + candidate_lines(cs.last()));
        assert forall|k: int| 0 <= k < cs.len() implies #[trigger] l[3 * k] == "key: "@ + cs[k].key@ by {
            if k < p.len() {
                assert(l[3 * k] == candidates_lines(p)[3 * k]);
                assert(p[k] == cs[k]);
            }
        }
        assert forall|k: int| 0 <= k < cs.len() implies #[trigger] l[3 * k + 1] == "snippet: "@ + cs[k].snippet@ by {
            if k < p.len() {
                assert(l[3 * k + 1] == candidates_lines(p)[3 * k + 1]);
                assert(p[k] == cs[k]);
            }
        }
        assert forall|k: int| 0 <= k < cs.len() implies #[trigger] l[3 * k + 2] == Seq::<char>::empty() by {
            if k < p.len() {
                assert(l[3 * k + 2] == candidates_lines(p)[3 * k + 2]);
            }
        }
    }
}

/// The lines of a qualification prompt follow its layout: every candidate
/// appears, in order, with its key and snippet.
pub proof fn law_qualify_lines_layout(ccs_json: Seq<char>, cs: Seq<RecalledArtifact>)
    ensures
        qualify_layout(qualify_lines(ccs_json, cs), ccs_json, cs),
{
    lemma_candidates_lines(cs);
    let l = qualify_lines(ccs_json, cs);
    let c = candidates_lines(cs);
    assert forall|k: int| 0 <= k < cs.len() implies #[trigger] l[4 + 3 * k] == "key: "@ + cs[k].key@ by {
        assert(l[4 + 3 * k] == c[3 * k]);
    }
    assert forall|k: int| 0 <= k < cs.len() implies #[trigger] l[5 + 3 * k] == "snippet: "@ + cs[k].snippet@ by {
        assert(l[5 + 3 * k] == c[3 * k + 1]);
    }
    assert forall|k: int| 0 <= k < cs.len() implies #[trigger] l[6 + 3 * k] == Seq::<char>::empty() by {
        assert(l[6 + 3 * k] == c[3 * k + 2]);
    }
}

impl QualifyRecallConfig {
    /// The default configuration: default prompt, 512 tokens.
    pub fn default_config() -> (r: QualifyRecallConfig)
        ensures
            r.system_prompt is None,
            r.max_tokens == 512,
    {
        QualifyRecallConfig { system_prompt: None, max_tokens: 512 }
    }

    /// The qualification request: the system prompt, and one user message
    /// with the current state's JSON (pretty-printed by the caller) and each
    /// candidate's key and snippet.
    pub fn build_request(&self, ccs_json: &str, candidates: &[RecalledArtifact]) -> (r: InferRequest)
        ensures
            is_prompt_request(
                r,
                match self.system_prompt {
                    Some(s) => s@,
                    None => DEFAULT_QUALIFY_PROMPT@,
                },
                join_lines(qualify_lines(ccs_json@, candidates@)),
                self.max_tokens,
            ),
            exists|lines: Seq<Seq<char>>|
                qualify_layout(lines, ccs_json@, candidates@) && is_prompt_request(
                    r,
                    match self.system_prompt {
                        Some(s) => s@,
                        None => DEFAULT_QUALIFY_PROMPT@,
                    },
                    #[trigger] join_lines(lines),
                    self.max_tokens,
                ),
    {
        proof {
            law_qualify_lines_layout(ccs_json@, candidates@);
            reveal_strlit("## Current Cognitive State");
            reveal_strlit("## Candidate Artifacts");
            reveal_strlit("key: ");
            reveal_strlit("snippet: ");
            reveal_strlit("");
        }
        let system = prompt_or_default(&self.system_prompt, DEFAULT_QUALIFY_PROMPT);
        let mut lines: Vec<String> = Vec::new();
        push_line(&mut lines, String::from_str("## Current Cognitive State"));
        push_line(&mut lines, String::from_str(ccs_json));
        push_line(&mut lines, String::new());
        push_line(&mut lines, String::from_str("## Candidate Artifacts"));
        let ghost base = views(lines@);
        let n = candidates.len();
        for i in 0..n
            invariant
                n == candidates@.len(),
                views(lines@) == base + candidates_lines(candidates@.take(i as int)),
        {
            let c = &candidates[i];
            push_line(&mut lines, String::from_str("key: ").concat(c.key.as_str()));
            push_line(&mut lines, String::from_str("snippet: ").concat(c.snippet.as_str()));
            push_line(&mut lines, String::new());
            assert(candidates@.take(i + 1).drop_last() =~= candidates@.take(i as int));
        }
        assert(candidates@.take(n as int) =~= candidates@);
        assert(views(lines@) =~= qualify_lines(ccs_json@, candidates@));
        prompt_request(system, &lines, self.max_tokens)
    }
}

/// The approved keys of a qualification answer: the text without fences must
/// parse as JSON with an `approved` member that is an array of strings;
/// otherwise the answer is rejected with the reason.
pub open spec fn approved_keys(text: Seq<char>) -> Result<Seq<Seq<char>>, Seq<char>> {
    match json_parse(strip_fences_spec(text)) {
        Err(e) => Err(e),
        Ok(v) => match json_member(v, "approved"@) {
            None => Err("missing field `approved`"@),
            Some(a) => match json_items(a) {
                None => Err("invalid type: `approved` must be an array of strings"@),
                Some(items) => if forall|i: int| 0 <= i < items.len() ==> #[trigger] json_string(items[i]) is Some {
                    Ok(items.map_values(|x: Value| json_string(x).unwrap()))
                } else {
                    Err("invalid type: `approved` must be an array of strings"@)
                },
            },
        },
    }
}

impl QualifyRecallConfig {
    /// The approved artifact keys of a qualification answer (code fences
    /// allowed); a malformed answer is a parse failure with the reason.
    pub fn parse_response(&self, response: &str) -> (r: Result<Vec<String>, CognitiveError>)
        ensures
            match approved_keys(response@) {
                Ok(keys) => r matches Ok(v) && v@.map_values(|k: String| k@) == keys,
                Err(e) => r matches Err(CognitiveError::ParseFailed(d)) && d@ == e,
            },
            r is Ok <==> (json_parse(strip_fences_spec(response@)) matches Ok(v) && json_member(v, "approved"@)
                matches Some(a) && json_items(a) matches Some(items) && forall|i: int|
                0 <= i < items.len() ==> #[trigger] json_string(items[i]) is Some),
            r matches Ok(keys) ==> (json_parse(strip_fences_spec(response@)) matches Ok(v) && json_member(
                v,
                "approved"@,
            ) matches Some(a) && json_items(a) matches Some(items) && keys@.len() == items.len() && forall|i: int|
                0 <= i < items.len() ==> json_string(items[i]) == Some(#[trigger] keys@[i]@)),
            json_parse(strip_fences_spec(response@)) matches Err(e) ==> (r matches Err(CognitiveError::ParseFailed(d))
                && d@ == e),
    {
        proof {
            reveal_strlit("approved");
            reveal_strlit("missing field `approved`");
            reveal_strlit("invalid type: `approved` must be an array of strings");
        }
        let trimmed = strip_json_fences(response);
        let value = match json_from_text(trimmed) {
            Ok(v) => v,
            Err(e) => {
                return Err(CognitiveError::ParseFailed(e));
            },
        };
        let approved = match json_get(&value, "approved") {
            Some(a) => a,
            None => {
                return Err(CognitiveError::ParseFailed(String::from_str("missing field `approved`")));
            },
        };
        let items = match json_array_items(&approved) {
            Some(items) => items,
            None => {
                return Err(
                    CognitiveError::ParseFailed(
                        String::from_str("invalid type: `approved` must be an array of strings"),
                    ),
                );
            },
        };
        let mut keys: Vec<String> = Vec::new();
        let n = items.len();
        for i in 0..n
            invariant
                n == items@.len(),
                json_parse(strip_fences_spec(response@)) == Ok::<Value, Seq<char>>(value),
                json_member(value, "approved"@) == Some(approved),
                json_items(approved) == Some(items@),
                keys@.len() == i,
                forall|k: int| 0 <= k < i ==> json_string(items@[k]) == Some((#[trigger] keys@[k])@),
        {
            match json_as_str(&items[i]) {
                Some(s) => keys.push(s),
                None => {
                    assert(json_string(items@[i as int]) is None);
                    assert(!(forall|k: int| 0 <= k < items@.len() ==> #[trigger] json_string(items@[k]) is Some));
                    return Err(
                        CognitiveError::ParseFailed(
                            String::from_str("invalid type: `approved` must be an array of strings"),
                        ),
                    );
                },
            }
        }
        assert forall|k: int| 0 <= k < items@.len() implies #[trigger] json_string(items@[k]) is Some by {
            assert(json_string(items@[k]) == Some(keys@[k]@));
        }
        assert(keys@.map_values(|k: String| k@) =~= items@.map_values(|x: Value| json_string(x).unwrap()));
        Ok(keys)
    }
}

impl Default for CompressCognitiveStateConfig {
    fn default() -> (r: CompressCognitiveStateConfig)
        ensures
            r.system_prompt is None,
            r.max_tokens == 4096,
    {
        CompressCognitiveStateConfig::default_config()
    }
}

impl Default for QualifyRecallConfig {
    fn default() -> (r: QualifyRecallConfig)
        ensures
            r.system_prompt is None,
            r.max_tokens == 512,
    {
        QualifyRecallConfig::default_config()
    }
}

} // verus!
