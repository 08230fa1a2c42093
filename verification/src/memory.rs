//! Memory-note requests: constructing a note from a conversation, proposing
//! links between notes and evolving a note with new evidence. Notes travel as
//! JSON text; their typed form lives with the runtime.
use crate::infer::InferRequest;
use crate::message::Message;
use crate::prompts::{
    is_prompt_request, prompt_or_default, prompt_request, push_line, push_transcript, transcript,
    views,
};
use crate::text::join_lines;
use vstd::prelude::*;

verus! {

/// Default system prompt for constructing a memory note.
pub const DEFAULT_CONSTRUCT_NOTE_PROMPT: &'static str = r#"You are a memory note extractor. Given conversation messages, extract the key information as a structured MemoryNote.

Output ONLY a JSON object matching this schema:
{
  "key": "string - unique identifier, lowercase kebab-case prefixed with 'note:'",
  "content": "string - full content of the note",
  "keywords": ["string - broad retrieval keywords"],
  "tags": ["string - categorical labels, e.g. decision, constraint, infra"],
  "description": "string - one concise sentence summary",
  "source_turn": null,
  "created_at": 0.0
}

Rules:
1. key must be lowercase, kebab-case, prefixed with 'note:'
2. content captures the essential information from the messages
3. keywords: broad, stemmed terms useful for retrieval
4. description: one concise sentence
5. Output ONLY valid JSON — no markdown fences, no explanation."#;

/// Default system prompt for link generation.
pub const DEFAULT_LINK_GENERATION_PROMPT: &'static str = r#"You are a memory link generator. Given a new memory note and a list of existing notes, identify semantic links between the new note and any existing notes.

Output ONLY a JSON object in this exact format:
{"links": [{"to_key": "string", "relation": "string", "strength": 0.0}]}

Rules:
1. Only link to notes from the provided existing list — do not invent keys.
2. relation: a short label such as 'related', 'contradicts', 'elaborates', 'depends_on'.
3. strength: confidence in [0.0, 1.0].
4. The links array may be empty if no relevant connections exist.
5. Output ONLY valid JSON — no markdown fences, no explanation."#;

/// Default system prompt for evolving a note.
pub const DEFAULT_EVOLVE_MEMORY_PROMPT: &'static str = r#"You are a memory evolution agent. Given a new memory note and an existing note, determine whether the existing note should be updated based on the new evidence.

Output ONLY a JSON object in one of these two formats:

If an update is needed:
{"updated": true, "note": {<full updated MemoryNote JSON>}}

If no update is needed:
{"updated": false}

The MemoryNote schema:
{"key": "string", "content": "string", "keywords": [], "tags": [], "description": "string", "source_turn": null, "created_at": 0.0}

Rules:
1. Preserve the original key — do not change it.
2. Update only if the new evidence materially changes the existing note's content or scope.
3. Output ONLY valid JSON — no markdown fences, no explanation."#;

/// Configuration for constructing a memory note from messages.
#[derive(Debug, Clone, PartialEq, Eq)]
pub struct ConstructNoteConfig {
    /// Custom system prompt; `None` uses [`DEFAULT_CONSTRUCT_NOTE_PROMPT`].
    pub system_prompt: Option<String>,
    /// Maximum tokens of the response.
    pub max_tokens: u32,
}

/// Configuration for generating links between a new note and existing ones.
#[derive(Debug, Clone, PartialEq, Eq)]
pub struct LinkGenerationConfig {
    /// Custom system prompt; `None` uses [`DEFAULT_LINK_GENERATION_PROMPT`].
    pub system_prompt: Option<String>,
    /// Maximum tokens of the response.
    pub max_tokens: u32,
}

/// Configuration for evolving an existing note with new evidence.
#[derive(Debug, Clone, PartialEq, Eq)]
pub struct EvolveMemoryConfig {
    /// Custom system prompt; `None` uses [`DEFAULT_EVOLVE_MEMORY_PROMPT`].
    pub system_prompt: Option<String>,
    /// Maximum tokens of the response.
    pub max_tokens: u32,
}

/// Lines of the existing notes: each note's JSON followed by a blank line.
pub open spec fn notes_lines(notes: Seq<Seq<char>>) -> Seq<Seq<char>>
    decreases notes.len(),
{
    if notes.len() == 0 {
        Seq::empty()
    } else {
        notes_lines(notes.drop_last()) + seq![notes.last(), Seq::<char>::empty()]
    }
}

/// The existing notes' lines: each note's JSON followed by a blank line, in
/// order.
pub proof fn law_notes_lines(notes: Seq<Seq<char>>)
    ensures
        notes_lines(notes).len() == 2 * notes.len(),
        forall|k: int| 0 <= k < notes.len() ==> #[trigger] notes_lines(notes)[2 * k] == notes[k],
        forall|k: int| 0 <= k < notes.len() ==> #[trigger] notes_lines(notes)[2 * k + 1] == Seq::<char>::empty(),
    decreases notes.len(),
{
    if notes.len() > 0 {
        let p = notes.drop_last();
        law_notes_lines(p);
        let l = notes_lines(notes);
        assert forall|k: int| 0 <= k < notes.len() implies #[trigger] l[2 * k] == notes[k] by {
            if k < p.len() {
                assert(l[2 * k] == notes_lines(p)[2 * k]);
            }
        }
        assert forall|k: int| 0 <= k < notes.len() implies #[trigger] l[2 * k + 1] == Seq::<char>::empty() by {
            if k < p.len() {
                assert(l[2 * k + 1] == notes_lines(p)[2 * k + 1]);
            }
        }
    }
}

impl ConstructNoteConfig {
    /// The default configuration: default prompt, 1024 tokens.
    pub fn default_config() -> (r: ConstructNoteConfig)
        ensures
            r.system_prompt is None,
            r.max_tokens == 1024,
    {
        ConstructNoteConfig { system_prompt: None, max_tokens: 1024 }
    }

    /// The request: a `## Messages` heading and the transcript.
    pub fn build_request(&self, messages: &[Message]) -> (r: InferRequest)
        ensures
            is_prompt_request(
                r,
                match self.system_prompt {
                    Some(s) => s@,
                    None => DEFAULT_CONSTRUCT_NOTE_PROMPT@,
                },
                join_lines(seq!["## Messages"@] + transcript(messages.deep_view())),
                self.max_tokens,
            ),
    {
        proof {
            reveal_strlit("## Messages");
        }
        let system = prompt_or_default(&self.system_prompt, DEFAULT_CONSTRUCT_NOTE_PROMPT);
        let mut lines: Vec<String> = Vec::new();
        push_line(&mut lines, String::from_str("## Messages"));
        push_transcript(&mut lines, messages);
        assert(views(lines@) =~= seq!["## Messages"@] + transcript(messages.deep_view()));
        prompt_request(system, &lines, self.max_tokens)
    }
}

impl LinkGenerationConfig {
    /// The default configuration: default prompt, 512 tokens.
    pub fn default_config() -> (r: LinkGenerationConfig)
        ensures
            r.system_prompt is None,
            r.max_tokens == 512,
    {
        LinkGenerationConfig { system_prompt: None, max_tokens: 512 }
    }

    /// The request: the new note's JSON and each existing note's JSON (all
    /// pretty-printed by the caller).
    pub fn build_request(&self, new_note_json: &str, existing_notes_json: &[String]) -> (r: InferRequest)
        ensures
            is_prompt_request(
                r,
                match self.system_prompt {
                    Some(s) => s@,
                    None => DEFAULT_LINK_GENERATION_PROMPT@,
                },
                join_lines(
                    seq!["## New Note"@, new_note_json@, Seq::<char>::empty(), "## Existing Notes"@]
                        + notes_lines(views(existing_notes_json@)),
                ),
                self.max_tokens,
            ),
    {
        proof {
            reveal_strlit("## New Note");
            reveal_strlit("## Existing Notes");
            reveal_strlit("");
        }
        let system = prompt_or_default(&self.system_prompt, DEFAULT_LINK_GENERATION_PROMPT);
        let mut lines: Vec<String> = Vec::new();
        push_line(&mut lines, String::from_str("## New Note"));
        push_line(&mut lines, String::from_str(new_note_json));
        push_line(&mut lines, String::new());
        push_line(&mut lines, String::from_str("## Existing Notes"));
        let ghost base = views(lines@);
        let n = existing_notes_json.len();
        for i in 0..n
            invariant
                n == existing_notes_json@.len(),
                views(lines@) == base + notes_lines(views(existing_notes_json@).take(i as int)),
        {
            push_line(&mut lines, existing_notes_json[i].clone());
            push_line(&mut lines, String::new());
            assert(views(existing_notes_json@).take(i + 1).drop_last() =~= views(existing_notes_json@).take(i as int));
        }
        assert(views(existing_notes_json@).take(n as int) =~= views(existing_notes_json@));
        assert(views(lines@) =~= seq!["## New Note"@, new_note_json@, Seq::<char>::empty(), "## Existing Notes"@]
            + notes_lines(views(existing_notes_json@)));
        prompt_request(system, &lines, self.max_tokens)
    }
}

impl EvolveMemoryConfig {
    /// The default configuration: default prompt, 1024 tokens.
    pub fn default_config() -> (r: EvolveMemoryConfig)
        ensures
            r.system_prompt is None,
            r.max_tokens == 1024,
    {
        EvolveMemoryConfig { system_prompt: None, max_tokens: 1024 }
    }

    /// The request: the new note's JSON and the existing note's JSON.
    pub fn build_request(&self, new_note_json: &str, existing_note_json: &str) -> (r: InferRequest)
        ensures
            is_prompt_request(
                r,
                match self.system_prompt {
                    Some(s) => s@,
                    None => DEFAULT_EVOLVE_MEMORY_PROMPT@,
                },
                join_lines(
                    seq![
                        "## New Note"@,
                        new_note_json@,
                        Seq::<char>::empty(),
                        "## Existing Note"@,
                        existing_note_json@,
                    ],
                ),
                self.max_tokens,
            ),
    {
        proof {
            reveal_strlit("## New Note");
            reveal_strlit("## Existing Note");
            reveal_strlit("");
        }
        let system = prompt_or_default(&self.system_prompt, DEFAULT_EVOLVE_MEMORY_PROMPT);
        let mut lines: Vec<String> = Vec::new();
        push_line(&mut lines, String::from_str("## New Note"));
        push_line(&mut lines, String::from_str(new_note_json));
        push_line(&mut lines, String::new());
        push_line(&mut lines, String::from_str("## Existing Note"));
        push_line(&mut lines, String::from_str(existing_note_json));
        assert(views(lines@) =~= seq![
            "## New Note"@,
            new_note_json@,
            Seq::<char>::empty(),
            "## Existing Note"@,
            existing_note_json@,
        ]);
        prompt_request(system, &lines, self.max_tokens)
    }
}

impl Default for ConstructNoteConfig {
    fn default() -> (r: ConstructNoteConfig)
        ensures
            r.system_prompt is None,
            r.max_tokens == 1024,
    {
        ConstructNoteConfig::default_config()
    }
}

impl Default for LinkGenerationConfig {
    fn default() -> (r: LinkGenerationConfig)
        ensures
            r.system_prompt is None,
            r.max_tokens == 512,
    {
        LinkGenerationConfig::default_config()
    }
}

impl Default for EvolveMemoryConfig {
    fn default() -> (r: EvolveMemoryConfig)
        ensures
            r.system_prompt is None,
            r.max_tokens == 1024,
    {
        EvolveMemoryConfig::default_config()
    }
}

} // verus!
