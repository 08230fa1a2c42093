//! Moving memory between a state store and the context: where fetched
//! entries are inserted, how they read, which fetched entries are kept, and
//! how a stored conversation is loaded. The store calls themselves are made
//! by the runtime.
use crate::context::Context;
use crate::error::EngineError;
use crate::json::{json_text, json_to_text};
use crate::message::{is_system, is_text_message, CompactionPolicy, Content, Message, MessageModel, Role};
use serde_json::Value;
use vstd::prelude::*;

verus! {

/// Where injected messages go.
#[derive(Debug, Clone, Copy, PartialEq, Eq)]
pub enum InjectionPosition {
    /// After a leading system message (index 1), else at the start.
    AfterSystemPrompt,
    /// At the end.
    Append,
    /// At this index, clamped to the number of messages.
    At(usize),
}

/// The index at which injected messages are inserted.
pub open spec fn injection_index_spec(position: InjectionPosition, msgs: Seq<MessageModel>) -> int {
    match position {
        InjectionPosition::AfterSystemPrompt => if msgs.len() > 0 && is_system(msgs[0]) {
            1
        } else {
            0
        },
        InjectionPosition::Append => msgs.len() as int,
        InjectionPosition::At(i) => if i < msgs.len() {
            i as int
        } else {
            msgs.len() as int
        },
    }
}

/// Where injected messages go: right after a leading system prompt (at the
/// start when there is none), at the end, or at a given index clamped to the
/// number of messages; never past the end.
pub proof fn law_injection_index(position: InjectionPosition, msgs: Seq<MessageModel>)
    ensures
        0 <= injection_index_spec(position, msgs) <= msgs.len(),
        position == InjectionPosition::Append ==> injection_index_spec(position, msgs) == msgs.len(),
        position matches InjectionPosition::At(i) ==> injection_index_spec(position, msgs) == if i <= msgs.len() {
            i as int
        } else {
            msgs.len() as int
        },
        position == InjectionPosition::AfterSystemPrompt ==> (injection_index_spec(position, msgs) == 1 <==> (
        msgs.len() > 0 && msgs[0].role == Role::System)) && (injection_index_spec(position, msgs) == 0 <==> !(
        msgs.len() > 0 && msgs[0].role == Role::System)),
{
}

/// The index at which injected messages are inserted.
pub fn injection_index(position: InjectionPosition, messages: &[Message]) -> (r: usize)
    ensures
        r == injection_index_spec(position, messages.deep_view()),
        r <= messages@.len(),
{
    let n = messages.len();
    match position {
        InjectionPosition::AfterSystemPrompt => {
            if n > 0 && messages[0].role.is_system_role() {
                1
            } else {
                0
            }
        },
        InjectionPosition::Append => n,
        InjectionPosition::At(i) => if i < n {
            i
        } else {
            n
        },
    }
}

/// The default text of a memory entry: `[Memory: <key>] <value as JSON>`.
pub open spec fn memory_text_spec(key: Seq<char>, value: Value) -> Seq<char> {
    "[Memory: "@ + key + "] "@ + json_text(value)
}

/// The default text of a memory entry.
pub fn memory_text(key: &str, value: &Value) -> (r: String)
    ensures
        r@ == memory_text_spec(key@, *value),
{
    proof {
        reveal_strlit("[Memory: ");
        reveal_strlit("] ");
    }
    String::from_str("[Memory: ").concat(key).concat("] ").concat(json_to_text(value).as_str())
}

/// Whether `inserted` are the messages for these texts, with this role and
/// policy.
pub open spec fn are_injected(inserted: Seq<MessageModel>, texts: Seq<String>, role: Role, policy: CompactionPolicy) -> bool {
    &&& inserted.len() == texts.len()
    &&& forall|i: int| 0 <= i < texts.len() ==> is_text_message(#[trigger] inserted[i], role, texts[i]@, policy)
}

/// Insert one message per text at `index`, in order, with this role and
/// policy; returns how many were inserted.
pub fn insert_texts(ctx: &mut Context, index: usize, texts: Vec<String>, role: &Role, policy: CompactionPolicy) -> (r: usize)
    requires
        index <= old(ctx).messages_model().len(),
    ensures
        r == texts@.len(),
        final(ctx).messages_model().len() == old(ctx).messages_model().len() + texts@.len(),
        final(ctx).messages_model().take(index as int) == old(ctx).messages_model().take(index as int),
        are_injected(
            final(ctx).messages_model().subrange(index as int, index + texts@.len()),
            texts@,
            *role,
            policy,
        ),
        final(ctx).messages_model().skip(index + texts@.len()) == old(ctx).messages_model().skip(index as int),
        final(ctx).metrics == old(ctx).metrics,
        final(ctx).intents_model() == old(ctx).intents_model(),
        final(ctx).rules_model() == old(ctx).rules_model(),
{
    let ghost start = ctx.messages_model();
    let n = texts.len();
    let mut i: usize = 0;
    while i < n
        invariant
            n == texts@.len(),
            i <= n,
            index <= start.len(),
            ctx.messages_model().len() == start.len() + i,
            ctx.messages_model().take(index as int) == start.take(index as int),
            are_injected(ctx.messages_model().subrange(index as int, index + i), texts@.take(i as int), *role, policy),
            ctx.messages_model().skip(index + i) == start.skip(index as int),
            ctx.metrics == old(ctx).metrics,
            ctx.intents_model() == old(ctx).intents_model(),
            ctx.rules_model() == old(ctx).rules_model(),
        decreases n - i,
    {
        let text = texts[i].clone();
        let mut msg = Message::new(role.duplicate(), Content::from_string(text));
        msg.meta.policy = policy;
        proof {
            crate::message::lemma_single_text(msg.content.parts@, text);
        }
        let ghost before = ctx.messages_model();
        let ghost mv = msg.deep_view();
        assert(is_text_message(mv, *role, texts@[i as int]@, policy));
        let current = ctx.messages.len();
        assert(ctx.messages_model().len() == current);
        ctx.insert_message(index + i, msg);
        let ghost after = ctx.messages_model();
        assert(after == before.insert(index + i, mv));
        assert(after.take(index as int) =~= before.take(index as int));
        assert(after.skip(index + i + 1) =~= before.skip(index + i));
        assert(texts@.take(i + 1) == texts@.take(i as int).push(texts@[i as int]));
        assert(after.subrange(index as int, index + i + 1) =~= before.subrange(index as int, index + i).push(mv));
        i = i + 1;
    }
    assert(texts@.take(n as int) == texts@);
    n
}

/// Pre-fetched memory entries to inject into the context.
#[derive(Debug, Clone)]
pub struct InjectSearchResults {
    /// `(key, value)` entries, in order.
    pub results: Vec<(String, Value)>,
    /// Where they go.
    pub position: InjectionPosition,
    /// Role of the injected messages.
    pub role: Role,
    /// Compaction policy of the injected messages.
    pub policy: CompactionPolicy,
}

/// The default texts of a list of entries.
pub open spec fn memory_texts(results: Seq<(String, Value)>) -> Seq<Seq<char>> {
    results.map_values(|e: (String, Value)| memory_text_spec(e.0@, e.1))
}

/// Views of a list of strings.
pub open spec fn text_views(texts: Seq<String>) -> Seq<Seq<char>> {
    texts.map_values(|t: String| t@)
}

impl InjectSearchResults {
    /// Entries injected as system messages after the system prompt, with the
    /// `CompressFirst` policy.
    pub fn new(results: Vec<(String, Value)>) -> (r: InjectSearchResults)
        ensures
            r.results == results,
            r.position == InjectionPosition::AfterSystemPrompt,
            r.role == Role::System,
            r.policy == CompactionPolicy::CompressFirst,
    {
        InjectSearchResults {
            results,
            position: InjectionPosition::AfterSystemPrompt,
            role: Role::System,
            policy: CompactionPolicy::CompressFirst,
        }
    }

    /// Set where the messages go.
    pub fn with_position(self, position: InjectionPosition) -> (r: InjectSearchResults)
        ensures
            r == (InjectSearchResults { position, ..self }),
    {
        InjectSearchResults { position, ..self }
    }

    /// Set the role of the messages.
    pub fn with_role(self, role: Role) -> (r: InjectSearchResults)
        ensures
            r == (InjectSearchResults { role, ..self }),
    {
        InjectSearchResults { role, ..self }
    }

    /// Set the compaction policy of the messages.
    pub fn with_policy(self, policy: CompactionPolicy) -> (r: InjectSearchResults)
        ensures
            r == (InjectSearchResults { policy, ..self }),
    {
        InjectSearchResults { policy, ..self }
    }

    /// The default texts of the entries.
    pub fn default_texts(&self) -> (r: Vec<String>)
        ensures
            text_views(r@) == memory_texts(self.results@),
    {
        let mut out: Vec<String> = Vec::new();
        let n = self.results.len();
        for i in 0..n
            invariant
                n == self.results@.len(),
                text_views(out@) == memory_texts(self.results@.take(i as int)),
        {
            let e = &self.results[i];
            let ghost before = out@;
            out.push(memory_text(e.0.as_str(), &e.1));
            assert(text_views(out@) =~= text_views(before).push(memory_text_spec(e.0@, e.1)));
            assert(memory_texts(self.results@.take(i + 1)) =~= memory_texts(self.results@.take(i as int)).push(
                memory_text_spec(e.0@, e.1),
            ));
        }
        assert(self.results@.take(n as int) == self.results@);
        out
    }

    /// Inject the given texts (one per entry, as a custom formatter wrote
    /// them) at the configured position; returns how many were injected.
    pub fn inject_texts(&self, ctx: &mut Context, texts: Vec<String>) -> (r: usize)
        ensures
            r == texts@.len(),
            ({
                let at = injection_index_spec(self.position, old(ctx).messages_model());
                &&& final(ctx).messages_model().len() == old(ctx).messages_model().len() + texts@.len()
                &&& final(ctx).messages_model().take(at) == old(ctx).messages_model().take(at)
                &&& are_injected(
                    final(ctx).messages_model().subrange(at, at + texts@.len()),
                    texts@,
                    self.role,
                    self.policy,
                )
                &&& final(ctx).messages_model().skip(at + texts@.len()) == old(ctx).messages_model().skip(at)
            }),
            final(ctx).metrics == old(ctx).metrics,
            final(ctx).intents_model() == old(ctx).intents_model(),
    {
        let at = injection_index(self.position, ctx.messages());
        insert_texts(ctx, at, texts, &self.role, self.policy)
    }

    /// Inject every entry with its default text at the configured position;
    /// returns how many were injected.
    pub fn execute(&self, ctx: &mut Context) -> (r: usize)
        ensures
            r == self.results@.len(),
            ({
                let at = injection_index_spec(self.position, old(ctx).messages_model());
                let new_len = old(ctx).messages_model().len() + self.results@.len();
                &&& final(ctx).messages_model().len() == new_len
                &&& final(ctx).messages_model().take(at) == old(ctx).messages_model().take(at)
                &&& forall|i: int|
                    0 <= i < self.results@.len() ==> is_text_message(
                        #[trigger] final(ctx).messages_model()[at + i],
                        self.role,
                        memory_texts(self.results@)[i],
                        self.policy,
                    )
                &&& final(ctx).messages_model().skip(at + self.results@.len()) == old(
                    ctx,
                ).messages_model().skip(at)
            }),
            final(ctx).metrics == old(ctx).metrics,
            final(ctx).intents_model() == old(ctx).intents_model(),
    {
        let texts = self.default_texts();
        let ghost tv = texts@;
        let ghost at = injection_index_spec(self.position, old(ctx).messages_model());
        assert(tv.len() == self.results@.len()) by {
            assert(text_views(tv).len() == tv.len());
            assert(memory_texts(self.results@).len() == self.results@.len());
        }
        let r = self.inject_texts(ctx, texts);
        assert forall|i: int| 0 <= i < self.results@.len() implies is_text_message(
            #[trigger] ctx.messages_model()[at + i],
            self.role,
            memory_texts(self.results@)[i],
            self.policy,
        ) by {
            assert(ctx.messages_model().subrange(at, at + tv.len())[i] == ctx.messages_model()[at + i]);
            assert(text_views(tv)[i] == tv[i]@);
        }
        r
    }
}

/// The entries a search found that could still be read, in order: entries
/// whose read came back empty (deleted in between) are skipped.
pub open spec fn fetched_entries(keys: Seq<String>, reads: Seq<Option<Value>>) -> Seq<(Seq<char>, Value)>
    decreases keys.len(),
{
    if keys.len() == 0 || reads.len() != keys.len() {
        Seq::empty()
    } else {
        let rest = fetched_entries(keys.drop_last(), reads.drop_last());
        match reads.last() {
            Some(v) => rest.push((keys.last()@, v)),
            None => rest,
        }
    }
}

/// Views of `(key, value)` entries.
pub open spec fn entry_views(entries: Seq<(String, Value)>) -> Seq<(Seq<char>, Value)> {
    entries.map_values(|e: (String, Value)| (e.0@, e.1))
}

/// Pair each searched key with the value read for it, keeping only the keys
/// that still exist.
pub fn collect_fetched(keys: &Vec<String>, reads: &Vec<Option<Value>>) -> (r: Vec<(String, Value)>)
    requires
        reads@.len() == keys@.len(),
    ensures
        entry_views(r@) == fetched_entries(keys@, reads@),
{
    let mut out: Vec<(String, Value)> = Vec::new();
    let n = keys.len();
    for i in 0..n
        invariant
            n == keys@.len(),
            n == reads@.len(),
            entry_views(out@) == fetched_entries(keys@.take(i as int), reads@.take(i as int)),
    {
        assert(keys@.take(i + 1).drop_last() == keys@.take(i as int));
        assert(reads@.take(i + 1).drop_last() == reads@.take(i as int));
        match &reads[i] {
            Some(value) => {
                let ghost before = out@;
                out.push((keys[i].clone(), value.clone()));
                assert(entry_views(out@) =~= entry_views(before).push((keys@[i as int]@, *value)));
            },
            None => {},
        }
    }
    assert(keys@.take(n as int) == keys@);
    assert(reads@.take(n as int) == reads@);
    out
}

/// The outcome of loading a stored conversation, given what the store read
/// gave (`None` for a missing key) and, when present, the decoded messages
/// or the decoding error: a missing key leaves the context unchanged and
/// gives `None`; decoded messages replace the context's and give their
/// number; a decoding error halts.
pub fn load_conversation(ctx: &mut Context, stored: Option<Result<Vec<Message>, String>>) -> (r: Result<Option<usize>, EngineError>)
    ensures
        match stored {
            None => r == Ok::<Option<usize>, EngineError>(None) && final(ctx).messages_model() == old(
                ctx,
            ).messages_model(),
            Some(Ok(msgs)) => r == Ok::<Option<usize>, EngineError>(Some(msgs@.len() as usize))
                && final(ctx).messages_model() == msgs.deep_view(),
            Some(Err(e)) => r matches Err(EngineError::Halted { reason }) && reason@
                == "failed to deserialize conversation: "@ + e@ && final(ctx).messages_model() == old(
                ctx,
            ).messages_model(),
        },
        final(ctx).metrics == old(ctx).metrics,
        final(ctx).intents_model() == old(ctx).intents_model(),
{
    proof {
        reveal_strlit("failed to deserialize conversation: ");
    }
    match stored {
        None => Ok(None),
        Some(Ok(msgs)) => {
            let n = msgs.len();
            ctx.set_messages(msgs);
            Ok(Some(n))
        },
        Some(Err(e)) => Err(
            EngineError::Halted {
                reason: String::from_str("failed to deserialize conversation: ").concat(e.as_str()),
            },
        ),
    }
}

} // verus!
