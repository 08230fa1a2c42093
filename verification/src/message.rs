//! Conversation messages: roles, content parts and compaction policies.
use serde_json::Value;
use vstd::prelude::*;

verus! {

/// How a message is treated when the context is compacted.
#[derive(Debug, Clone, Copy, PartialEq, Eq, Structural)]
pub enum CompactionPolicy {
    /// Never removed by compaction.
    Pinned,
    /// Ordinary message, removed after the other removable tiers.
    Normal,
    /// Removed before normal messages.
    CompressFirst,
    /// Removed first of all.
    DiscardWhenDone,
}

/// Who produced a message.
#[derive(Debug, Clone, PartialEq, Eq)]
pub enum Role {
    /// System prompt.
    System,
    /// The human (or calling) side.
    User,
    /// The model.
    Assistant,
    /// The result of a tool call.
    Tool {
        /// The tool's name.
        name: String,
        /// The call this result answers.
        call_id: String,
    },
}

/// One block of message content.
#[derive(Debug, Clone, PartialEq)]
pub enum ContentPart {
    /// Plain text.
    Text { text: String },
    /// A tool call requested by the model.
    ToolUse { id: String, name: String, input: Value },
    /// The result of a tool call.
    ToolResult { tool_use_id: String, content: String, is_error: bool },
}

/// Message content: an ordered list of parts.
#[derive(Debug, Clone, PartialEq)]
pub struct Content {
    /// The parts, in order.
    pub parts: Vec<ContentPart>,
}

/// Per-message annotations.
#[derive(Debug, Clone, Copy, PartialEq, Eq)]
pub struct MessageMeta {
    /// Compaction policy of the message.
    pub policy: CompactionPolicy,
}

/// A message in the context window.
#[derive(Debug, Clone, PartialEq)]
pub struct Message {
    /// Who produced it.
    pub role: Role,
    /// What it says.
    pub content: Content,
    /// Annotations.
    pub meta: MessageMeta,
}

/// The mathematical model of a message: role, content parts, policy.
pub struct MessageModel {
    /// Who produced the message.
    pub role: Role,
    /// The content parts, in order.
    pub parts: Seq<ContentPart>,
    /// Compaction policy.
    pub policy: CompactionPolicy,
}

impl DeepView for Message {
    type V = MessageModel;

    open spec fn deep_view(&self) -> MessageModel {
        MessageModel { role: self.role, parts: self.content.parts@, policy: self.meta.policy }
    }
}

/// Text carried by one part (tool calls and results carry none).
pub open spec fn part_text(p: ContentPart) -> Seq<char> {
    match p {
        ContentPart::Text { text } => text@,
        _ => Seq::empty(),
    }
}

/// Concatenated text of a list of parts.
pub open spec fn parts_text(parts: Seq<ContentPart>) -> Seq<char>
    decreases parts.len(),
{
    if parts.len() == 0 {
        Seq::empty()
    } else {
        parts_text(parts.drop_last()) + part_text(parts.last())
    }
}

/// Concatenated text of a message.
pub open spec fn message_text(m: MessageModel) -> Seq<char> {
    parts_text(m.parts)
}

/// Estimated token count of a message: one token per four characters of text.
pub open spec fn message_tokens(m: MessageModel) -> nat {
    message_text(m).len() / 4
}

/// Sum of the estimated token counts of a list of messages.
pub open spec fn total_tokens(msgs: Seq<MessageModel>) -> nat
    decreases msgs.len(),
{
    if msgs.len() == 0 {
        0
    } else {
        total_tokens(msgs.drop_last()) + message_tokens(msgs.last())
    }
}

/// Whether a message is pinned.
pub open spec fn is_pinned(m: MessageModel) -> bool {
    m.policy == CompactionPolicy::Pinned
}

/// Whether a message has the system role.
pub open spec fn is_system(m: MessageModel) -> bool {
    m.role is System
}

/// Number of messages with the given policy in a list.
pub open spec fn count_policy(msgs: Seq<MessageModel>, p: CompactionPolicy) -> nat
    decreases msgs.len(),
{
    if msgs.len() == 0 {
        0
    } else {
        count_policy(msgs.drop_last(), p) + if msgs.last().policy == p { 1nat } else { 0nat }
    }
}

/// Number of pinned messages in a list.
pub open spec fn pinned_count(msgs: Seq<MessageModel>) -> nat {
    count_policy(msgs, CompactionPolicy::Pinned)
}

/// Whether `m` is a single-text-part message with this role, text and policy.
pub open spec fn is_text_message(m: MessageModel, role: Role, text: Seq<char>, policy: CompactionPolicy) -> bool {
    &&& m.role == role
    &&& m.policy == policy
    &&& m.parts.len() == 1
    &&& m.parts[0] matches ContentPart::Text { text: t } && t@ == text
}

/// Text of a single-text-part content.
pub proof fn lemma_single_text(parts: Seq<ContentPart>, text: String)
    requires
        parts == seq![ContentPart::Text { text }],
    ensures
        parts_text(parts) == text@,
{
    assert(parts.drop_last() =~= Seq::<ContentPart>::empty());
    assert(parts_text(parts.drop_last()) == Seq::<char>::empty());
    assert(parts.last() == ContentPart::Text { text });
    assert(parts_text(parts) =~= text@);
}

impl Role {
    /// A copy of this role.
    pub fn duplicate(&self) -> (r: Role)
        ensures
            r == *self,
    {
        match self {
            Role::System => Role::System,
            Role::User => Role::User,
            Role::Assistant => Role::Assistant,
            Role::Tool { name, call_id } => Role::Tool { name: name.clone(), call_id: call_id.clone() },
        }
    }

    /// Whether this is the system role.
    pub fn is_system_role(&self) -> (r: bool)
        ensures
            r == (*self is System),
    {
        match self {
            Role::System => true,
            _ => false,
        }
    }
}

impl ContentPart {
    /// A copy of this part.
    pub fn duplicate(&self) -> (r: ContentPart)
        ensures
            r == *self,
    {
        match self {
            ContentPart::Text { text } => ContentPart::Text { text: text.clone() },
            ContentPart::ToolUse { id, name, input } => ContentPart::ToolUse {
                id: id.clone(),
                name: name.clone(),
                input: input.clone(),
            },
            ContentPart::ToolResult { tool_use_id, content, is_error } => ContentPart::ToolResult {
                tool_use_id: tool_use_id.clone(),
                content: content.clone(),
                is_error: *is_error,
            },
        }
    }
}

impl Content {
    /// Content made of one text part.
    pub fn text(text: &str) -> (r: Content)
        ensures
            r.parts@.len() == 1,
            r.parts@[0] matches ContentPart::Text { text: t } && t@ == text@,
    {
        let mut parts = Vec::new();
        parts.push(ContentPart::Text { text: String::from_str(text) });
        Content { parts }
    }

    /// Content made of one text part, taking ownership of the text.
    pub fn from_string(text: String) -> (r: Content)
        ensures
            r.parts@ == seq![ContentPart::Text { text }],
    {
        let mut parts = Vec::new();
        parts.push(ContentPart::Text { text });
        Content { parts }
    }

    /// A copy of this content.
    pub fn duplicate(&self) -> (r: Content)
        ensures
            r.parts@ == self.parts@,
    {
        let mut parts: Vec<ContentPart> = Vec::new();
        let n = self.parts.len();
        for i in 0..n
            invariant
                n == self.parts@.len(),
                parts@ == self.parts@.subrange(0, i as int),
        {
            parts.push(self.parts[i].duplicate());
        }
        assert(parts@ == self.parts@);
        Content { parts }
    }

    /// The concatenated text of all text parts.
    pub fn as_text(&self) -> (r: String)
        ensures
            r@ == parts_text(self.parts@),
    {
        let mut out = String::new();
        let n = self.parts.len();
        for i in 0..n
            invariant
                n == self.parts@.len(),
                out@ == parts_text(self.parts@.subrange(0, i as int)),
        {
            assert(self.parts@.subrange(0, i + 1).drop_last() == self.parts@.subrange(0, i as int));
            match &self.parts[i] {
                ContentPart::Text { text } => out.append(text.as_str()),
                _ => {},
            }
        }
        assert(self.parts@.subrange(0, n as int) == self.parts@);
        out
    }
}

impl Message {
    /// A message with the given role and content and the `Normal` policy.
    pub fn new(role: Role, content: Content) -> (r: Message)
        ensures
            r.role == role,
            r.content == content,
            r.meta.policy == CompactionPolicy::Normal,
            r.deep_view() == (MessageModel { role, parts: content.parts@, policy: CompactionPolicy::Normal }),
    {
        Message { role, content, meta: MessageMeta { policy: CompactionPolicy::Normal } }
    }

    /// A pinned message with the given role and content.
    pub fn pinned(role: Role, content: Content) -> (r: Message)
        ensures
            r.role == role,
            r.content == content,
            r.meta.policy == CompactionPolicy::Pinned,
    {
        Message { role, content, meta: MessageMeta { policy: CompactionPolicy::Pinned } }
    }

    /// A copy of this message.
    pub fn duplicate(&self) -> (r: Message)
        ensures
            r.deep_view() == self.deep_view(),
    {
        Message { role: self.role.duplicate(), content: self.content.duplicate(), meta: self.meta }
    }

    /// The concatenated text of the message.
    pub fn text_content(&self) -> (r: String)
        ensures
            r@ == message_text(self.deep_view()),
    {
        self.content.as_text()
    }

    /// Estimated token count: one token per four characters of text.
    pub fn estimated_tokens(&self) -> (r: usize)
        ensures
            r == message_tokens(self.deep_view()),
    {
        let t = self.text_content();
        t.as_str().unicode_len() / 4
    }

    /// Whether the message is pinned.
    pub fn is_pinned(&self) -> (r: bool)
        ensures
            r == is_pinned(self.deep_view()),
    {
        self.meta.policy == CompactionPolicy::Pinned
    }
}

/// A copy of a list of messages.
pub fn copy_messages(msgs: &[Message]) -> (r: Vec<Message>)
    ensures
        r.deep_view() == msgs.deep_view(),
{
    let mut out: Vec<Message> = Vec::new();
    let n = msgs.len();
    for i in 0..n
        invariant
            n == msgs@.len(),
            out.deep_view() == msgs.deep_view().subrange(0, i as int),
    {
        let ghost before = out.deep_view();
        out.push(msgs[i].duplicate());
        assert(out.deep_view() =~= before.push(msgs[i as int].deep_view()));
        assert(msgs.deep_view().subrange(0, i + 1) =~= msgs.deep_view().subrange(0, i as int).push(msgs[i as int].deep_view()));
    }
    assert(out.deep_view() == msgs.deep_view());
    out
}

/// Sum of estimated token counts of a list of messages.
pub fn sum_tokens(msgs: &[Message]) -> (r: usize)
    requires
        total_tokens(msgs.deep_view()) <= usize::MAX,
    ensures
        r == total_tokens(msgs.deep_view()),
{
    let mut total: usize = 0;
    let n = msgs.len();
    for i in 0..n
        invariant
            n == msgs@.len(),
            total == total_tokens(msgs.deep_view().subrange(0, i as int)),
            total_tokens(msgs.deep_view()) <= usize::MAX,
    {
        let ghost dv = msgs.deep_view();
        assert(dv.subrange(0, i + 1).drop_last() == dv.subrange(0, i as int));
        proof {
            lemma_total_tokens_prefix(dv, i as int + 1);
        }
        total = total + msgs[i].estimated_tokens();
    }
    assert(msgs.deep_view().subrange(0, n as int) == msgs.deep_view());
    total
}

/// Token totals grow with the prefix taken.
pub proof fn lemma_total_tokens_prefix(msgs: Seq<MessageModel>, k: int)
    requires
        0 <= k <= msgs.len(),
    ensures
        total_tokens(msgs.subrange(0, k)) <= total_tokens(msgs),
    decreases msgs.len() - k,
{
    if k < msgs.len() {
        lemma_total_tokens_prefix(msgs, k + 1);
        assert(msgs.subrange(0, k + 1).drop_last() == msgs.subrange(0, k));
    } else {
        assert(msgs.subrange(0, k) == msgs);
    }
}

/// Number of pinned messages in a list.
pub fn count_pinned(msgs: &[Message]) -> (r: usize)
    ensures
        r == pinned_count(msgs.deep_view()),
{
    let mut count: usize = 0;
    let n = msgs.len();
    for i in 0..n
        invariant
            n == msgs@.len(),
            count == pinned_count(msgs.deep_view().subrange(0, i as int)),
            count <= i,
    {
        let ghost dv = msgs.deep_view();
        assert(dv.subrange(0, i + 1).drop_last() == dv.subrange(0, i as int));
        if msgs[i].is_pinned() {
            count = count + 1;
        }
    }
    assert(msgs.deep_view().subrange(0, n as int) == msgs.deep_view());
    count
}

} // verus!
