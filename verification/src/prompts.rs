//! Building single-message prompt requests from labelled lines.
use crate::infer::InferRequest;
use crate::message::{
    is_text_message, message_text, CompactionPolicy, Content, Message, MessageModel, Role,
    lemma_single_text,
};
use crate::text::{join_lines, join_with_newlines};
use vstd::prelude::*;

verus! {

/// The label of a role in a transcript line: `system`, `user`, `assistant`,
/// or the tool's name.
pub open spec fn role_label(r: Role) -> Seq<char> {
    match r {
        Role::System => "system"@,
        Role::User => "user"@,
        Role::Assistant => "assistant"@,
        Role::Tool { name, .. } => name@,
    }
}

/// A transcript line: `[label] text`.
pub open spec fn message_line(m: MessageModel) -> Seq<char> {
    "["@ + role_label(m.role) + "] "@ + message_text(m)
}

/// Transcript lines of a list of messages.
pub open spec fn transcript(msgs: Seq<MessageModel>) -> Seq<Seq<char>> {
    msgs.map_values(|m: MessageModel| message_line(m))
}

/// Views of a list of strings.
pub open spec fn views(lines: Seq<String>) -> Seq<Seq<char>> {
    lines.map_values(|l: String| l@)
}

/// Whether `r` is a request with this system prompt and token limit whose
/// only message is a user message with this text.
pub open spec fn is_prompt_request(r: InferRequest, system: Seq<char>, user_text: Seq<char>, max_tokens: u32) -> bool {
    &&& r.system matches Some(s) && s@ == system
    &&& r.max_tokens == Some(max_tokens)
    &&& r.model is None
    &&& r.tools@.len() == 0
    &&& r.messages@.len() == 1
    &&& is_text_message(r.messages@[0].deep_view(), Role::User, user_text, CompactionPolicy::Normal)
}

/// Transcript lines: one per message, in order, each `[label] text` with the
/// role's label and the message's text.
pub proof fn law_transcript(msgs: Seq<MessageModel>)
    ensures
        transcript(msgs).len() == msgs.len(),
        forall|k: int|
            0 <= k < msgs.len() ==> #[trigger] transcript(msgs)[k] == "["@ + role_label(msgs[k].role) + "] "@
                + message_text(msgs[k]),
{
}

/// A prompt request has the given system prompt and token limit, no model and
/// no tools, and one message: a user message whose only part is the given
/// text.
pub proof fn law_prompt_request(r: InferRequest, system: Seq<char>, user_text: Seq<char>, max_tokens: u32)
    requires
        is_prompt_request(r, system, user_text, max_tokens),
    ensures
        r.system matches Some(s) && s@ == system,
        r.max_tokens == Some(max_tokens),
        r.tools@.len() == 0,
        r.messages@.len() == 1,
        r.messages@[0].deep_view().role == Role::User,
        r.messages@[0].deep_view().parts.len() == 1,
        message_text(r.messages@[0].deep_view()) == user_text,
{
    let m = r.messages@[0].deep_view();
    assert(m.parts == seq![m.parts[0]]);
    lemma_single_text(m.parts, m.parts[0]->Text_text);
}

/// The label of a role.
pub fn role_label_text(r: &Role) -> (s: String)
    ensures
        s@ == role_label(*r),
{
    proof {
        reveal_strlit("system");
        reveal_strlit("user");
        reveal_strlit("assistant");
    }
    match r {
        Role::System => String::from_str("system"),
        Role::User => String::from_str("user"),
        Role::Assistant => String::from_str("assistant"),
        Role::Tool { name, .. } => name.clone(),
    }
}

/// Append the transcript lines of `msgs` to `lines`.
pub fn push_transcript(lines: &mut Vec<String>, msgs: &[Message])
    ensures
        views(final(lines)@) == views(old(lines)@) + transcript(msgs.deep_view()),
{
    let n = msgs.len();
    let ghost start = views(lines@);
    proof {
        reveal_strlit("[");
        reveal_strlit("] ");
    }
    for i in 0..n
        invariant
            n == msgs@.len(),
            n == msgs.deep_view().len(),
            views(lines@) == start + transcript(msgs.deep_view().take(i as int)),
    {
        let m = &msgs[i];
        let line = String::from_str("[")
            .concat(role_label_text(&m.role).as_str())
            .concat("] ")
            .concat(m.text_content().as_str());
        let ghost before = lines@;
        lines.push(line);
        assert(views(lines@) =~= views(before).push(line@));
        assert(transcript(msgs.deep_view().take(i + 1)) =~= transcript(msgs.deep_view().take(i as int)).push(
            message_line(msgs.deep_view()[i as int])));
    }
    assert(msgs.deep_view().take(n as int) =~= msgs.deep_view());
}

/// Append one line.
pub fn push_line(lines: &mut Vec<String>, line: String)
    ensures
        views(final(lines)@) == views(old(lines)@).push(line@),
{
    let ghost before = lines@;
    lines.push(line);
    assert(views(lines@) =~= views(before).push(line@));
}

/// A request with `system` as system prompt, `max_tokens` as limit and the
/// lines joined by newlines as its single user message.
pub fn prompt_request(system: String, lines: &Vec<String>, max_tokens: u32) -> (r: InferRequest)
    ensures
        is_prompt_request(r, system@, join_lines(views(lines@)), max_tokens),
{
    let text = join_with_newlines(lines);
    assert(views(lines@) == lines@.map_values(|l: String| l@));
    let msg = Message::new(Role::User, Content::from_string(text));
    let mut msgs: Vec<Message> = Vec::new();
    msgs.push(msg);
    let mut request = InferRequest::new(msgs);
    request.system = Some(system);
    request.max_tokens = Some(max_tokens);
    request
}

/// The configured system prompt, or the default.
pub fn prompt_or_default(custom: &Option<String>, default: &str) -> (r: String)
    ensures
        r@ == match custom {
            Some(s) => s@,
            None => default@,
        },
{
    match custom {
        Some(s) => s.clone(),
        None => String::from_str(default),
    }
}

} // verus!
