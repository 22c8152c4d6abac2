use vstd::prelude::*;

verus! {

/// Speaker of a conversation entry. The vocabulary is the upstream provider's:
/// a role carries over one-to-one when a request is translated.
#[derive(Clone, Copy, Debug, PartialEq, Eq, Structural)]
pub enum Role {
    System,
    User,
    Assistant,
    Function,
}

/// One entry of the caller's conversation.
#[derive(Clone, Debug)]
pub struct ChatMessage {
    pub role: Role,
    pub content: String,
}

/// A function-call annotation as the upstream schema knows it. The gateway
/// never fills one in: translation leaves the field empty.
#[derive(Clone, Debug)]
pub struct FunctionCall {
    pub name: String,
    pub arguments: String,
}

/// One entry of the upstream request's conversation. `name` and
/// `function_call` exist in the upstream schema but are never populated by
/// this gateway, which the translation contract states.
#[derive(Clone, Debug)]
pub struct UpstreamMessage {
    pub role: Role,
    pub content: Option<String>,
    pub name: Option<String>,
    pub function_call: Option<FunctionCall>,
}

/// `u` is the faithful translation of `m`: same role, the same content made
/// present, and no additional fields populated.
pub open spec fn message_translated(m: ChatMessage, u: UpstreamMessage) -> bool {
    &&& u.role == m.role
    &&& u.content matches Some(c) && c@ == m.content@
    &&& u.name is None
    &&& u.function_call is None
}

/// `dst` translates `src` element-wise, preserving order and length.
pub open spec fn conversation_translated(src: Seq<ChatMessage>, dst: Seq<UpstreamMessage>) -> bool {
    &&& dst.len() == src.len()
    &&& forall|i: int| 0 <= i < src.len() ==> message_translated(src[i], #[trigger] dst[i])
}

pub fn translate_message(m: &ChatMessage) -> (u: UpstreamMessage)
    ensures
        message_translated(*m, u),
{
    UpstreamMessage {
        role: m.role,
        content: Some(m.content.clone()),
        name: None,
        function_call: None,
    }
}

pub fn translate_conversation(src: &Vec<ChatMessage>) -> (dst: Vec<UpstreamMessage>)
    ensures
        conversation_translated(src@, dst@),
{
    let mut dst: Vec<UpstreamMessage> = Vec::new();
    let mut i: usize = 0;
    while i < src.len()
        invariant
            i <= src@.len(),
            dst@.len() == i as int,
            forall|j: int| 0 <= j < i as int ==> message_translated(src@[j], #[trigger] dst@[j]),
        decreases src@.len() - i,
    {
        let u = translate_message(&src[i]);
        dst.push(u);
        i = i + 1;
    }
    dst
}

} // verus!
