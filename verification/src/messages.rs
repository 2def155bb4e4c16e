//! Messages of a conversation.

use crate::json::JsonText;
use crate::text::utf8_len;
use vstd::prelude::*;
use vstd::string::StringExecFns;

verus! {

/// Whether a text can be a part: there is some, and it is not too long.
pub open spec fn fits_part(text: Seq<char>, max_bytes: usize) -> bool {
    text.len() > 0 && utf8_len(text) <= max_bytes
}

/// A part of a message.
#[derive(Clone, Debug)]
pub struct TextPart {
    /// The text.
    pub text: String,
}

impl TextPart {
    /// A part with some text that fits into a number of bytes.
    pub fn try_new(text: &str, max_bytes: usize) -> (r: Option<Self>)
        ensures
            r is Some <==> fits_part(text@, max_bytes),
            r is Some ==> r->0.text@ == text@,
    {
        if text.is_empty() || text.len() > max_bytes {
            return None;
        }
        Some(TextPart { text: String::from_str(text) })
    }

    /// The text.
    pub fn text(&self) -> (r: &str)
        ensures
            r@ == self.text@,
    {
        self.text.as_str()
    }
}

/// A tool call that the model made.
#[derive(Clone, Debug)]
pub struct CanonicalAssistantToolCall {
    /// Identity that the provider gave to the call.
    pub tool_call_id: String,
    /// Name of the tool.
    pub tool_name: String,
    /// Arguments.
    pub arguments: JsonText,
}

/// A message.
#[derive(Clone, Debug)]
pub enum CanonicalMessage {
    /// Instruction.
    System {
        /// Parts.
        content: Vec<TextPart>,
        /// Name of the author.
        name: Option<String>,
    },
    /// From the user.
    User {
        /// Parts.
        content: Vec<TextPart>,
        /// Name of the author.
        name: Option<String>,
    },
    /// From the model.
    Assistant {
        /// Parts.
        content: Vec<TextPart>,
        /// Tool calls.
        tool_calls: Vec<CanonicalAssistantToolCall>,
    },
    /// From a tool.
    Tool {
        /// The call that it answers.
        tool_call_id: String,
        /// Parts.
        content: Vec<TextPart>,
    },
}

impl CanonicalMessage {
    /// The parts of a message.
    pub open spec fn parts(self) -> Seq<TextPart> {
        match self {
            CanonicalMessage::System { content, .. } => content@,
            CanonicalMessage::User { content, .. } => content@,
            CanonicalMessage::Assistant { content, .. } => content@,
            CanonicalMessage::Tool { content, .. } => content@,
        }
    }

    /// The parts of a message.
    pub fn content(&self) -> (r: &Vec<TextPart>)
        ensures
            r@ == self.parts(),
    {
        match self {
            CanonicalMessage::System { content, .. } => content,
            CanonicalMessage::User { content, .. } => content,
            CanonicalMessage::Assistant { content, .. } => content,
            CanonicalMessage::Tool { content, .. } => content,
        }
    }
}

/// Sum of two sizes; the largest machine number is never exceeded.
pub open spec fn sat_sum(a: usize, b: usize) -> usize {
    if a + b > usize::MAX {
        usize::MAX
    } else {
        (a + b) as usize
    }
}

/// Bytes of the parts, added to a size.
pub open spec fn plus_parts(start: usize, parts: Seq<TextPart>) -> usize
    decreases parts.len(),
{
    if parts.len() == 0 {
        start
    } else {
        sat_sum(plus_parts(start, parts.drop_last()), utf8_len(parts.last().text@))
    }
}

/// Bytes of the tool calls, added to a size: identity, name and arguments of each.
pub open spec fn plus_calls(start: usize, calls: Seq<CanonicalAssistantToolCall>) -> usize
    decreases calls.len(),
{
    if calls.len() == 0 {
        start
    } else {
        let c = calls.last();
        sat_sum(
            sat_sum(
                sat_sum(plus_calls(start, calls.drop_last()), utf8_len(c.tool_call_id@)),
                utf8_len(c.tool_name@),
            ),
            utf8_len(c.arguments@),
        )
    }
}

/// Bytes of a message, added to a size.
pub open spec fn plus_message(start: usize, m: CanonicalMessage) -> usize {
    match m {
        CanonicalMessage::System { content, name } => plus_parts(
            match name {
                Some(n) => sat_sum(start, utf8_len(n@)),
                None => start,
            },
            content@,
        ),
        CanonicalMessage::User { content, name } => plus_parts(
            match name {
                Some(n) => sat_sum(start, utf8_len(n@)),
                None => start,
            },
            content@,
        ),
        CanonicalMessage::Assistant { content, tool_calls } => plus_calls(
            plus_parts(start, content@),
            tool_calls@,
        ),
        CanonicalMessage::Tool { tool_call_id, content } => plus_parts(
            sat_sum(start, utf8_len(tool_call_id@)),
            content@,
        ),
    }
}

/// Bytes of a conversation.
pub open spec fn transcript_bytes(messages: Seq<CanonicalMessage>) -> usize
    decreases messages.len(),
{
    if messages.len() == 0 {
        0
    } else {
        plus_message(transcript_bytes(messages.drop_last()), messages.last())
    }
}

fn add_parts(start: usize, parts: &Vec<TextPart>) -> (r: usize)
    ensures
        r == plus_parts(start, parts@),
{
    let mut total: usize = start;
    let mut i: usize = 0;
    assert(parts@.take(0) =~= Seq::<TextPart>::empty());
    while i < parts.len()
        invariant
            i <= parts.len(),
            total == plus_parts(start, parts@.take(i as int)),
        decreases parts.len() - i,
    {
        total = total.saturating_add(parts[i].text.as_str().len());
        proof {
            let t = parts@.take(i as int + 1);
            assert(t.drop_last() =~= parts@.take(i as int));
        }
        i = i + 1;
    }
    assert(parts@.take(i as int) =~= parts@);
    total
}

fn add_calls(start: usize, calls: &Vec<CanonicalAssistantToolCall>) -> (r: usize)
    ensures
        r == plus_calls(start, calls@),
{
    let mut total: usize = start;
    let mut i: usize = 0;
    assert(calls@.take(0) =~= Seq::<CanonicalAssistantToolCall>::empty());
    while i < calls.len()
        invariant
            i <= calls.len(),
            total == plus_calls(start, calls@.take(i as int)),
        decreases calls.len() - i,
    {
        total = total.saturating_add(calls[i].tool_call_id.as_str().len());
        total = total.saturating_add(calls[i].tool_name.as_str().len());
        total = total.saturating_add(calls[i].arguments.as_str().len());
        proof {
            let t = calls@.take(i as int + 1);
            assert(t.drop_last() =~= calls@.take(i as int));
        }
        i = i + 1;
    }
    assert(calls@.take(i as int) =~= calls@);
    total
}

/// Bytes of a message, added to a size.
pub fn add_message_bytes(start: usize, message: &CanonicalMessage) -> (r: usize)
    ensures
        r == plus_message(start, *message),
{
    match message {
        CanonicalMessage::System { content, name } | CanonicalMessage::User { content, name } => {
            let named: usize = match name {
                Some(n) => start.saturating_add(n.as_str().len()),
                None => start,
            };
            add_parts(named, content)
        },
        CanonicalMessage::Assistant { content, tool_calls } => add_calls(
            add_parts(start, content),
            tool_calls,
        ),
        CanonicalMessage::Tool { tool_call_id, content } => add_parts(
            start.saturating_add(tool_call_id.as_str().len()),
            content,
        ),
    }
}

/// Bytes of a conversation.
pub fn estimate_messages_bytes(messages: &Vec<CanonicalMessage>) -> (r: usize)
    ensures
        r == transcript_bytes(messages@),
{
    let mut total: usize = 0;
    let mut i: usize = 0;
    assert(messages@.take(0) =~= Seq::<CanonicalMessage>::empty());
    while i < messages.len()
        invariant
            i <= messages.len(),
            total == transcript_bytes(messages@.take(i as int)),
        decreases messages.len() - i,
    {
        total = add_message_bytes(total, &messages[i]);
        proof {
            let t = messages@.take(i as int + 1);
            assert(t.drop_last() =~= messages@.take(i as int));
        }
        i = i + 1;
    }
    assert(messages@.take(i as int) =~= messages@);
    total
}

proof fn lemma_parts_grow(start: usize, parts: Seq<TextPart>)
    ensures
        start <= plus_parts(start, parts),
    decreases parts.len(),
{
    if parts.len() > 0 {
        lemma_parts_grow(start, parts.drop_last());
    }
}

proof fn lemma_calls_grow(start: usize, calls: Seq<CanonicalAssistantToolCall>)
    ensures
        start <= plus_calls(start, calls),
    decreases calls.len(),
{
    if calls.len() > 0 {
        lemma_calls_grow(start, calls.drop_last());
    }
}

/// A conversation never gets smaller by a further message.
pub proof fn transcript_grows(messages: Seq<CanonicalMessage>, next: CanonicalMessage)
    ensures
        transcript_bytes(messages) <= transcript_bytes(messages.push(next)),
{
    assert(messages.push(next).drop_last() =~= messages);
    let start = transcript_bytes(messages);
    match next {
        CanonicalMessage::System { content, name } => {
            lemma_parts_grow(
                match name {
                    Some(n) => sat_sum(start, utf8_len(n@)),
                    None => start,
                },
                content@,
            );
        },
        CanonicalMessage::User { content, name } => {
            lemma_parts_grow(
                match name {
                    Some(n) => sat_sum(start, utf8_len(n@)),
                    None => start,
                },
                content@,
            );
        },
        CanonicalMessage::Assistant { content, tool_calls } => {
            lemma_parts_grow(start, content@);
            lemma_calls_grow(plus_parts(start, content@), tool_calls@);
        },
        CanonicalMessage::Tool { tool_call_id, content } => {
            lemma_parts_grow(sat_sum(start, utf8_len(tool_call_id@)), content@);
        },
    }
}

/// The parts of a message are its content, whatever its role and whatever else
/// it carries.
pub proof fn parts_are_the_content(
    content: Vec<TextPart>,
    name: Option<String>,
    tool_calls: Vec<CanonicalAssistantToolCall>,
    tool_call_id: String,
)
    ensures
        (CanonicalMessage::System { content, name }).parts() == content@,
        (CanonicalMessage::User { content, name }).parts() == content@,
        (CanonicalMessage::Assistant { content, tool_calls }).parts() == content@,
        (CanonicalMessage::Tool { tool_call_id, content }).parts() == content@,
{
}

/// The size of parts is the sum of their sizes: those of two lists come to what
/// the lists come to one after the other, and one part counts for the bytes of
/// its text.
pub proof fn parts_add_up(start: usize, a: Seq<TextPart>, b: Seq<TextPart>, one: TextPart)
    ensures
        plus_parts(start, Seq::<TextPart>::empty()) == start,
        plus_parts(start, a + b) == plus_parts(plus_parts(start, a), b),
        start + utf8_len(one.text@) <= usize::MAX ==> plus_parts(start, seq![one]) == start
            + utf8_len(one.text@),
    decreases b.len(),
{
    let single = seq![one];
    assert(single.drop_last() =~= Seq::<TextPart>::empty());
    assert(plus_parts(start, single.drop_last()) == start);
    if b.len() == 0 {
        assert(a + b =~= a);
    } else {
        parts_add_up(start, a, b.drop_last(), one);
        assert((a + b).drop_last() =~= a + b.drop_last());
        assert((a + b).last() == b.last());
    }
}

/// The size of calls is the sum of their sizes: identity, name and arguments of
/// each.
pub proof fn calls_add_up(
    start: usize,
    a: Seq<CanonicalAssistantToolCall>,
    b: Seq<CanonicalAssistantToolCall>,
    one: CanonicalAssistantToolCall,
)
    ensures
        plus_calls(start, Seq::<CanonicalAssistantToolCall>::empty()) == start,
        plus_calls(start, a + b) == plus_calls(plus_calls(start, a), b),
        ({
            let size = utf8_len(one.tool_call_id@) + utf8_len(one.tool_name@) + utf8_len(
                one.arguments@,
            );
            start + size <= usize::MAX ==> plus_calls(start, seq![one]) == start + size
        }),
    decreases b.len(),
{
    let single = seq![one];
    assert(single.drop_last() =~= Seq::<CanonicalAssistantToolCall>::empty());
    assert(plus_calls(start, single.drop_last()) == start);
    if b.len() == 0 {
        assert(a + b =~= a);
    } else {
        calls_add_up(start, a, b.drop_last(), one);
        assert((a + b).drop_last() =~= a + b.drop_last());
        assert((a + b).last() == b.last());
    }
}

/// The size of a conversation is that of its messages one after the other, and
/// each message counts for all that it carries: its parts, the name of its
/// author, its calls, the identity of the call that it answers.
pub proof fn conversation_adds_up(a: Seq<CanonicalMessage>, m: CanonicalMessage)
    ensures
        transcript_bytes(Seq::<CanonicalMessage>::empty()) == 0,
        ({
            let before = transcript_bytes(a);
            let after = transcript_bytes(a.push(m));
            match m {
                CanonicalMessage::System { content, name } | CanonicalMessage::User {
                    content,
                    name,
                } => {
                    &&& name is None ==> after == plus_parts(before, content@)
                    &&& name is Some && before + utf8_len(name->0@) <= usize::MAX ==> after
                        == plus_parts((before + utf8_len(name->0@)) as usize, content@)
                },
                CanonicalMessage::Assistant { content, tool_calls } => after == plus_calls(
                    plus_parts(before, content@),
                    tool_calls@,
                ),
                CanonicalMessage::Tool { tool_call_id, content } => before + utf8_len(
                    tool_call_id@,
                ) <= usize::MAX ==> after == plus_parts(
                    (before + utf8_len(tool_call_id@)) as usize,
                    content@,
                ),
            }
        }),
{
    assert(a.push(m).drop_last() =~= a);
}

} // verus!
