//! Encoded exchanges: what an encoder hands to a connector.

use crate::messages::{CanonicalMessage, TextPart};
use vstd::prelude::*;
use vstd::string::StringExecFns;

verus! {

/// Which dialect bytes are in.
#[derive(Clone, Copy, Debug, PartialEq, Eq, Structural)]
pub enum DialectFamily {
    /// ACP over JSON-RPC.
    AcpJsonRpc,
    /// Cursor's ACP.
    CursorAcp,
    /// Codex' ACP.
    CodexAcp,
    /// Antigravity's ACP.
    AgyAcp,
    /// The Z.ai command line.
    ZaiCli,
    /// Print mode of the vendor command line.
    ClaudeCode,
    /// Plain text for tests.
    TestRaw,
}

/// A dialect and its version.
#[derive(Clone, Copy, Debug, PartialEq, Eq, Structural)]
pub struct DialectDescriptor {
    /// Family.
    pub family: DialectFamily,
    /// Version.
    pub version: u32,
}

/// Whether more input may follow.
#[derive(Clone, Copy, Debug, PartialEq, Eq, Structural)]
pub enum ExchangeInputPolicy {
    /// None follows.
    SendAndFinish,
    /// More may follow.
    SendAndKeepOpen,
}

/// What an encoder hands to a connector.
#[derive(Clone, Debug)]
pub struct EncodedExchange {
    /// Bytes.
    pub bytes: Vec<u8>,
    /// Dialect that the bytes are in.
    pub required_input_dialect: DialectDescriptor,
    /// Whether more input may follow.
    pub input_policy: ExchangeInputPolicy,
}

/// Why input was not encoded.
#[derive(Clone, Copy, Debug, PartialEq, Eq)]
pub enum EncodingError {
    /// The input cannot be said in the dialect.
    UnrepresentableInput,
    /// The encoder does not do this.
    Unsupported(&'static str),
    /// Too many bytes.
    LimitExceeded,
}

/// Parts appended to a text, each on a line of its own.
pub open spec fn lined(start: Seq<char>, parts: Seq<TextPart>) -> Seq<char>
    decreases parts.len(),
{
    if parts.len() == 0 {
        start
    } else {
        let before = lined(start, parts.drop_last());
        if before.len() == 0 {
            parts.last().text@
        } else {
            before + "\n"@ + parts.last().text@
        }
    }
}

/// All parts of a conversation, each on a line of its own.
pub open spec fn lined_messages(messages: Seq<CanonicalMessage>) -> Seq<char>
    decreases messages.len(),
{
    if messages.len() == 0 {
        Seq::empty()
    } else {
        lined(lined_messages(messages.drop_last()), messages.last().parts())
    }
}

/// Parts appended to a text, each followed by a space.
pub open spec fn spaced(start: Seq<char>, parts: Seq<TextPart>) -> Seq<char>
    decreases parts.len(),
{
    if parts.len() == 0 {
        start
    } else {
        spaced(start, parts.drop_last()) + parts.last().text@ + " "@
    }
}

/// All parts of a conversation, each followed by a space.
pub open spec fn spaced_messages(messages: Seq<CanonicalMessage>) -> Seq<char>
    decreases messages.len(),
{
    if messages.len() == 0 {
        Seq::empty()
    } else {
        spaced(spaced_messages(messages.drop_last()), messages.last().parts())
    }
}

/// Puts all parts of a conversation on lines of their own.
pub fn line_up(messages: &Vec<CanonicalMessage>) -> (r: String)
    ensures
        r@ == lined_messages(messages@),
{
    let mut text: String = String::new();
    let mut i: usize = 0;
    assert(messages@.take(0) =~= Seq::<CanonicalMessage>::empty());
    while i < messages.len()
        invariant
            i <= messages.len(),
            text@ == lined_messages(messages@.take(i as int)),
        decreases messages.len() - i,
    {
        let parts = messages[i].content();
        let ghost start = text@;
        let mut j: usize = 0;
        assert(parts@.take(0) =~= Seq::<TextPart>::empty());
        while j < parts.len()
            invariant
                j <= parts.len(),
                text@ == lined(start, parts@.take(j as int)),
            decreases parts.len() - j,
        {
            let ghost before = text@;
            if !text.as_str().is_empty() {
                text.append("\n");
            }
            text.append(parts[j].text.as_str());
            proof {
                let t = parts@.take(j as int + 1);
                assert(t.drop_last() =~= parts@.take(j as int));
                if before.len() == 0 {
                    assert(text@ =~= parts@[j as int].text@);
                }
            }
            j = j + 1;
        }
        proof {
            assert(parts@.take(j as int) =~= parts@);
            let t = messages@.take(i as int + 1);
            assert(t.drop_last() =~= messages@.take(i as int));
        }
        i = i + 1;
    }
    assert(messages@.take(i as int) =~= messages@);
    text
}

/// Puts a space behind each part of a conversation.
pub fn space_out(messages: &Vec<CanonicalMessage>) -> (r: String)
    ensures
        r@ == spaced_messages(messages@),
{
    let mut text: String = String::new();
    let mut i: usize = 0;
    assert(messages@.take(0) =~= Seq::<CanonicalMessage>::empty());
    while i < messages.len()
        invariant
            i <= messages.len(),
            text@ == spaced_messages(messages@.take(i as int)),
        decreases messages.len() - i,
    {
        let parts = messages[i].content();
        let ghost start = text@;
        let mut j: usize = 0;
        assert(parts@.take(0) =~= Seq::<TextPart>::empty());
        while j < parts.len()
            invariant
                j <= parts.len(),
                text@ == spaced(start, parts@.take(j as int)),
            decreases parts.len() - j,
        {
            text.append(parts[j].text.as_str());
            text.append(" ");
            proof {
                let t = parts@.take(j as int + 1);
                assert(t.drop_last() =~= parts@.take(j as int));
            }
            j = j + 1;
        }
        proof {
            assert(parts@.take(j as int) =~= parts@);
            let t = messages@.take(i as int + 1);
            assert(t.drop_last() =~= messages@.take(i as int));
        }
        i = i + 1;
    }
    assert(messages@.take(i as int) =~= messages@);
    text
}

/// All parts of a conversation, in order, whoever said them.
pub open spec fn all_parts(messages: Seq<CanonicalMessage>) -> Seq<TextPart> {
    messages.map_values(|m: CanonicalMessage| m.parts()).flatten()
}

proof fn lemma_all_parts(messages: Seq<CanonicalMessage>, m: CanonicalMessage)
    ensures
        all_parts(Seq::<CanonicalMessage>::empty()) == Seq::<TextPart>::empty(),
        all_parts(messages.push(m)) == all_parts(messages) + m.parts(),
{
    let f = |m: CanonicalMessage| m.parts();
    let lists = messages.map_values(f);
    assert(messages.push(m).map_values(f) =~= lists.push(m.parts()));
    assert(Seq::<CanonicalMessage>::empty().map_values(f) =~= Seq::<Seq<TextPart>>::empty());
    assert(Seq::<Seq<TextPart>>::empty().flatten() =~= Seq::<TextPart>::empty());
    lists.lemma_flatten_push(m.parts());
}

/// Lines are put under one another: a first line begins a text, a further one
/// stands after a line break, and lines in two lists are the lines of both lists
/// in order.
pub proof fn lines_follow_one_another(
    start: Seq<char>,
    a: Seq<TextPart>,
    b: Seq<TextPart>,
    one: TextPart,
)
    ensures
        lined(start, Seq::<TextPart>::empty()) == start,
        lined(Seq::empty(), seq![one]) == one.text@,
        start.len() > 0 ==> lined(start, seq![one]) == start + "\n"@ + one.text@,
        lined(start, a + b) == lined(lined(start, a), b),
    decreases b.len(),
{
    let single = seq![one];
    assert(single.drop_last() =~= Seq::<TextPart>::empty());
    assert(lined(start, single.drop_last()) == start);
    assert(lined(Seq::<char>::empty(), single.drop_last()) == Seq::<char>::empty());
    if b.len() == 0 {
        assert(a + b =~= a);
    } else {
        lines_follow_one_another(start, a, b.drop_last(), one);
        assert((a + b).drop_last() =~= a + b.drop_last());
        assert((a + b).last() == b.last());
    }
}

/// The text of a conversation is made of the parts of all its messages, whatever
/// their role, in order.
pub proof fn every_message_is_lined_up(messages: Seq<CanonicalMessage>)
    ensures
        lined_messages(messages) == lined(Seq::empty(), all_parts(messages)),
    decreases messages.len(),
{
    if messages.len() == 0 {
        assert(messages =~= Seq::<CanonicalMessage>::empty());
        lemma_all_parts(messages, messages[0]);
    } else {
        let before = messages.drop_last();
        let m = messages.last();
        assert(before.push(m) =~= messages);
        every_message_is_lined_up(before);
        lemma_all_parts(before, m);
        let one = TextPart { text: arbitrary() };
        lines_follow_one_another(Seq::empty(), all_parts(before), m.parts(), one);
    }
}

proof fn lemma_all_parts_split(a: Seq<CanonicalMessage>, b: Seq<CanonicalMessage>)
    ensures
        all_parts(a + b) == all_parts(a) + all_parts(b),
    decreases b.len(),
{
    if b.len() == 0 {
        assert(b =~= Seq::<CanonicalMessage>::empty());
        lemma_all_parts(b, a[0]);
        assert(a + b =~= a);
        assert(all_parts(a) + all_parts(b) =~= all_parts(a));
    } else {
        let d = b.drop_last();
        lemma_all_parts_split(a, d);
        lemma_all_parts(a + d, b.last());
        lemma_all_parts(d, b.last());
        assert((a + d).push(b.last()) =~= a + b);
        assert(d.push(b.last()) =~= b);
        assert(all_parts(a + b) =~= all_parts(a) + all_parts(b));
    }
}

proof fn lemma_lined_extends(start: Seq<char>, parts: Seq<TextPart>) -> (rest: Seq<char>)
    ensures
        lined(start, parts) == start + rest,
    decreases parts.len(),
{
    if parts.len() == 0 {
        assert(start + Seq::<char>::empty() =~= start);
        Seq::empty()
    } else {
        let before = lemma_lined_extends(start, parts.drop_last());
        let whole = lined(start, parts);
        let had = lined(start, parts.drop_last());
        if had.len() == 0 {
            assert(start + whole =~= whole);
            whole
        } else {
            let rest = before + "\n"@ + parts.last().text@;
            assert(whole =~= start + rest);
            rest
        }
    }
}

/// What stands before a line: the text so far and a line break, where there is
/// any text.
pub open spec fn line_begins(text: Seq<char>) -> Seq<char> {
    if text.len() == 0 {
        text
    } else {
        text + "\n"@
    }
}

/// Every part of every message is in the text, in its place: after the lines of
/// what was said before it, on a line of its own, and before what was said later.
pub proof fn every_part_is_in_its_place(messages: Seq<CanonicalMessage>, i: int, j: int)
    requires
        0 <= i < messages.len(),
        0 <= j < messages[i].parts().len(),
    ensures
        ({
            let earlier = lined(
                lined_messages(messages.take(i)),
                messages[i].parts().take(j),
            );
            let text = messages[i].parts()[j].text@;
            exists|later: Seq<char>|
                #[trigger] line_begins(earlier).add(text).add(later) == lined_messages(messages)
        }),
{
    let parts = messages[i].parts();
    let one = parts[j];
    let head = messages.take(i);
    let tail = messages.skip(i + 1);
    assert(messages =~= head.push(messages[i]) + tail);
    every_message_is_lined_up(messages);
    every_message_is_lined_up(head);
    lemma_all_parts_split(head.push(messages[i]), tail);
    lemma_all_parts(head, messages[i]);
    let rest = parts.skip(j + 1) + all_parts(tail);
    assert(parts =~= parts.take(j) + seq![one] + parts.skip(j + 1));
    assert(all_parts(messages) =~= all_parts(head) + (parts.take(j) + (seq![one] + rest)));
    let first = lined_messages(head);
    let earlier = lined(first, parts.take(j));
    lines_follow_one_another(
        Seq::empty(),
        all_parts(head),
        parts.take(j) + (seq![one] + rest),
        one,
    );
    lines_follow_one_another(first, parts.take(j), seq![one] + rest, one);
    lines_follow_one_another(earlier, seq![one], rest, one);
    if earlier.len() == 0 {
        assert(earlier =~= Seq::<char>::empty());
    }
    let here = lined(earlier, seq![one]);
    let later = lemma_lined_extends(here, rest);
    assert(line_begins(earlier).add(one.text@).add(later) =~= lined_messages(messages));
}

/// Who said something does not matter to the text: messages with the same parts
/// come to the same text.
pub proof fn role_does_not_matter(a: Seq<CanonicalMessage>, b: Seq<CanonicalMessage>)
    requires
        a.len() == b.len(),
        forall|i: int| 0 <= i < a.len() ==> (#[trigger] a[i]).parts() == b[i].parts(),
    ensures
        lined_messages(a) == lined_messages(b),
        spaced_messages(a) == spaced_messages(b),
    decreases a.len(),
{
    if a.len() > 0 {
        let n = a.len() - 1;
        assert forall|i: int| 0 <= i < a.drop_last().len() implies (
        #[trigger] a.drop_last()[i]).parts() == b.drop_last()[i].parts() by {
            assert(a[i].parts() == b[i].parts());
        }
        role_does_not_matter(a.drop_last(), b.drop_last());
        assert(a[n].parts() == b[n].parts());
    }
}

/// Spaced parts follow one another, each with a space behind it.
pub proof fn spaced_parts_follow_one_another(
    start: Seq<char>,
    a: Seq<TextPart>,
    b: Seq<TextPart>,
    one: TextPart,
)
    ensures
        spaced(start, Seq::<TextPart>::empty()) == start,
        spaced(start, seq![one]) == start + one.text@ + " "@,
        spaced(start, a + b) == spaced(spaced(start, a), b),
    decreases b.len(),
{
    let single = seq![one];
    assert(single.drop_last() =~= Seq::<TextPart>::empty());
    assert(spaced(start, single.drop_last()) == start);
    if b.len() == 0 {
        assert(a + b =~= a);
    } else {
        spaced_parts_follow_one_another(start, a, b.drop_last(), one);
        assert((a + b).drop_last() =~= a + b.drop_last());
        assert((a + b).last() == b.last());
    }
}

/// The spaced text of a conversation is made of the parts of all its messages,
/// in order.
pub proof fn every_message_is_spaced_out(messages: Seq<CanonicalMessage>)
    ensures
        spaced_messages(messages) == spaced(Seq::empty(), all_parts(messages)),
    decreases messages.len(),
{
    if messages.len() == 0 {
        assert(messages =~= Seq::<CanonicalMessage>::empty());
        lemma_all_parts(messages, messages[0]);
    } else {
        let before = messages.drop_last();
        let m = messages.last();
        assert(before.push(m) =~= messages);
        every_message_is_spaced_out(before);
        lemma_all_parts(before, m);
        let one = TextPart { text: arbitrary() };
        spaced_parts_follow_one_another(Seq::empty(), all_parts(before), m.parts(), one);
    }
}

} // verus!
