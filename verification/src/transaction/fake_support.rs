//! Encoders for trying out the runtime.

use crate::messages::CanonicalMessage;
use crate::text::{trim, trimmed};
use crate::transaction::acp_encoder::carries;
use crate::transaction::encoding::{
    space_out, spaced_messages, DialectDescriptor, DialectFamily, EncodedExchange, EncodingError,
    ExchangeInputPolicy,
};
use vstd::prelude::*;
use vstd::string::{StrSliceExecFns, StringExecFns};

verus! {

/// Encoder that rejects all encode calls.
#[derive(Clone, Copy, Debug, PartialEq, Eq, Structural)]
pub struct RejectEncoder;

impl RejectEncoder {
    /// Rejects.
    pub fn encode_initial(&self) -> (r: Result<EncodedExchange, EncodingError>)
        ensures
            r == Err::<EncodedExchange, EncodingError>(
                EncodingError::Unsupported("reject encoder"),
            ),
    {
        Err(EncodingError::Unsupported("reject encoder"))
    }

    /// Rejects.
    pub fn encode_tool_continuation(&self) -> (r: Result<EncodedExchange, EncodingError>)
        ensures
            r == Err::<EncodedExchange, EncodingError>(
                EncodingError::Unsupported("reject encoder"),
            ),
    {
        Err(EncodingError::Unsupported("reject encoder"))
    }
}

/// Encoder returning empty bytes.
#[derive(Clone, Copy, Debug, PartialEq, Eq, Structural)]
pub struct EmptyBytesEncoder {
    /// Dialect stamped on the encoded exchange.
    pub dialect: DialectDescriptor,
}

impl EmptyBytesEncoder {
    /// Construct with an explicit dialect stamp.
    pub fn new(dialect: DialectDescriptor) -> (r: Self)
        ensures
            r.dialect == dialect,
    {
        EmptyBytesEncoder { dialect }
    }

    /// No bytes.
    pub fn encode_initial(&self) -> (r: Result<EncodedExchange, EncodingError>)
        ensures
            r is Ok,
            r->Ok_0.bytes@.len() == 0,
            r->Ok_0.required_input_dialect == self.dialect,
            r->Ok_0.input_policy == ExchangeInputPolicy::SendAndFinish,
    {
        Ok(
            EncodedExchange {
                bytes: Vec::new(),
                required_input_dialect: self.dialect,
                input_policy: ExchangeInputPolicy::SendAndFinish,
            },
        )
    }

    /// No bytes.
    pub fn encode_tool_continuation(&self) -> (r: Result<EncodedExchange, EncodingError>)
        ensures
            r is Ok,
            r->Ok_0.bytes@.len() == 0,
            r->Ok_0.required_input_dialect == self.dialect,
            r->Ok_0.input_policy == ExchangeInputPolicy::SendAndFinish,
    {
        self.encode_initial()
    }
}

/// Whether a text ends a sentence.
pub open spec fn ends_sentence(s: Seq<char>) -> bool {
    s.len() > 0 && (s.last() == '.' || s.last() == '!' || s.last() == '?')
}

/// A text as a sentence, with a space behind it.
pub open spec fn as_sentence(s: Seq<char>) -> Seq<char> {
    (if ends_sentence(s) {
        s
    } else {
        s + "."@
    }) + " "@
}

/// Encodes text messages as one sentence.
#[derive(Clone, Copy, Debug, PartialEq, Eq, Structural)]
pub struct TestTextEncoder;

impl TestTextEncoder {
    /// The parts with spaces between them, trimmed, with a full stop unless
    /// they end a sentence, and a space.
    pub fn encode_initial(&self, messages: &Vec<CanonicalMessage>) -> (r: Result<
        EncodedExchange,
        EncodingError,
    >)
        ensures
            ({
                let text = trimmed(spaced_messages(messages@));
                if text.len() == 0 {
                    r == Err::<EncodedExchange, EncodingError>(EncodingError::UnrepresentableInput)
                } else {
                    r is Ok && carries(
                        r->Ok_0,
                        as_sentence(text),
                        DialectDescriptor { family: DialectFamily::TestRaw, version: 1 },
                    )
                }
            }),
    {
        let mut body: String = trim(space_out(messages).as_str());
        let n: usize = body.as_str().unicode_len();
        if n == 0 {
            return Err(EncodingError::UnrepresentableInput);
        }
        let last: char = body.as_str().get_char(n - 1);
        if last != '.' && last != '!' && last != '?' {
            body.append(".");
        }
        body.append(" ");
        Ok(
            EncodedExchange {
                bytes: body.as_str().as_bytes_vec(),
                required_input_dialect: DialectDescriptor {
                    family: DialectFamily::TestRaw,
                    version: 1,
                },
                input_policy: ExchangeInputPolicy::SendAndFinish,
            },
        )
    }

    /// There is none.
    pub fn encode_tool_continuation(&self) -> (r: Result<EncodedExchange, EncodingError>)
        ensures
            r == Err::<EncodedExchange, EncodingError>(
                EncodingError::Unsupported("TestTextEncoder has no tool continuation"),
            ),
    {
        Err(EncodingError::Unsupported("TestTextEncoder has no tool continuation"))
    }
}

/// A sentence keeps its text, ends as a sentence does, and is followed by a space;
/// a full stop is added only where it is missing.
pub proof fn sentence_keeps_its_text(s: Seq<char>)
    requires
        s.len() > 0,
    ensures
        as_sentence(s).take(s.len() as int) == s,
        as_sentence(s).last() == ' ',
        ({
            let end = as_sentence(s)[as_sentence(s).len() - 2];
            end == '.' || end == '!' || end == '?'
        }),
        as_sentence(s).len() == s.len() + (if s.last() == '.' || s.last() == '!' || s.last()
            == '?' {
            1int
        } else {
            2
        }),
{
    reveal_strlit(".");
    reveal_strlit(" ");
    assert(as_sentence(s).take(s.len() as int) =~= s);
}

} // verus!
