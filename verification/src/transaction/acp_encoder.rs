//! Prompt encoders for external agents: the prompt as bytes for the
//! connector's input.

use crate::json::{quote, quoted};
use crate::messages::CanonicalMessage;
use crate::text::{join3, trim, trimmed};
use crate::transaction::encoding::{
    line_up, lined_messages, DialectDescriptor, DialectFamily, EncodedExchange, EncodingError,
    ExchangeInputPolicy,
};
use vstd::prelude::*;
use vstd::string::StrSliceExecFns;
use vstd::utf8::encode_utf8;

verus! {

/// Most bytes of a prompt, unless something else is said.
pub const DEFAULT_MAX_ENCODED_BYTES: usize = 1048576;

/// How prompt bytes are shaped.
#[derive(Clone, Copy, Debug, PartialEq, Eq, Structural)]
pub enum AcpPromptWireShape {
    /// JSON object with the prompt.
    ParamsObject,
    /// JSON-RPC request without id, with the prompt in its parameters.
    MethodEnvelope,
    /// The text alone.
    PlainText,
}

impl Default for AcpPromptWireShape {
    fn default() -> (r: Self)
        ensures
            r == AcpPromptWireShape::ParamsObject,
    {
        AcpPromptWireShape::ParamsObject
    }
}

/// The JSON object with a prompt of one text.
pub open spec fn params_object(text: Seq<char>) -> Seq<char> {
    "{\"prompt\":[{\"text\":"@ + quoted(text) + ",\"type\":\"text\"}]}"@
}

/// The body for a text in a shape.
pub open spec fn shaped(shape: AcpPromptWireShape, text: Seq<char>) -> Seq<char> {
    match shape {
        AcpPromptWireShape::PlainText => text,
        AcpPromptWireShape::ParamsObject => params_object(text),
        AcpPromptWireShape::MethodEnvelope => "{\"method\":\"session/prompt\",\"params\":"@
            + params_object(text) + "}"@,
    }
}

/// Whether an exchange carries a body in a dialect.
pub open spec fn carries(e: EncodedExchange, body: Seq<char>, dialect: DialectDescriptor) -> bool {
    &&& e.bytes@ == encode_utf8(body)
    &&& e.required_input_dialect == dialect
    &&& e.input_policy == ExchangeInputPolicy::SendAndFinish
}

/// Prompt encoder for external-agent channels.
#[derive(Clone, Copy, Debug, PartialEq, Eq, Structural)]
pub struct AcpPromptEncoder {
    /// Wire shape.
    pub shape: AcpPromptWireShape,
    /// Dialect stamp on encoded exchange.
    pub dialect: DialectDescriptor,
    /// Max encoded body bytes.
    pub max_encoded_bytes: usize,
}

impl Default for AcpPromptEncoder {
    fn default() -> (r: Self)
        ensures
            r == grok_encoder(),
    {
        AcpPromptEncoder::grok()
    }
}

/// The encoder with a shape, for version 1 of a dialect.
pub open spec fn encoder_for(shape: AcpPromptWireShape, family: DialectFamily) -> AcpPromptEncoder {
    AcpPromptEncoder {
        shape,
        dialect: DialectDescriptor { family, version: 1 },
        max_encoded_bytes: DEFAULT_MAX_ENCODED_BYTES,
    }
}

/// The encoder for Grok Build.
pub open spec fn grok_encoder() -> AcpPromptEncoder {
    encoder_for(AcpPromptWireShape::ParamsObject, DialectFamily::AcpJsonRpc)
}

/// What encoding a conversation comes to.
pub open spec fn encodes(
    r: Result<EncodedExchange, EncodingError>,
    messages: Seq<CanonicalMessage>,
    shape: AcpPromptWireShape,
    dialect: DialectDescriptor,
    max_encoded_bytes: usize,
) -> bool {
    let text = lined_messages(messages);
    let body = shaped(shape, text);
    if trimmed(text).len() == 0 {
        r == Err::<EncodedExchange, EncodingError>(EncodingError::UnrepresentableInput)
    } else if encode_utf8(body).len() > max_encoded_bytes {
        r == Err::<EncodedExchange, EncodingError>(EncodingError::LimitExceeded)
    } else {
        r is Ok && carries(r->Ok_0, body, dialect)
    }
}

/// The text of a conversation, one part on each line; nothing but white space
/// is no input.
pub fn collect_user_text(messages: &Vec<CanonicalMessage>) -> (r: Result<String, EncodingError>)
    ensures
        if trimmed(lined_messages(messages@)).len() == 0 {
            r == Err::<String, EncodingError>(EncodingError::UnrepresentableInput)
        } else {
            r is Ok && r->Ok_0@ == lined_messages(messages@)
        },
{
    let text = line_up(messages);
    if trim(text.as_str()).as_str().is_empty() {
        return Err(EncodingError::UnrepresentableInput);
    }
    Ok(text)
}

fn bounded(body: &str, dialect: DialectDescriptor, max_encoded_bytes: usize) -> (r: Result<
    EncodedExchange,
    EncodingError,
>)
    ensures
        if encode_utf8(body@).len() > max_encoded_bytes {
            r == Err::<EncodedExchange, EncodingError>(EncodingError::LimitExceeded)
        } else {
            r is Ok && carries(r->Ok_0, body@, dialect)
        },
{
    let bytes: Vec<u8> = body.as_bytes_vec();
    if bytes.len() > max_encoded_bytes {
        return Err(EncodingError::LimitExceeded);
    }
    Ok(
        EncodedExchange {
            bytes,
            required_input_dialect: dialect,
            input_policy: ExchangeInputPolicy::SendAndFinish,
        },
    )
}

impl AcpPromptEncoder {
    /// Grok Build wire shape.
    pub fn grok() -> (r: Self)
        ensures
            r == grok_encoder(),
    {
        AcpPromptEncoder {
            shape: AcpPromptWireShape::ParamsObject,
            dialect: DialectDescriptor { family: DialectFamily::AcpJsonRpc, version: 1 },
            max_encoded_bytes: DEFAULT_MAX_ENCODED_BYTES,
        }
    }

    /// Cursor ACP.
    pub fn cursor() -> (r: Self)
        ensures
            r == encoder_for(AcpPromptWireShape::PlainText, DialectFamily::CursorAcp),
    {
        AcpPromptEncoder {
            shape: AcpPromptWireShape::PlainText,
            dialect: DialectDescriptor { family: DialectFamily::CursorAcp, version: 1 },
            max_encoded_bytes: DEFAULT_MAX_ENCODED_BYTES,
        }
    }

    /// Codex ACP.
    pub fn codex() -> (r: Self)
        ensures
            r == encoder_for(AcpPromptWireShape::PlainText, DialectFamily::CodexAcp),
    {
        AcpPromptEncoder {
            shape: AcpPromptWireShape::PlainText,
            dialect: DialectDescriptor { family: DialectFamily::CodexAcp, version: 1 },
            max_encoded_bytes: DEFAULT_MAX_ENCODED_BYTES,
        }
    }

    /// Antigravity.
    pub fn agy() -> (r: Self)
        ensures
            r == encoder_for(AcpPromptWireShape::PlainText, DialectFamily::AgyAcp),
    {
        AcpPromptEncoder {
            shape: AcpPromptWireShape::PlainText,
            dialect: DialectDescriptor { family: DialectFamily::AgyAcp, version: 1 },
            max_encoded_bytes: DEFAULT_MAX_ENCODED_BYTES,
        }
    }

    /// Encodes a conversation. Tools reach an external agent through the
    /// gateway only, so any tool is refused, but an input without text first.
    pub fn encode_initial(&self, messages: &Vec<CanonicalMessage>, tool_count: usize) -> (r: Result<
        EncodedExchange,
        EncodingError,
    >)
        ensures
            if trimmed(lined_messages(messages@)).len() > 0 && tool_count > 0 {
                r == Err::<EncodedExchange, EncodingError>(
                    EncodingError::Unsupported(
                        "non-empty tools require MCP gateway for external-agent ACP profiles",
                    ),
                )
            } else {
                encodes(r, messages@, self.shape, self.dialect, self.max_encoded_bytes)
            },
    {
        let text: String = match collect_user_text(messages) {
            Ok(text) => text,
            Err(e) => {
                return Err(e);
            },
        };
        if tool_count > 0 {
            return Err(
                EncodingError::Unsupported(
                    "non-empty tools require MCP gateway for external-agent ACP profiles",
                ),
            );
        }
        let body: String = match self.shape {
            AcpPromptWireShape::PlainText => text,
            AcpPromptWireShape::ParamsObject => params(text.as_str()),
            AcpPromptWireShape::MethodEnvelope => join3(
                "{\"method\":\"session/prompt\",\"params\":",
                params(text.as_str()).as_str(),
                "}",
            ),
        };
        bounded(body.as_str(), self.dialect, self.max_encoded_bytes)
    }

    /// Tool results return through the gateway.
    pub fn encode_tool_continuation(&self) -> (r: Result<EncodedExchange, EncodingError>)
        ensures
            r == Err::<EncodedExchange, EncodingError>(
                EncodingError::Unsupported(
                    "ACP external agents do not encode model tool continuations",
                ),
            ),
    {
        Err(
            EncodingError::Unsupported("ACP external agents do not encode model tool continuations"),
        )
    }
}

fn params(text: &str) -> (r: String)
    ensures
        r@ == params_object(text@),
{
    join3("{\"prompt\":[{\"text\":", quote(text).as_str(), ",\"type\":\"text\"}]}")
}

/// Encoder for command lines that take the prompt as plain text.
#[derive(Clone, Copy, Debug, PartialEq, Eq, Structural)]
pub struct HeadlessPromptEncoder {
    /// Dialect stamp.
    pub dialect: DialectDescriptor,
    /// Max bytes.
    pub max_encoded_bytes: usize,
}

impl HeadlessPromptEncoder {
    /// Z.ai.
    pub fn zai() -> (r: Self)
        ensures
            r == (HeadlessPromptEncoder {
                dialect: DialectDescriptor { family: DialectFamily::ZaiCli, version: 1 },
                max_encoded_bytes: DEFAULT_MAX_ENCODED_BYTES,
            }),
    {
        HeadlessPromptEncoder {
            dialect: DialectDescriptor { family: DialectFamily::ZaiCli, version: 1 },
            max_encoded_bytes: DEFAULT_MAX_ENCODED_BYTES,
        }
    }

    /// Print mode of the vendor command line.
    pub fn claude() -> (r: Self)
        ensures
            r == (HeadlessPromptEncoder {
                dialect: DialectDescriptor { family: DialectFamily::ClaudeCode, version: 1 },
                max_encoded_bytes: DEFAULT_MAX_ENCODED_BYTES,
            }),
    {
        HeadlessPromptEncoder {
            dialect: DialectDescriptor { family: DialectFamily::ClaudeCode, version: 1 },
            max_encoded_bytes: DEFAULT_MAX_ENCODED_BYTES,
        }
    }

    /// Encodes a conversation. Any tool is refused first.
    pub fn encode_initial(&self, messages: &Vec<CanonicalMessage>, tool_count: usize) -> (r: Result<
        EncodedExchange,
        EncodingError,
    >)
        ensures
            if tool_count > 0 {
                r == Err::<EncodedExchange, EncodingError>(
                    EncodingError::Unsupported(
                        "headless CLI profiles reject Monoloop-linked tools (MCP None)",
                    ),
                )
            } else {
                encodes(
                    r,
                    messages@,
                    AcpPromptWireShape::PlainText,
                    self.dialect,
                    self.max_encoded_bytes,
                )
            },
    {
        if tool_count > 0 {
            return Err(
                EncodingError::Unsupported(
                    "headless CLI profiles reject Monoloop-linked tools (MCP None)",
                ),
            );
        }
        match collect_user_text(messages) {
            Ok(text) => bounded(text.as_str(), self.dialect, self.max_encoded_bytes),
            Err(e) => Err(e),
        }
    }

    /// There is no way back for tool results.
    pub fn encode_tool_continuation(&self) -> (r: Result<EncodedExchange, EncodingError>)
        ensures
            r == Err::<EncodedExchange, EncodingError>(
                EncodingError::Unsupported("headless CLI has no tool continuation encoding"),
            ),
    {
        Err(EncodingError::Unsupported("headless CLI has no tool continuation encoding"))
    }
}

/// What reaches the agent is the conversation: as plain text it is the text
/// itself, and in both JSON shapes the text stands, quoted, as the one text of
/// the prompt.
pub proof fn prompt_carries_the_text(text: Seq<char>)
    ensures
        shaped(AcpPromptWireShape::PlainText, text) == text,
        shaped(AcpPromptWireShape::ParamsObject, text) == "{\"prompt\":[{\"text\":"@ + quoted(text)
            + ",\"type\":\"text\"}]}"@,
        shaped(AcpPromptWireShape::MethodEnvelope, text)
            == "{\"method\":\"session/prompt\",\"params\":"@ + shaped(
            AcpPromptWireShape::ParamsObject,
            text,
        ) + "}"@,
{
}

/// An encoding is owed exactly where there is something to say and it fits; the
/// bytes are those of the body, in the dialect of the encoder, and no input
/// follows them.
pub proof fn encoding_is_owed(
    r: Result<EncodedExchange, EncodingError>,
    messages: Seq<CanonicalMessage>,
    shape: AcpPromptWireShape,
    dialect: DialectDescriptor,
    max_encoded_bytes: usize,
)
    requires
        encodes(r, messages, shape, dialect, max_encoded_bytes),
    ensures
        ({
            let text = lined_messages(messages);
            let blank = forall|i: int|
                0 <= i < text.len() ==> crate::text::white_space(#[trigger] text[i]);
            let bytes = encode_utf8(shaped(shape, text));
            &&& r is Ok <==> !blank && bytes.len() <= max_encoded_bytes
            &&& blank ==> r->Err_0 == EncodingError::UnrepresentableInput
            &&& !blank && bytes.len() > max_encoded_bytes ==> r->Err_0
                == EncodingError::LimitExceeded
            &&& r matches Ok(e) ==> e.bytes@ == bytes && e.required_input_dialect == dialect
                && e.input_policy == ExchangeInputPolicy::SendAndFinish
        }),
{
    crate::text::trimmed_is_empty_iff_blank(lined_messages(messages));
}

/// Each agent gets its own shape and dialect, in version 1, and a megabyte.
pub proof fn encoder_is_that_of_its_agent(shape: AcpPromptWireShape, family: DialectFamily)
    ensures
        grok_encoder().shape == AcpPromptWireShape::ParamsObject,
        grok_encoder().dialect.family == DialectFamily::AcpJsonRpc,
        grok_encoder().dialect.version == 1,
        grok_encoder().max_encoded_bytes == 1024 * 1024,
        encoder_for(shape, family).shape == shape,
        encoder_for(shape, family).dialect.family == family,
        encoder_for(shape, family).dialect.version == 1,
        encoder_for(shape, family).max_encoded_bytes == 1024 * 1024,
{
}

} // verus!
