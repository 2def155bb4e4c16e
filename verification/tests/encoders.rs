use monoloop_loop::messages::{CanonicalMessage, TextPart};
use monoloop_loop::transaction::acp_encoder::{
    collect_user_text, AcpPromptEncoder, AcpPromptWireShape, HeadlessPromptEncoder,
};
use monoloop_loop::transaction::encoding::{
    DialectDescriptor, DialectFamily, EncodingError, ExchangeInputPolicy,
};
use monoloop_loop::transaction::fake_support::{EmptyBytesEncoder, RejectEncoder, TestTextEncoder};

fn user_text_input(text: &str) -> Vec<CanonicalMessage> {
    vec![CanonicalMessage::User {
        content: vec![TextPart::try_new(text, 1024).unwrap()],
        name: None,
    }]
}

fn two_parts() -> Vec<CanonicalMessage> {
    vec![
        CanonicalMessage::System {
            content: vec![TextPart::try_new("be brief", 1024).unwrap()],
            name: None,
        },
        CanonicalMessage::User {
            content: vec![
                TextPart::try_new("one", 1024).unwrap(),
                TextPart::try_new("two", 1024).unwrap(),
            ],
            name: None,
        },
    ]
}

#[test]
fn grok_params_object_has_no_prompt_on_argv_shape() {
    let enc = AcpPromptEncoder::grok();
    let input = user_text_input("hello agent");
    let encoded = enc.encode_initial(&input, 0).ok().unwrap();
    let v: serde_json::Value = serde_json::from_slice(&encoded.bytes).unwrap();
    assert!(v.get("prompt").is_some());
    assert!(v.get("method").is_none());
}

#[test]
fn plain_text_cursor_shape() {
    let enc = AcpPromptEncoder::cursor();
    let input = user_text_input("hi");
    let encoded = enc.encode_initial(&input, 0).ok().unwrap();
    assert_eq!(&encoded.bytes[..], b"hi");
}

#[test]
fn params_object_carries_the_escaped_text() {
    let enc = AcpPromptEncoder::grok();
    let text = "say \"hi\"\n\\ \u{1} ü";
    let encoded = enc.encode_initial(&user_text_input(text), 0).ok().unwrap();
    let v: serde_json::Value = serde_json::from_slice(&encoded.bytes).unwrap();
    let part = v.get("prompt").and_then(|p| p.get(0)).unwrap();
    assert_eq!(part.get("type").and_then(|t| t.as_str()), Some("text"));
    assert_eq!(part.get("text").and_then(|t| t.as_str()), Some(text));
    assert_eq!(encoded.required_input_dialect.family, DialectFamily::AcpJsonRpc);
    assert_eq!(encoded.input_policy, ExchangeInputPolicy::SendAndFinish);
}

#[test]
fn method_envelope_names_the_method() {
    let mut enc = AcpPromptEncoder::grok();
    enc.shape = AcpPromptWireShape::MethodEnvelope;
    let encoded = enc.encode_initial(&user_text_input("hi"), 0).ok().unwrap();
    let v: serde_json::Value = serde_json::from_slice(&encoded.bytes).unwrap();
    assert!(v.get("method").is_some());
    let text = v
        .get("params")
        .and_then(|p| p.get("prompt"))
        .and_then(|p| p.get(0))
        .and_then(|p| p.get("text"))
        .and_then(|t| t.as_str());
    assert_eq!(text, Some("hi"));
}

#[test]
fn parts_are_lined_up() {
    assert_eq!(collect_user_text(&two_parts()).ok().unwrap(), "be brief\none\ntwo");
}

#[test]
fn blank_text_is_not_representable() {
    assert_eq!(
        collect_user_text(&user_text_input(" \t\u{2003}\n")),
        Err(EncodingError::UnrepresentableInput)
    );
    assert!(matches!(
        AcpPromptEncoder::cursor().encode_initial(&user_text_input("  "), 0),
        Err(EncodingError::UnrepresentableInput)
    ));
    assert!(matches!(
        AcpPromptEncoder::cursor().encode_initial(&vec![], 0),
        Err(EncodingError::UnrepresentableInput)
    ));
}

#[test]
fn agents_refuse_tools_and_continuations() {
    assert!(matches!(
        AcpPromptEncoder::codex().encode_initial(&user_text_input("x"), 1),
        Err(EncodingError::Unsupported(
            "non-empty tools require MCP gateway for external-agent ACP profiles"
        ))
    ));
    assert!(matches!(
        AcpPromptEncoder::agy().encode_tool_continuation(),
        Err(EncodingError::Unsupported(_))
    ));
    assert!(matches!(
        HeadlessPromptEncoder::zai().encode_initial(&user_text_input("x"), 1),
        Err(EncodingError::Unsupported(
            "headless CLI profiles reject Monoloop-linked tools (MCP None)"
        ))
    ));
    assert!(matches!(
        HeadlessPromptEncoder::claude().encode_tool_continuation(),
        Err(EncodingError::Unsupported("headless CLI has no tool continuation encoding"))
    ));
}

#[test]
fn a_body_over_the_limit_is_refused() {
    let mut enc = AcpPromptEncoder::cursor();
    enc.max_encoded_bytes = 2;
    assert!(enc.encode_initial(&user_text_input("hi"), 0).is_ok());
    assert!(matches!(
        enc.encode_initial(&user_text_input("hi!"), 0),
        Err(EncodingError::LimitExceeded)
    ));
    let mut cli = HeadlessPromptEncoder::claude();
    cli.max_encoded_bytes = 2;
    assert!(matches!(
        cli.encode_initial(&user_text_input("hey"), 0),
        Err(EncodingError::LimitExceeded)
    ));
}

#[test]
fn support_encoders() {
    let raw = DialectDescriptor { family: DialectFamily::TestRaw, version: 1 };
    assert!(matches!(
        RejectEncoder.encode_initial(),
        Err(EncodingError::Unsupported("reject encoder"))
    ));
    let empty = EmptyBytesEncoder::new(raw).encode_initial().ok().unwrap();
    assert_eq!(empty.bytes.len(), 0);
    assert_eq!(empty.required_input_dialect, raw);
    let text = TestTextEncoder.encode_initial(&two_parts()).ok().unwrap();
    assert!(text.bytes.starts_with(b"be brief one two"));
    assert!(matches!(
        TestTextEncoder.encode_initial(&vec![]),
        Err(EncodingError::UnrepresentableInput)
    ));
}
