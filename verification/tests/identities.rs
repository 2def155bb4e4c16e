use monoloop_loop::identity::{fresh_id_text, ExchangeId, ToolExecutionId, TransactionId};
use monoloop_loop::text::{decimal, first_chars, is_white_space, strip_prefix, trim};
use monoloop_loop::transaction::lifecycle::session_identity::{
    ensure_session, is_transaction_scoped_session, provider_tool_call_id_from_action,
    session_key_for, tool_action_id_for_exchange, transaction_scoped_session_id,
};

#[test]
fn synthetic_and_authoritative_upgrade() {
    let tx = TransactionId::generate();
    let mut session = None;
    let syn = ensure_session(&mut session, None, tx);
    assert!(is_transaction_scoped_session(&syn, tx));
    let auth = String::from("grok-real");
    let got = ensure_session(&mut session, Some(auth.clone()), tx);
    assert_eq!(got, auth);
    let other = String::from("grok-other");
    let kept = ensure_session(&mut session, Some(other), tx);
    assert_eq!(kept, auth);
}

#[test]
fn tx_prefix_external_id_is_not_synthetic() {
    let tx = TransactionId::generate();
    let external = String::from("tx-external-not-ours");
    assert!(!is_transaction_scoped_session(&external, tx));
    let mut session = Some(external.clone());
    let other = String::from("grok-claim");
    let kept = ensure_session(&mut session, Some(other), tx);
    assert_eq!(kept, external);
}

#[test]
fn session_key_matches_scoped_id() {
    let tx = TransactionId::generate();
    let ch = String::from("llm");
    let key = session_key_for(ch.clone(), None, tx);
    assert_eq!(key.session_id, transaction_scoped_session_id(tx));
    assert_eq!(key.channel_id, ch);
}

#[test]
fn direct_counts_as_synthetic() {
    let tx = TransactionId { value: 1 };
    assert!(is_transaction_scoped_session(&String::from("direct"), tx));
    assert!(!is_transaction_scoped_session(
        &transaction_scoped_session_id(TransactionId { value: 2 }),
        tx
    ));
}

#[test]
fn identities_are_shown_in_hyphenated_lower_case() {
    let tx = TransactionId { value: 0x0123_4567_89ab_cdef_fedc_ba98_7654_3210 };
    assert_eq!(tx.to_text(), "01234567-89ab-cdef-fedc-ba9876543210");
    assert_eq!(
        transaction_scoped_session_id(tx),
        "tx-01234567-89ab-cdef-fedc-ba9876543210"
    );
    assert_eq!(
        ExchangeId { value: 0 }.to_text(),
        "00000000-0000-0000-0000-000000000000"
    );
}

#[test]
fn random_identities_carry_version_and_variant() {
    let a = TransactionId::generate();
    let b = TransactionId::generate();
    assert_ne!(a.value, b.value);
    assert_eq!((a.value >> 76) & 0xf, 4);
    assert_eq!((a.value >> 62) & 0x3, 2);
    assert_ne!(ToolExecutionId::generate().value, ToolExecutionId::generate().value);
    let text = fresh_id_text();
    assert_eq!(text.len(), 36);
    assert_eq!(&text[14..15], "4");
}

#[test]
fn provider_identity_comes_back_out_of_an_action() {
    let e = ExchangeId { value: 7 };
    let action = tool_action_id_for_exchange(e, "call_1");
    assert_eq!(action, "00000000-0000-0000-0000-000000000007:call_1");
    assert_eq!(
        provider_tool_call_id_from_action(e, &action),
        Some(String::from("call_1"))
    );
    assert_eq!(
        provider_tool_call_id_from_action(ExchangeId { value: 8 }, &action),
        None
    );
}

#[test]
fn text_helpers() {
    assert_eq!(decimal(0), "0");
    assert_eq!(decimal(18446744073709551615), "18446744073709551615");
    assert_eq!(first_chars("grüße", 3), "grü");
    assert_eq!(strip_prefix("tx-1", "tx-"), Some(String::from("1")));
    assert_eq!(strip_prefix("t", "tx-"), None);
    assert_eq!(trim("\u{a0} a b \n"), "a b");
    assert_eq!(trim(" \u{3000}"), "");
}

#[test]
fn white_space_is_what_unicode_says() {
    for n in 0..=0x10ffff_u32 {
        if let Some(c) = char::from_u32(n) {
            assert_eq!(is_white_space(c), c.is_whitespace(), "at {n:x}");
        }
    }
    for text in ["", " a ", "\u{2029}x\u{1680}", "\t\u{200b} y"] {
        assert_eq!(trim(text), text.trim());
    }
}
