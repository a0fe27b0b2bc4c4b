use ocs_client::account::{format_balance, resolve_account_state};
use ocs_client::dispatch::{classify, generate_params, MethodKind, ParamSpec};
use ocs_client::errors::{is_error_status, ClientError};
use ocs_client::numfmt::{parse_u64_decimal, u64_to_string};
use ocs_client::signer::{encode_public_key, encode_signature, sign_then_verify, sign_transaction};
use ocs_client::submitter::{Action, Event, Phase, SubmitContext, Submitter};
use ocs_client::tx::Transaction;
use ocs_client::view::{interpret_view_response, ViewResponse};
use ocs_client::wire::{call_contract_body, view_call_body};

use base64::Engine;
use ed25519_dalek::{Signer, Verifier};

fn sample_tx(nonce: u64) -> Transaction {
    Transaction {
        from: "alice".to_string(),
        to: "contract1".to_string(),
        amount: "0".to_string(),
        nonce,
        ou: "1".to_string(),
        timestamp: "1700000000.25".to_string(),
    }
}

fn sample_ctx(seed: [u8; 32]) -> SubmitContext {
    SubmitContext {
        seed: seed.to_vec(),
        from: "alice".to_string(),
        contract: "contract1".to_string(),
    }
}

#[test]
fn canonicalize_exact_text() {
    let tx = sample_tx(6);
    assert_eq!(
        tx.canonicalize(),
        "{\"from\":\"alice\",\"to_\":\"contract1\",\"amount\":\"0\",\"nonce\":6,\"ou\":\"1\",\"timestamp\":1700000000.25}"
    );
}

#[test]
fn canonicalize_deterministic() {
    let a = sample_tx(42);
    let b = sample_tx(42);
    assert_eq!(a.canonicalize(), b.canonicalize());
}

#[test]
fn canonicalize_changes_with_each_field() {
    let base = sample_tx(6).canonicalize();
    let mut t = sample_tx(6);
    t.from = "bob".to_string();
    assert_ne!(t.canonicalize(), base);
    let mut t = sample_tx(6);
    t.to = "contract2".to_string();
    assert_ne!(t.canonicalize(), base);
    let mut t = sample_tx(6);
    t.amount = "5".to_string();
    assert_ne!(t.canonicalize(), base);
    let t = sample_tx(7);
    assert_ne!(t.canonicalize(), base);
    let mut t = sample_tx(6);
    t.ou = "2".to_string();
    assert_ne!(t.canonicalize(), base);
    let mut t = sample_tx(6);
    t.timestamp = "1700000000.26".to_string();
    assert_ne!(t.canonicalize(), base);
}

#[test]
fn sign_verify_roundtrip() {
    let seed = [7u8; 32];
    let tx = sample_tx(6);
    let sig = sign_transaction(&seed.to_vec(), &tx);
    assert_eq!(sig.len(), 64);

    let sk = ed25519_dalek::SigningKey::from_bytes(&seed);
    let vk = sk.verifying_key();
    let sig_bytes: [u8; 64] = sig.as_slice().try_into().unwrap();
    let signature = ed25519_dalek::Signature::from_bytes(&sig_bytes);
    let canonical = tx.canonicalize();
    assert!(vk.verify(canonical.as_bytes(), &signature).is_ok());

    let mut mutated = canonical.into_bytes();
    mutated[0] ^= 1;
    assert!(vk.verify(&mutated, &signature).is_err());

    assert!(sign_then_verify(&seed.to_vec(), &tx));
}

#[test]
fn signature_matches_reference_signer() {
    let seed = [3u8; 32];
    let tx = sample_tx(1);
    let sig = sign_transaction(&seed.to_vec(), &tx);
    let sk = ed25519_dalek::SigningKey::from_bytes(&seed);
    let expected = sk.sign(tx.canonicalize().as_bytes());
    assert_eq!(sig, expected.to_bytes().to_vec());
}

#[test]
fn transport_encodings_match_base64() {
    let seed = [9u8; 32];
    let tx = sample_tx(2);
    let sig = sign_transaction(&seed.to_vec(), &tx);
    let engine = base64::engine::general_purpose::STANDARD;
    assert_eq!(encode_signature(&sig), engine.encode(sig.as_slice()));
    let vk = ed25519_dalek::SigningKey::from_bytes(&seed).verifying_key();
    assert_eq!(encode_public_key(&seed.to_vec()), engine.encode(vk.to_bytes()));
}

#[test]
fn nonce_discipline_uses_fresh_fetch() {
    let ctx = sample_ctx([5u8; 32]);
    let mut s = Submitter::new();
    let action = s.step(&ctx, Event::FetchOk { nonce: 5, timestamp: "1.5".to_string() });
    match action {
        Action::Submit { tx, .. } => assert_eq!(tx.nonce, 6),
        _ => panic!("expected a submission after a fresh fetch"),
    }
    let action = s.step(&ctx, Event::SubmitErr);
    assert!(matches!(action, Action::Retry));
    assert!(matches!(s.phase, Phase::Fetching));
    let action = s.step(&ctx, Event::FetchOk { nonce: 9, timestamp: "2.5".to_string() });
    match action {
        Action::Submit { tx, .. } => assert_eq!(tx.nonce, 10),
        _ => panic!("expected a submission after a fresh fetch"),
    }
}

#[test]
fn retry_exhausted_after_three_attempts() {
    let ctx = sample_ctx([5u8; 32]);
    let mut s = Submitter::new();
    assert!(matches!(s.step(&ctx, Event::FetchErr), Action::Retry));
    assert_eq!(s.attempt, 2);
    assert!(matches!(s.step(&ctx, Event::FetchErr), Action::Retry));
    assert_eq!(s.attempt, 3);
    assert!(matches!(s.step(&ctx, Event::FetchErr), Action::Done));
    assert!(matches!(s.phase, Phase::Failed));
    match s.outcome() {
        Some(Err(ClientError::RetryExhausted)) => {},
        _ => panic!("expected the aggregate retry-exhaustion error"),
    }
}

#[test]
fn missing_hash_counts_as_failed_attempt() {
    let ctx = sample_ctx([5u8; 32]);
    let mut s = Submitter::new();
    let _ = s.step(&ctx, Event::FetchOk { nonce: 5, timestamp: "1.5".to_string() });
    let action = s.step(&ctx, Event::SubmitOk { tx_hash: None });
    assert!(matches!(action, Action::Retry));
    assert!(matches!(s.phase, Phase::Fetching));
    assert_eq!(s.attempt, 2);
}

#[test]
fn empty_hash_counts_as_failed_attempt() {
    let ctx = sample_ctx([5u8; 32]);
    let mut s = Submitter::new();
    let _ = s.step(&ctx, Event::FetchOk { nonce: 5, timestamp: "1.5".to_string() });
    let action = s.step(&ctx, Event::SubmitOk { tx_hash: Some(String::new()) });
    assert!(matches!(action, Action::Retry));
    assert!(matches!(s.phase, Phase::Fetching));
}

#[test]
fn accepted_hash_ends_the_run() {
    let ctx = sample_ctx([5u8; 32]);
    let mut s = Submitter::new();
    let _ = s.step(&ctx, Event::FetchOk { nonce: 5, timestamp: "1.5".to_string() });
    let action = s.step(&ctx, Event::SubmitOk { tx_hash: Some("abc123".to_string()) });
    assert!(matches!(action, Action::Done));
    match s.outcome() {
        Some(Ok(hash)) => assert_eq!(hash, "abc123"),
        _ => panic!("expected the accepted hash"),
    }
}

#[test]
fn balance_resolution_scenario() {
    let state = resolve_account_state("2500000", 5).unwrap();
    assert_eq!(state.balance_micro, 2_500_000);
    assert_eq!(state.nonce, 5);
    assert_eq!(format_balance(state.balance_micro), "2.500000");
}

#[test]
fn balance_resolution_rejects_non_numeric() {
    match resolve_account_state("2.5", 1) {
        Err(ClientError::Decode { .. }) => {},
        _ => panic!("expected a decode error"),
    }
    match resolve_account_state("", 1) {
        Err(ClientError::Decode { .. }) => {},
        _ => panic!("expected a decode error"),
    }
}

#[test]
fn balance_display_edges() {
    assert_eq!(format_balance(0), "0.000000");
    assert_eq!(format_balance(123), "0.000123");
    assert_eq!(format_balance(1_000_000), "1.000000");
}

#[test]
fn decimal_parse_and_format() {
    assert_eq!(parse_u64_decimal("0"), Some(0));
    assert_eq!(parse_u64_decimal("007"), Some(7));
    assert_eq!(parse_u64_decimal("18446744073709551615"), Some(u64::MAX));
    assert_eq!(parse_u64_decimal("18446744073709551616"), None);
    assert_eq!(parse_u64_decimal("12a"), None);
    assert_eq!(parse_u64_decimal("-1"), None);
    assert_eq!(u64_to_string(0), "0");
    assert_eq!(u64_to_string(90210), "90210");
    assert_eq!(u64_to_string(u64::MAX), "18446744073709551615");
}

#[test]
fn view_success_without_result_is_null() {
    let resp = ViewResponse { status: "success".to_string(), result: None };
    assert_eq!(interpret_view_response(&resp).unwrap(), "null");
}

#[test]
fn view_success_with_result() {
    let resp = ViewResponse { status: "success".to_string(), result: Some("42".to_string()) };
    assert_eq!(interpret_view_response(&resp).unwrap(), "42");
}

#[test]
fn view_other_status_is_contract_error() {
    let resp = ViewResponse { status: "reverted".to_string(), result: None };
    match interpret_view_response(&resp) {
        Err(ClientError::Contract { raw }) => assert_eq!(raw, "reverted"),
        _ => panic!("expected a contract error"),
    }
}

#[test]
fn classify_method_kinds() {
    assert!(matches!(classify(&"view".to_string()), MethodKind::View));
    assert!(matches!(classify(&"call".to_string()), MethodKind::Call));
    assert!(matches!(classify(&"batch".to_string()), MethodKind::Unknown));
    assert!(matches!(classify(&"".to_string()), MethodKind::Unknown));
}

#[test]
fn view_path_carries_no_signature_or_nonce() {
    assert!(matches!(classify(&"view".to_string()), MethodKind::View));
    let params = vec!["7".to_string()];
    let body = view_call_body("contract1", "getCount", &params, "alice");
    assert!(!body.contains("nonce"));
    assert!(!body.contains("signature"));
    assert!(!body.contains("public_key"));
}

#[test]
fn generated_params_respect_examples_and_bounds() {
    let params = vec![
        ParamSpec {
            name: "recipient".to_string(),
            param_type: "address".to_string(),
            example: Some("addr9".to_string()),
            max: None,
        },
        ParamSpec {
            name: "count".to_string(),
            param_type: "number".to_string(),
            example: None,
            max: Some(4),
        },
        ParamSpec {
            name: "other".to_string(),
            param_type: "number".to_string(),
            example: None,
            max: None,
        },
    ];
    for _ in 0..20 {
        let values = generate_params(&params);
        assert_eq!(values.len(), 3);
        assert_eq!(values[0], "addr9");
        let drawn: u64 = values[1].parse().unwrap();
        assert!((1..=4).contains(&drawn));
        let other: u64 = values[2].parse().unwrap();
        assert!((1..=100).contains(&other));
    }
}

#[test]
fn view_body_exact_text() {
    let params = vec!["a".to_string(), "b".to_string()];
    let body = view_call_body("contract1", "peek", &params, "alice");
    assert_eq!(
        body,
        "{\"contract\":\"contract1\",\"method\":\"peek\",\"params\":[\"a\",\"b\"],\"caller\":\"alice\"}"
    );
}

#[test]
fn view_body_empty_params() {
    let params: Vec<String> = Vec::new();
    let body = view_call_body("contract1", "peek", &params, "alice");
    assert_eq!(
        body,
        "{\"contract\":\"contract1\",\"method\":\"peek\",\"params\":[],\"caller\":\"alice\"}"
    );
}

#[test]
fn call_body_exact_text() {
    let tx = sample_tx(6);
    let params = vec!["7".to_string()];
    let body = call_contract_body(
        "bump",
        &params,
        &tx,
        &"SIG".to_string(),
        &"PK".to_string(),
    );
    assert_eq!(
        body,
        "{\"contract\":\"contract1\",\"method\":\"bump\",\"params\":[\"7\"],\"caller\":\"alice\",\"nonce\":6,\"timestamp\":1700000000.25,\"signature\":\"SIG\",\"public_key\":\"PK\"}"
    );
}

#[test]
fn submit_action_is_fully_formed() {
    let seed = [11u8; 32];
    let ctx = sample_ctx(seed);
    let mut s = Submitter::new();
    let action = s.step(&ctx, Event::FetchOk { nonce: 0, timestamp: "123.5".to_string() });
    match action {
        Action::Submit { tx, signature, public_key } => {
            assert_eq!(tx.from, "alice");
            assert_eq!(tx.to, "contract1");
            assert_eq!(tx.amount, "0");
            assert_eq!(tx.nonce, 1);
            assert_eq!(tx.ou, "1");
            assert_eq!(tx.timestamp, "123.5");
            let engine = base64::engine::general_purpose::STANDARD;
            let sk = ed25519_dalek::SigningKey::from_bytes(&seed);
            let expected_sig = sk.sign(tx.canonicalize().as_bytes());
            assert_eq!(signature, engine.encode(expected_sig.to_bytes()));
            assert_eq!(public_key, engine.encode(sk.verifying_key().to_bytes()));
        },
        _ => panic!("expected a submission after a fresh fetch"),
    }
}

#[test]
fn error_status_threshold() {
    assert!(!is_error_status(200));
    assert!(!is_error_status(399));
    assert!(is_error_status(400));
    assert!(is_error_status(500));
}

#[test]
fn error_kind_names() {
    assert_eq!(ClientError::RetryExhausted.kind_name(), "all retries failed");
    assert_eq!(
        ClientError::Contract { raw: "x".to_string() }.kind_name(),
        "contract error"
    );
    assert_eq!(
        ClientError::Decode { msg: "x".to_string() }.kind_name(),
        "decode error"
    );
    assert_eq!(
        ClientError::Network { detail: "x".to_string() }.kind_name(),
        "network error"
    );
    assert_eq!(
        ClientError::Api { status: 500, body: "x".to_string() }.kind_name(),
        "api error"
    );
}
