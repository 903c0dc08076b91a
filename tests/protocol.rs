use std::collections::HashSet;

use sha2::Digest;
use soldrip::protocol::{
    create_claim_message, create_message, decimal_text, fingerprint_at, generate_fingerprint,
    generate_nonce, nonce_from_seed, sign_message,
};
use soldrip::remote::{
    balance_outcome, claim, claim_outcome, claim_request, claim_request_at, connect_request, connect_request_at, registration_outcome,
    RemoteError,
};
use soldrip::wallet::{generate_wallet, wallet_from_secret, KeyError};

fn rfc8032_secret() -> [u8; 32] {
    let bytes = hex::decode("9d61b19deffd5a60ba844af492ec2cc44449c5697b326919703bac031cae7f60").unwrap();
    let mut secret = [0u8; 32];
    secret.copy_from_slice(&bytes);
    secret
}

#[test]
fn test_sign_message() {
    let wallet = generate_wallet().unwrap();
    let signature = sign_message(&wallet.private_key, "test").unwrap();
    assert!(!signature.is_empty());
}

#[test]
fn decimal_text_values() {
    assert_eq!(decimal_text(0), "0");
    assert_eq!(decimal_text(7), "7");
    assert_eq!(decimal_text(1700000000123), "1700000000123");
    assert_eq!(decimal_text(-42), "-42");
    assert_eq!(decimal_text(i64::MIN), "-9223372036854775808");
    assert_eq!(decimal_text(i64::MAX), "9223372036854775807");
}

#[test]
fn connect_message_is_canonical() {
    let m = create_message("Addr111", 1700000000123, "connect");
    assert_eq!(m, "SOLdrip\n\nAction: connect\nWallet: Addr111\nTimestamp: 1700000000123\nNonce: 0");
    assert_eq!(m, create_message("Addr111", 1700000000123, "connect"));
}

#[test]
fn claim_message_is_canonical() {
    let m = create_claim_message("Addr111", 5, "abc123");
    assert_eq!(m, "SOLdrip\n\nAction: claim\nWallet: Addr111\nTimestamp: 5\nNonce: abc123");
}

#[test]
fn signature_matches_rfc8032_vector() {
    let w = wallet_from_secret(rfc8032_secret(), String::new());
    let sig = sign_message(&w.private_key, "").unwrap();
    let expected = hex::decode(
        "e5564300c360ac729086e2cc806e828a84877f1eb8e5d974d873e065224901555fb8821590a33bacc61e39701cf9b46bd25bf5f0595bbe24655141438e7a100b",
    )
    .unwrap();
    assert_eq!(sig, bs58::encode(expected).into_string());
}

#[test]
fn signing_is_deterministic_and_key_dependent() {
    let a = generate_wallet().unwrap();
    let b = generate_wallet().unwrap();
    let s1 = sign_message(&a.private_key, "hello").unwrap();
    let s2 = sign_message(&a.private_key, "hello").unwrap();
    let s3 = sign_message(&b.private_key, "hello").unwrap();
    assert_eq!(s1, s2);
    assert_ne!(s1, s3);
}

#[test]
fn signing_with_bad_key_fails() {
    assert_eq!(sign_message("0OIl", "x").unwrap_err(), KeyError::InvalidEncoding);
}

#[test]
fn fingerprint_hashes_address_then_seconds() {
    let f = fingerprint_at("Addr111", 1700000000);
    let expected = hex::encode(sha2::Sha256::digest(b"Addr1111700000000"));
    assert_eq!(f, expected);
    assert_eq!(f.len(), 64);
    assert_eq!(generate_fingerprint("Addr111").unwrap().len(), 64);
}

#[test]
fn nonce_from_zero_seed() {
    assert_eq!(
        nonce_from_seed([0u8; 32]),
        "66687aadf862bd776c8fc18b8e9f8e20089714856ee233b3902a591d0d5f2925"
    );
}

#[test]
fn nonces_do_not_collide() {
    let mut seen = HashSet::new();
    for _ in 0..10_000 {
        let n = generate_nonce().unwrap();
        assert_eq!(n.len(), 64);
        assert!(n.chars().all(|c| c.is_ascii_digit() || ('a'..='f').contains(&c)));
        assert!(seen.insert(n));
    }
}

#[test]
fn claim_request_now_has_fresh_hex_nonce() {
    let w = wallet_from_secret(rfc8032_secret(), String::new());
    let a = claim_request(&w, "tok").unwrap();
    let b = claim_request(&w, "tok").unwrap();
    assert_eq!(a.nonce.len(), 64);
    assert!(a.nonce.chars().all(|c| c.is_ascii_digit() || ('a'..='f').contains(&c)));
    assert_ne!(a.nonce, b.nonce);
    assert_ne!(a.message, b.message);
    assert!(connect_request(&w).is_ok());
}

#[test]
fn connect_request_contents() {
    let w = wallet_from_secret(rfc8032_secret(), String::new());
    let req = connect_request_at(&w, 1700000000123, 1700000000).unwrap();
    let message = create_message(&w.address, 1700000000123, "connect");
    assert_eq!(req.message, message);
    assert_eq!(req.wallet_address, w.address);
    assert_eq!(req.timestamp, 1700000000123);
    assert_eq!(req.signature, sign_message(&w.private_key, &message).unwrap());
    assert_eq!(req.fingerprint, fingerprint_at(&w.address, 1700000000));
}

#[test]
fn claim_request_contents() {
    let w = wallet_from_secret(rfc8032_secret(), String::new());
    let req = claim_request_at(&w, "tok", 99, 3, "n1".to_string()).unwrap();
    let message = create_claim_message(&w.address, 99, "n1");
    assert_eq!(req.message, message);
    assert_eq!(req.nonce, "n1");
    assert_eq!(req.captcha_token, "tok");
    assert_eq!(req.signature, sign_message(&w.private_key, &message).unwrap());
}

#[test]
fn request_with_bad_key_fails() {
    let mut w = wallet_from_secret(rfc8032_secret(), String::new());
    w.private_key = bs58::encode([1u8; 5]).into_string();
    assert_eq!(connect_request_at(&w, 1, 1).unwrap_err(), KeyError::InvalidLength(5));
}

#[test]
fn registration_reply_outcomes() {
    assert_eq!(registration_outcome(200, "ok".to_string()), Ok(()));
    assert_eq!(registration_outcome(299, String::new()), Ok(()));
    assert_eq!(
        registration_outcome(400, "bad".to_string()),
        Err(RemoteError::Registration { status: 400, body: "bad".to_string() })
    );
}

#[test]
fn claim_reply_outcomes() {
    assert_eq!(claim_outcome(200, Some(250_000_000), String::new()), Ok(250_000_000));
    assert_eq!(claim_outcome(200, None, String::new()), Ok(0));
    assert_eq!(
        claim_outcome(500, Some(1), "oops".to_string()),
        Err(RemoteError::Claim { status: 500, body: "oops".to_string() })
    );
    let w = wallet_from_secret(rfc8032_secret(), String::new());
    assert_eq!(claim(&w), Err(RemoteError::CaptchaRequired));
}

#[test]
fn balance_reply_outcomes() {
    assert_eq!(balance_outcome(200, Some(5)), Ok(5));
    assert_eq!(balance_outcome(200, None), Err(RemoteError::InvalidBalance));
    assert_eq!(balance_outcome(404, Some(5)), Err(RemoteError::BalanceUnavailable { status: 404 }));
}
