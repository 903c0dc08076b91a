//! The signed-message protocol of the remote service: canonical message
//! text, signatures, session fingerprints, claim nonces, request contents
//! and the reading of its replies.

use vstd::prelude::*;
use vstd::utf8::encode_utf8;
use crate::codec::{
    base58_encode, base58_of, copy_bytes, ed25519_signature_of, hex_encode, hex_of,
    is_lower_hex, lemma_hex_is_lower, lemma_hex_len, now, os_random_bytes, sha256, sha256_of,
    sign_bytes,
};
use crate::wallet::{restore_error, restore_keypair, restored_secret, KeyError, Wallet};

verus! {

/// The decimal digit of a value below ten.
pub open spec fn digit_char(d: nat) -> char {
    seq!['0', '1', '2', '3', '4', '5', '6', '7', '8', '9'][d as int]
}

/// Decimal text of a natural number, without leading zeros.
pub open spec fn nat_decimal(n: nat) -> Seq<char>
    decreases n,
{
    if n < 10 {
        seq![digit_char(n)]
    } else {
        nat_decimal(n / 10) + seq![digit_char(n % 10)]
    }
}

/// Decimal text of an integer, with a leading minus sign when negative.
pub open spec fn decimal(n: int) -> Seq<char> {
    if n < 0 {
        seq!['-'] + nat_decimal((-n) as nat)
    } else {
        nat_decimal(n as nat)
    }
}

/// The canonical message that the remote service checks signatures against.
pub open spec fn message_text(
    action: Seq<char>,
    address: Seq<char>,
    timestamp: int,
    nonce: Seq<char>,
) -> Seq<char> {
    "SOLdrip\n\nAction: "@ + action + "\nWallet: "@ + address + "\nTimestamp: "@ + decimal(
        timestamp,
    ) + "\nNonce: "@ + nonce
}

/// Base58 text of the signature of a message's UTF-8 bytes.
pub open spec fn signature_text(secret: Seq<u8>, message: Seq<char>) -> Seq<char> {
    base58_of(ed25519_signature_of(secret, encode_utf8(message)))
}

/// What signing a message with key material gives.
pub open spec fn signed(material: Seq<char>, message: Seq<char>) -> Result<Seq<char>, KeyError> {
    match restored_secret(material) {
        Some(secret) => Ok(signature_text(secret, message)),
        None => Err(restore_error(material)),
    }
}

/// Session fingerprint: hex of SHA-256 over the address then the decimal Unix seconds.
pub open spec fn fingerprint_of(address: Seq<char>, seconds: int) -> Seq<char> {
    hex_of(sha256_of(encode_utf8(address) + encode_utf8(decimal(seconds))))
}

/// Claim nonce: hex of SHA-256 of a random seed.
pub open spec fn nonce_of(seed: Seq<u8>) -> Seq<char> {
    hex_of(sha256_of(seed))
}

/// Message building is a pure function: the same action, address,
/// timestamp and nonce always give the same text.
pub proof fn lemma_message_is_pure(
    action: Seq<char>,
    address: Seq<char>,
    timestamp: int,
    nonce: Seq<char>,
    action2: Seq<char>,
    address2: Seq<char>,
    timestamp2: int,
    nonce2: Seq<char>,
)
    requires
        action == action2,
        address == address2,
        timestamp == timestamp2,
        nonce == nonce2,
    ensures
        message_text(action, address, timestamp, nonce) == message_text(
            action2,
            address2,
            timestamp2,
            nonce2,
        ),
{
}

/// Signing is deterministic: the same key material and message always give
/// the same signature (or the same error).
pub proof fn lemma_signing_is_deterministic(
    material: Seq<char>,
    message: Seq<char>,
    material2: Seq<char>,
    message2: Seq<char>,
)
    requires
        material == material2,
        message == message2,
    ensures
        signed(material, message) == signed(material2, message2),
{
}

/// The digit `d` as text.
fn digit_text(d: u64) -> (r: &'static str)
    requires
        d < 10,
    ensures
        r@ == seq![digit_char(d as nat)],
{
    proof {
        reveal_strlit("0");
        reveal_strlit("1");
        reveal_strlit("2");
        reveal_strlit("3");
        reveal_strlit("4");
        reveal_strlit("5");
        reveal_strlit("6");
        reveal_strlit("7");
        reveal_strlit("8");
        reveal_strlit("9");
    }
    let r = match d {
        0 => "0",
        1 => "1",
        2 => "2",
        3 => "3",
        4 => "4",
        5 => "5",
        6 => "6",
        7 => "7",
        8 => "8",
        _ => "9",
    };
    assert(r@ =~= seq![digit_char(d as nat)]);
    r
}

/// Decimal text of a 64-bit integer.
pub fn decimal_text(n: i64) -> (r: String)
    ensures
        r@ == decimal(n as int),
{
    let negative = n < 0;
    let mut m: u64 = if negative {
        (0i128 - n as i128) as u64
    } else {
        n as u64
    };
    let ghost whole = m as nat;
    let mut s = digit_text(m % 10).to_owned();
    proof {
        if m >= 10 {
            assert(nat_decimal(whole) == nat_decimal((m / 10) as nat) + seq![
                digit_char((m % 10) as nat),
            ]);
        }
    }
    m = m / 10;
    while m > 0
        invariant
            m > 0 ==> nat_decimal(whole) == nat_decimal(m as nat) + s@,
            m == 0 ==> nat_decimal(whole) == s@,
        decreases m,
    {
        let head = digit_text(m % 10).to_owned();
        proof {
            assert(head@ + s@ =~= seq![digit_char((m % 10) as nat)] + s@);
            if m >= 10 {
                assert(nat_decimal(m as nat) == nat_decimal((m / 10) as nat) + seq![
                    digit_char((m % 10) as nat),
                ]);
                assert(nat_decimal(whole) =~= nat_decimal((m / 10) as nat) + (head@ + s@));
            }
        }
        s = head.concat(s.as_str());
        m = m / 10;
    }
    if negative {
        proof {
            reveal_strlit("-");
            assert(whole == -(n as int));
        }
        let r = "-".to_owned().concat(s.as_str());
        assert(r@ =~= decimal(n as int));
        r
    } else {
        s
    }
}

/// The canonical message for an action; the nonce field reads `0`.
pub fn create_message(wallet_address: &str, timestamp: i64, action: &str) -> (r: String)
    ensures
        r@ == message_text(action@, wallet_address@, timestamp as int, "0"@),
{
    let mut s = "SOLdrip\n\nAction: ".to_owned();
    s.append(action);
    s.append("\nWallet: ");
    s.append(wallet_address);
    s.append("\nTimestamp: ");
    let ts = decimal_text(timestamp);
    s.append(ts.as_str());
    s.append("\nNonce: 0");
    proof {
        reveal_strlit("\nNonce: 0");
        reveal_strlit("\nNonce: ");
        reveal_strlit("0");
        assert("\nNonce: 0"@ =~= "\nNonce: "@ + "0"@);
    }
    assert(s@ =~= message_text(action@, wallet_address@, timestamp as int, "0"@));
    s
}

/// The canonical message for a claim, carrying its nonce.
pub fn create_claim_message(wallet_address: &str, timestamp: i64, nonce: &str) -> (r: String)
    ensures
        r@ == message_text("claim"@, wallet_address@, timestamp as int, nonce@),
{
    let mut s = "SOLdrip\n\nAction: claim\nWallet: ".to_owned();
    s.append(wallet_address);
    s.append("\nTimestamp: ");
    let ts = decimal_text(timestamp);
    s.append(ts.as_str());
    s.append("\nNonce: ");
    s.append(nonce);
    proof {
        reveal_strlit("SOLdrip\n\nAction: claim\nWallet: ");
        reveal_strlit("SOLdrip\n\nAction: ");
        reveal_strlit("claim");
        reveal_strlit("\nWallet: ");
        assert("SOLdrip\n\nAction: claim\nWallet: "@ =~= "SOLdrip\n\nAction: "@ + "claim"@
            + "\nWallet: "@);
    }
    assert(s@ =~= message_text("claim"@, wallet_address@, timestamp as int, nonce@));
    s
}

/// Signs a message's UTF-8 bytes with key material; the signature is Base58 text.
pub fn sign_message(private_key: &str, message: &str) -> (r: Result<String, KeyError>)
    ensures
        match r {
            Ok(sig) => signed(private_key@, message@) == Ok::<Seq<char>, KeyError>(sig@),
            Err(e) => signed(private_key@, message@) == Err::<Seq<char>, KeyError>(e),
        },
{
    let key = restore_keypair(private_key)?;
    let sig = sign_bytes(&key.secret, message.as_bytes());
    Ok(base58_encode(&sig))
}

/// The fingerprint of an address at a given Unix time in seconds.
pub fn fingerprint_at(wallet_address: &str, seconds: i64) -> (r: String)
    ensures
        r@ == fingerprint_of(wallet_address@, seconds as int),
{
    let mut data: Vec<u8> = Vec::new();
    copy_bytes(&mut data, wallet_address.as_bytes());
    let ts = decimal_text(seconds);
    copy_bytes(&mut data, ts.as_str().as_bytes());
    let digest = sha256(data.as_slice());
    hex_encode(digest.as_slice())
}

/// The fingerprint of an address now; `None` where the clock is unavailable.
pub fn generate_fingerprint(wallet_address: &str) -> (r: Option<String>)
    ensures
        r matches Some(f) ==> exists|seconds: i64| f@ == fingerprint_of(wallet_address@, seconds as int),
{
    match now() {
        Some((seconds, _millis, _nanos)) => Some(fingerprint_at(wallet_address, seconds)),
        None => None,
    }
}

/// The nonce that a random seed gives: 64 hexadecimal digits.
pub fn nonce_from_seed(seed: [u8; 32]) -> (r: String)
    ensures
        r@ == nonce_of(seed@),
        r@.len() == 64,
        is_lower_hex(r@),
{
    let digest = sha256(&seed);
    proof {
        lemma_hex_len(digest@);
        lemma_hex_is_lower(digest@);
    }
    hex_encode(digest.as_slice())
}

/// A fresh claim nonce from 32 bytes of the secure random source; `None`
/// where that source is unavailable.
pub fn generate_nonce() -> (r: Option<String>)
    ensures
        r matches Some(n) ==> exists|seed: Seq<u8>| seed.len() == 32 && n@ == nonce_of(seed),
        r matches Some(n) ==> n@.len() == 64 && is_lower_hex(n@),
{
    match os_random_bytes() {
        Some(seed) => Some(nonce_from_seed(seed)),
        None => None,
    }
}

} // verus!
