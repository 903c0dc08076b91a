//! Byte and text encodings, hashing, signatures, randomness and the clock.
//! Every call into a cryptography or encoding crate goes through this module.

use vstd::prelude::*;
use rand::RngCore;
use sha2::Digest;
use ed25519_dalek::Signer;

verus! {

/// The Base58 text (Bitcoin alphabet) of a byte string.
pub uninterp spec fn base58_of(b: Seq<u8>) -> Seq<char>;

/// The bytes that a Base58 text stands for, if it is valid Base58.
pub uninterp spec fn base58_decoded(s: Seq<char>) -> Option<Seq<u8>>;

/// The SHA-256 digest of a byte string.
pub uninterp spec fn sha256_of(b: Seq<u8>) -> Seq<u8>;

/// The Ed25519 public key that belongs to a 32-byte secret key.
pub uninterp spec fn ed25519_public_of(secret: Seq<u8>) -> Seq<u8>;

/// The Ed25519 signature of a message under a 32-byte secret key.
pub uninterp spec fn ed25519_signature_of(secret: Seq<u8>, msg: Seq<u8>) -> Seq<u8>;

/// The lower-case hexadecimal digit of a value below 16.
pub open spec fn hex_digit(n: u8) -> char {
    hex_digits()[n as int]
}

/// The sixteen lower-case hexadecimal digits.
pub open spec fn hex_digits() -> Seq<char> {
    seq!['0', '1', '2', '3', '4', '5', '6', '7', '8', '9', 'a', 'b', 'c', 'd', 'e', 'f']
}

/// Every character is a lower-case hexadecimal digit.
pub open spec fn is_lower_hex(s: Seq<char>) -> bool {
    forall|i: int| 0 <= i < s.len() ==> hex_digits().contains(#[trigger] s[i])
}

/// Lower-case hexadecimal text of a byte string: two digits per byte, high nibble first.
pub open spec fn hex_of(b: Seq<u8>) -> Seq<char>
    decreases b.len(),
{
    if b.len() == 0 {
        Seq::empty()
    } else {
        hex_of(b.drop_last()) + seq![hex_digit(b.last() / 16), hex_digit(b.last() % 16)]
    }
}

/// Appends the bytes of a slice to a vector.
pub(crate) fn copy_bytes(dst: &mut Vec<u8>, src: &[u8])
    ensures
        final(dst)@ == old(dst)@ + src@,
{
    let mut i: usize = 0;
    while i < src.len()
        invariant
            i <= src@.len(),
            dst@ == old(dst)@ + src@.take(i as int),
        decreases src@.len() - i,
    {
        dst.push(src[i]);
        i = i + 1;
        proof {
            assert(src@.take(i as int) =~= src@.take(i - 1 as int).push(src@[i - 1]));
        }
    }
    assert(src@.take(src@.len() as int) =~= src@);
}

/// Relies on `bs58::encode(..).into_string()`: the Base58 text of the
/// bytes; each leading zero byte gives a `1` and the rest at least one digit,
/// so non-empty bytes give non-empty text.
#[verifier::external_body]
pub(crate) fn base58_encode(b: &[u8]) -> (r: String)
    ensures
        r@ == base58_of(b@),
        b@.len() > 0 ==> r@.len() > 0,
{
    bs58::encode(b).into_string()
}

/// Relies on `bs58::decode(..).into_vec()`: the decoded bytes, or `None` where
/// the text holds a character outside the alphabet. Decoding is the inverse of
/// `bs58::encode`, so a text that some bytes encode to decodes to those bytes.
#[verifier::external_body]
pub(crate) fn base58_decode(s: &str) -> (r: Option<Vec<u8>>)
    ensures
        match r {
            Some(v) => base58_decoded(s@) == Some(v@),
            None => base58_decoded(s@) is None,
        },
        forall|b: Seq<u8>| #[trigger] base58_of(b) == s@ ==> (r is Some && r->Some_0@ == b),
{
    bs58::decode(s).into_vec().ok()
}

/// Relies on `sha2::Sha256`: the 32-byte digest of the data.
#[verifier::external_body]
pub(crate) fn sha256(data: &[u8]) -> (r: Vec<u8>)
    ensures
        r@ == sha256_of(data@),
        r@.len() == 32,
{
    sha2::Sha256::digest(data).to_vec()
}

/// Hexadecimal text has two digits per byte.
pub proof fn lemma_hex_len(b: Seq<u8>)
    ensures
        hex_of(b).len() == 2 * b.len(),
    decreases b.len(),
{
    if b.len() > 0 {
        lemma_hex_len(b.drop_last());
    }
}

/// Hexadecimal text holds only lower-case hexadecimal digits.
pub proof fn lemma_hex_is_lower(b: Seq<u8>)
    ensures
        is_lower_hex(hex_of(b)),
    decreases b.len(),
{
    if b.len() > 0 {
        lemma_hex_is_lower(b.drop_last());
        lemma_hex_len(b.drop_last());
        let hi = b.last() / 16;
        let lo = b.last() % 16;
        assert(hex_digits()[hi as int] == hex_digit(hi));
        assert(hex_digits()[lo as int] == hex_digit(lo));
        let h = hex_of(b);
        let init = hex_of(b.drop_last());
        assert forall|i: int| 0 <= i < h.len() implies hex_digits().contains(#[trigger] h[i]) by {
            if i < init.len() {
                assert(h[i] == init[i]);
            }
        }
    }
}

/// The hexadecimal digit of a value below 16, as text.
fn hex_digit_text(n: u8) -> (r: &'static str)
    requires
        n < 16,
    ensures
        r@ == seq![hex_digit(n)],
{
    proof {
        reveal_strlit("0");
        reveal_strlit("1");
        reveal_strlit("2");
        reveal_strlit("3");
        reveal_strlit("4");
        reveal_strlit("5");
        reveal_strlit("6");
        reveal_strlit("7");
        reveal_strlit("8");
        reveal_strlit("9");
        reveal_strlit("a");
        reveal_strlit("b");
        reveal_strlit("c");
        reveal_strlit("d");
        reveal_strlit("e");
        reveal_strlit("f");
    }
    let r = match n {
        0 => "0",
        1 => "1",
        2 => "2",
        3 => "3",
        4 => "4",
        5 => "5",
        6 => "6",
        7 => "7",
        8 => "8",
        9 => "9",
        10 => "a",
        11 => "b",
        12 => "c",
        13 => "d",
        14 => "e",
        _ => "f",
    };
    assert(r@ =~= seq![hex_digit(n)]);
    r
}

/// Lower-case hexadecimal text of the bytes, high half of each byte first.
pub(crate) fn hex_encode(b: &[u8]) -> (r: String)
    ensures
        r@ == hex_of(b@),
{
    let mut s = String::new();
    let mut i: usize = 0;
    while i < b.len()
        invariant
            i <= b@.len(),
            s@ == hex_of(b@.take(i as int)),
        decreases b@.len() - i,
    {
        assert(b@.take(i + 1).drop_last() =~= b@.take(i as int));
        s.append(hex_digit_text(b[i] / 16));
        s.append(hex_digit_text(b[i] % 16));
        i = i + 1;
        assert(s@ =~= hex_of(b@.take(i as int)));
    }
    assert(b@.take(b@.len() as int) =~= b@);
    s
}

/// Relies on `ed25519_dalek::SigningKey::verifying_key`: the public key of a secret key.
#[verifier::external_body]
pub(crate) fn public_key_of(secret: &[u8; 32]) -> (r: [u8; 32])
    ensures
        r@ == ed25519_public_of(secret@),
{
    ed25519_dalek::SigningKey::from_bytes(secret).verifying_key().to_bytes()
}

/// Relies on `ed25519_dalek::SigningKey::sign`: Ed25519 signatures are
/// deterministic, a function of the key and the message alone.
#[verifier::external_body]
pub(crate) fn sign_bytes(secret: &[u8; 32], msg: &[u8]) -> (r: [u8; 64])
    ensures
        r@ == ed25519_signature_of(secret@, msg@),
{
    ed25519_dalek::SigningKey::from_bytes(secret).sign(msg).to_bytes()
}

/// Relies on `rand::rngs::OsRng::try_fill_bytes`: 32 bytes from the
/// operating system's secure random source, or `None` where that source
/// fails. Nothing is known of their value.
#[verifier::external_body]
pub(crate) fn os_random_bytes() -> (r: Option<[u8; 32]>) {
    let mut bytes = [0u8; 32];
    match rand::rngs::OsRng.try_fill_bytes(&mut bytes) {
        Ok(()) => Some(bytes),
        Err(_) => None,
    }
}

/// The RFC 3339 text of a UTC instant, if chrono can represent it.
pub uninterp spec fn rfc3339_of(secs: int, nanos: int) -> Option<Seq<char>>;

/// Relies on `std::time::SystemTime::now().duration_since(UNIX_EPOCH)`:
/// whole seconds and the nanoseconds beyond them since the Unix epoch, or
/// `None` where the clock reads before the epoch. Nothing is known of the value.
#[verifier::external_body]
pub(crate) fn since_epoch() -> (r: Option<(u64, u32)>) {
    match std::time::SystemTime::now().duration_since(std::time::UNIX_EPOCH) {
        Ok(d) => Some((d.as_secs(), d.subsec_nanos())),
        Err(_) => None,
    }
}

/// Relies on `chrono::DateTime::<Utc>::from_timestamp` then `to_rfc3339`:
/// the RFC 3339 text of that instant, or `None` where it is out of chrono's range.
#[verifier::external_body]
pub(crate) fn rfc3339_at(secs: i64, nanos: u32) -> (r: Option<String>)
    ensures
        match r {
            Some(t) => rfc3339_of(secs as int, nanos as int) == Some(t@),
            None => rfc3339_of(secs as int, nanos as int) is None,
        },
{
    match chrono::DateTime::<chrono::Utc>::from_timestamp(secs, nanos) {
        Some(t) => Some(t.to_rfc3339()),
        None => None,
    }
}

/// Latest Unix second for which the time in milliseconds fits an `i64`.
pub const MAX_CLOCK_SECS: u64 = 9_000_000_000_000_000;

/// The current time as Unix seconds, Unix milliseconds and the nanoseconds
/// beyond the second; `None` where the clock reads before the epoch or
/// beyond `MAX_CLOCK_SECS`.
pub(crate) fn now() -> (r: Option<(i64, i64, u32)>)
    ensures
        r matches Some((secs, millis, nanos)) ==> secs >= 0 && millis == secs * 1000 + nanos
            / 1_000_000,
{
    match since_epoch() {
        Some((secs, nanos)) => if secs <= MAX_CLOCK_SECS {
            let s = secs as i64;
            Some((s, s * 1000 + (nanos / 1_000_000) as i64, nanos))
        } else {
            None
        },
        None => None,
    }
}

} // verus!
