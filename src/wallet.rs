//! Wallet records and their Ed25519 key material.

use vstd::prelude::*;
use crate::codec::{
    base58_decode, base58_decoded, base58_encode, copy_bytes, base58_of, ed25519_public_of, now, rfc3339_at, rfc3339_of,
    os_random_bytes, public_key_of,
};

verus! {

/// Lamports in one SOL: balances are kept as whole lamports.
pub const LAMPORTS_PER_SOL: u64 = 1_000_000_000;

/// Where a wallet stands with the remote service.
#[derive(Clone, Copy, Debug, PartialEq, Eq, Structural)]
pub enum WalletStatus {
    Pending,
    Connected,
    Failed,
}

/// Why key material could not be made, restored or used.
#[derive(Clone, Copy, Debug, PartialEq, Eq, Structural)]
pub enum KeyError {
    /// The text is not valid Base58.
    InvalidEncoding,
    /// The decoded key is neither 32 nor 64 bytes long; holds the length found.
    InvalidLength(usize),
    /// The secure random source could not supply fresh bytes.
    RandomSourceUnavailable,
    /// The system clock reads before the Unix epoch or out of range.
    ClockUnavailable,
}

/// One identity and its ledger entry.
#[derive(Clone, Debug)]
pub struct Wallet {
    /// Base58 text of the public key.
    pub address: String,
    /// Base58 text of the 64 bytes secret key followed by public key.
    pub private_key: String,
    pub status: WalletStatus,
    /// Total claimed, in lamports.
    pub balance: u64,
    pub created_at: String,
    pub last_claim: Option<String>,
}

/// An Ed25519 signing key, held as its 32 secret bytes.
#[derive(Clone, Copy, Debug)]
pub struct Keypair {
    pub secret: [u8; 32],
}

/// The address of the wallet whose secret key is `secret`.
pub open spec fn address_of(secret: Seq<u8>) -> Seq<char> {
    base58_of(ed25519_public_of(secret))
}

/// The combined key material of a secret key: Base58 of secret bytes then public bytes.
pub open spec fn key_material_of(secret: Seq<u8>) -> Seq<char> {
    base58_of(secret + ed25519_public_of(secret))
}

/// Key material that restores to `secret`: Base58 of a 64-byte combined key
/// or of a 32-byte legacy key whose first 32 bytes are `secret`.
pub open spec fn encodes_secret(material: Seq<char>, key: Seq<u8>, secret: Seq<u8>) -> bool {
    &&& key.len() == 64 || key.len() == 32
    &&& key.take(32) == secret
    &&& base58_of(key) == material
}

/// The secret key that key material restores to: the first 32 bytes of a
/// 64-byte combined key, or a 32-byte secret key as it stands.
pub open spec fn restored_secret(material: Seq<char>) -> Option<Seq<u8>> {
    match base58_decoded(material) {
        Some(b) => if b.len() == 64 || b.len() == 32 {
            Some(b.take(32))
        } else {
            None
        },
        None => None,
    }
}

/// The error that restoring `material` gives, where it fails.
pub open spec fn restore_error(material: Seq<char>) -> KeyError {
    match base58_decoded(material) {
        Some(b) => KeyError::InvalidLength(b.len() as usize),
        None => KeyError::InvalidEncoding,
    }
}

impl WalletStatus {
    pub open spec fn text(self) -> Seq<char> {
        match self {
            WalletStatus::Pending => "pending"@,
            WalletStatus::Connected => "connected"@,
            WalletStatus::Failed => "failed"@,
        }
    }

    /// The status's lower-case name, as the record store writes it.
    pub fn as_text(&self) -> (r: &'static str)
        ensures
            r@ == self.text(),
    {
        match self {
            WalletStatus::Pending => "pending",
            WalletStatus::Connected => "connected",
            WalletStatus::Failed => "failed",
        }
    }

    /// Reads a stored status name; any other text reads as `Pending`.
    pub fn from_text(s: &str) -> (r: WalletStatus)
        ensures
            s@ == "connected"@ ==> r == WalletStatus::Connected,
            s@ == "failed"@ ==> r == WalletStatus::Failed,
            s@ != "connected"@ && s@ != "failed"@ ==> r == WalletStatus::Pending,
    {
        proof {
            reveal_strlit("connected");
            reveal_strlit("failed");
            assert("connected"@[0] != "failed"@[0]);
        }
        let owned = s.to_owned();
        if owned == "connected".to_owned() {
            WalletStatus::Connected
        } else if owned == "failed".to_owned() {
            WalletStatus::Failed
        } else {
            WalletStatus::Pending
        }
    }
}

/// The wallet record of a fresh secret key: Base58 address of its public
/// key, combined key material, `Pending`, zero balance.
pub fn wallet_from_secret(secret: [u8; 32], created_at: String) -> (w: Wallet)
    ensures
        w.address@ == address_of(secret@),
        w.private_key@ == key_material_of(secret@),
        ed25519_public_of(secret@).len() == 32,
        w.status == WalletStatus::Pending,
        w.balance == 0,
        w.created_at@ == created_at@,
        w.last_claim is None,
{
    let public = public_key_of(&secret);
    let address = base58_encode(&public);
    let mut full: Vec<u8> = Vec::new();
    copy_bytes(&mut full, &secret);
    copy_bytes(&mut full, &public);
    let private_key = base58_encode(full.as_slice());
    Wallet {
        address,
        private_key,
        status: WalletStatus::Pending,
        balance: 0,
        created_at,
        last_claim: None,
    }
}

/// Creates a wallet from a secret key drawn from the operating system's
/// secure random source, stamped with the current time in RFC 3339. Fails
/// only where that source or the clock is unavailable.
pub fn generate_wallet() -> (r: Result<Wallet, KeyError>)
    ensures
        r is Err ==> r == Err::<Wallet, KeyError>(KeyError::RandomSourceUnavailable) || r == Err::<
            Wallet,
            KeyError,
        >(KeyError::ClockUnavailable),
        r matches Ok(w) ==> exists|secret: Seq<u8>|
            secret.len() == 32 && ed25519_public_of(secret).len() == 32 && w.address@
                == address_of(secret) && w.private_key@ == key_material_of(secret),
        r matches Ok(w) ==> exists|secs: int, nanos: int|
            rfc3339_of(secs, nanos) == Some(w.created_at@),
        r matches Ok(w) ==> w.status == WalletStatus::Pending && w.balance == 0
            && w.last_claim is None,
{
    let secret = match os_random_bytes() {
        Some(secret) => secret,
        None => return Err(KeyError::RandomSourceUnavailable),
    };
    let (secs, _millis, nanos) = match now() {
        Some(t) => t,
        None => return Err(KeyError::ClockUnavailable),
    };
    match rfc3339_at(secs, nanos) {
        Some(created_at) => Ok(wallet_from_secret(secret, created_at)),
        None => Err(KeyError::ClockUnavailable),
    }
}

impl Wallet {
    /// A copy of this record.
    pub fn duplicate(&self) -> (r: Wallet)
        ensures
            r == *self,
    {
        Wallet {
            address: self.address.clone(),
            private_key: self.private_key.clone(),
            status: self.status,
            balance: self.balance,
            created_at: self.created_at.clone(),
            last_claim: match &self.last_claim {
                Some(t) => Some(t.clone()),
                None => None,
            },
        }
    }
}

impl Keypair {
    /// The public key that belongs to this secret key.
    pub fn public_key_bytes(&self) -> (r: [u8; 32])
        ensures
            r@ == ed25519_public_of(self.secret@),
    {
        public_key_of(&self.secret)
    }
}

/// Restores a keypair from Base58 key material: 64 bytes (secret then
/// public) or the legacy 32-byte secret alone.
pub fn restore_keypair(private_key: &str) -> (r: Result<Keypair, KeyError>)
    ensures
        match r {
            Ok(k) => restored_secret(private_key@) == Some(k.secret@),
            Err(e) => restored_secret(private_key@) is None && e == restore_error(private_key@),
        },
        forall|key: Seq<u8>, secret: Seq<u8>|
            #[trigger] encodes_secret(private_key@, key, secret) ==> (r is Ok && r->Ok_0.secret@
                == secret),
{
    let decoded = base58_decode(private_key);
    match decoded {
        None => Err(KeyError::InvalidEncoding),
        Some(bytes) => {
            let n = bytes.len();
            if n == 64 || n == 32 {
                let mut secret = [0u8; 32];
                let mut i: usize = 0;
                while i < 32
                    invariant
                        bytes@.len() == n,
                        n >= 32,
                        i <= 32,
                        forall|j: int| 0 <= j < i ==> secret@[j] == bytes@[j],
                    decreases 32 - i,
                {
                    secret[i] = bytes[i];
                    i = i + 1;
                }
                assert(secret@ =~= bytes@.take(32));
                Ok(Keypair { secret })
            } else {
                Err(KeyError::InvalidLength(n))
            }
        },
    }
}

/// The address that key material belongs to.
pub fn get_address(private_key: &str) -> (r: Result<String, KeyError>)
    ensures
        match r {
            Ok(a) => exists|s: Seq<u8>|
                restored_secret(private_key@) == Some(s) && a@ == address_of(s),
            Err(e) => restored_secret(private_key@) is None && e == restore_error(private_key@),
        },
        forall|key: Seq<u8>, secret: Seq<u8>|
            #[trigger] encodes_secret(private_key@, key, secret) ==> (r is Ok && r->Ok_0@
                == address_of(secret)),
{
    let k = restore_keypair(private_key)?;
    let public = k.public_key_bytes();
    let address = base58_encode(&public);
    assert(restored_secret(private_key@) == Some(k.secret@) && address@ == address_of(k.secret@));
    Ok(address)
}

} // verus!
