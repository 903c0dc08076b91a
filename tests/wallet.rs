use soldrip::wallet::{generate_wallet, get_address, restore_keypair, wallet_from_secret, KeyError, WalletStatus};

fn rfc8032_secret() -> [u8; 32] {
    let bytes = hex::decode("9d61b19deffd5a60ba844af492ec2cc44449c5697b326919703bac031cae7f60").unwrap();
    let mut secret = [0u8; 32];
    secret.copy_from_slice(&bytes);
    secret
}

#[test]
fn test_wallet_generation() {
    let wallet = generate_wallet().unwrap();
    assert!(!wallet.address.is_empty());
    assert!(!wallet.private_key.is_empty());
    assert_eq!(wallet.status.as_text(), "pending");
    assert_eq!(wallet.balance, 0);
}

#[test]
fn test_keypair_restore() {
    let wallet = generate_wallet().unwrap();
    let signing_key = restore_keypair(&wallet.private_key).unwrap();
    let address = bs58::encode(signing_key.public_key_bytes()).into_string();
    assert_eq!(address, wallet.address);
}

#[test]
fn restore_round_trip_for_many_generated_wallets() {
    for _ in 0..50 {
        let wallet = generate_wallet().unwrap();
        assert_eq!(get_address(&wallet.private_key).unwrap(), wallet.address);
        assert_eq!(wallet.status, WalletStatus::Pending);
        assert!(wallet.last_claim.is_none());
    }
}

#[test]
fn wallet_from_known_secret_has_known_address() {
    let w = wallet_from_secret(rfc8032_secret(), "2024-01-01T00:00:00+00:00".to_string());
    let public = hex::decode("d75a980182b10ab7d54bfed3c964073a0ee172f3daa62325af021a68f707511a").unwrap();
    assert_eq!(w.address, bs58::encode(&public).into_string());
    let mut full = rfc8032_secret().to_vec();
    full.extend_from_slice(&public);
    assert_eq!(w.private_key, bs58::encode(&full).into_string());
    assert_eq!(w.created_at, "2024-01-01T00:00:00+00:00");
    assert_eq!(w.balance, 0);
}

#[test]
fn restore_accepts_legacy_secret_only_material() {
    let material = bs58::encode(rfc8032_secret()).into_string();
    let k = restore_keypair(&material).unwrap();
    assert_eq!(k.secret, rfc8032_secret());
    let w = wallet_from_secret(rfc8032_secret(), String::new());
    assert_eq!(get_address(&material).unwrap(), w.address);
}

#[test]
fn restore_rejects_invalid_base58() {
    assert_eq!(restore_keypair("0OIl").unwrap_err(), KeyError::InvalidEncoding);
}

#[test]
fn restore_rejects_wrong_length() {
    let material = bs58::encode([7u8; 10]).into_string();
    assert_eq!(restore_keypair(&material).unwrap_err(), KeyError::InvalidLength(10));
    assert_eq!(get_address(&material).unwrap_err(), KeyError::InvalidLength(10));
}

#[test]
fn status_text_round_trip() {
    assert_eq!(WalletStatus::from_text("connected"), WalletStatus::Connected);
    assert_eq!(WalletStatus::from_text("failed"), WalletStatus::Failed);
    assert_eq!(WalletStatus::from_text("pending"), WalletStatus::Pending);
    assert_eq!(WalletStatus::from_text("whatever"), WalletStatus::Pending);
    assert_eq!(WalletStatus::Connected.as_text(), "connected");
}
