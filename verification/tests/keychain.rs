use std::collections::HashMap;

use bip39::Mnemonic;
use chia_bls::SecretKey;
use rand::SeedableRng;
use rand_chacha::ChaCha20Rng;
use sage::keychain::encrypt::encrypt;
use sage::keychain::error::KeychainError;
use sage::keychain::key_data::{KeyData, LegacyKeyData};
use sage::keychain::Keychain;

fn secret_key(seed: u8) -> SecretKey {
    SecretKey::from_seed(&[seed; 32])
}

#[test]
fn added_secret_key_comes_back() {
    let mut keychain = Keychain::default();
    let sk = secret_key(1);
    let fingerprint = keychain.add_secret_key(&sk.to_bytes(), b"pw").unwrap();
    assert_eq!(fingerprint, sk.public_key().get_fingerprint());
    assert!(keychain.contains(fingerprint));
    assert!(keychain.has_secret_key(fingerprint));
    assert!(keychain.is_password_protected(fingerprint));

    let (mnemonic, extracted) = keychain.try_extract_secrets(fingerprint, b"pw").unwrap().unwrap();
    assert!(mnemonic.is_none());
    assert_eq!(extracted, Some(sk.to_bytes()));

    let (mnemonic, extracted) = keychain.extract_secrets(fingerprint, b"pw").unwrap();
    assert!(mnemonic.is_none());
    assert_eq!(extracted, Some(sk.to_bytes()));
}

#[test]
fn added_mnemonic_comes_back() {
    let mut keychain = Keychain::default();
    let entropy = [7u8; 16];
    let fingerprint = keychain.add_mnemonic(&entropy, b"").unwrap();

    let mnemonic = Mnemonic::from_entropy(&entropy).unwrap();
    let sk = SecretKey::from_seed(&mnemonic.to_seed(""));
    assert_eq!(fingerprint, sk.public_key().get_fingerprint());
    assert!(!keychain.is_password_protected(fingerprint));

    let (m, extracted) = keychain.try_extract_secrets(fingerprint, b"").unwrap().unwrap();
    assert_eq!(m, Some(entropy.to_vec()));
    assert_eq!(extracted, Some(sk.to_bytes()));
}

#[test]
fn wrong_password_does_not_extract() {
    let mut keychain = Keychain::default();
    let fingerprint = keychain.add_secret_key(&secret_key(2).to_bytes(), b"right").unwrap();
    let result = keychain.try_extract_secrets(fingerprint, b"wrong").unwrap();
    assert!(matches!(result, Err(KeychainError::Decrypt)));
}

#[test]
fn duplicate_key_is_refused_and_keychain_unchanged() {
    let mut keychain = Keychain::default();
    let sk = secret_key(3);
    let fingerprint = keychain.add_secret_key(&sk.to_bytes(), b"").unwrap();
    assert!(matches!(keychain.add_secret_key(&sk.to_bytes(), b"other"), Err(KeychainError::KeyExists)));
    assert!(matches!(
        keychain.add_public_key(&sk.public_key().to_bytes()),
        Err(KeychainError::KeyExists)
    ));
    assert_eq!(keychain.fingerprints(), vec![fingerprint]);
    assert!(!keychain.is_password_protected(fingerprint));
}

#[test]
fn public_key_is_watch_only() {
    let mut keychain = Keychain::default();
    let pk = secret_key(4).public_key();
    let fingerprint = keychain.add_public_key(&pk.to_bytes()).unwrap();
    assert_eq!(fingerprint, pk.get_fingerprint());
    assert!(keychain.contains(fingerprint));
    assert!(!keychain.has_secret_key(fingerprint));
    assert_eq!(keychain.extract_public_key(fingerprint).unwrap(), Some(pk.to_bytes()));
    let (m, sk) = keychain.try_extract_secrets(fingerprint, b"").unwrap().unwrap();
    assert!(m.is_none() && sk.is_none());
}

#[test]
fn invalid_public_key_is_refused() {
    let mut keychain = Keychain::default();
    assert!(matches!(keychain.add_public_key(&[0u8; 48]), Err(KeychainError::Bls(_))));
    assert!(keychain.fingerprints().is_empty());
}

#[test]
fn invalid_secret_key_is_refused() {
    let mut keychain = Keychain::default();
    assert!(matches!(keychain.add_secret_key(&[0xffu8; 32], b""), Err(KeychainError::Bls(_))));
}

#[test]
fn invalid_entropy_is_refused() {
    let mut keychain = Keychain::default();
    assert!(matches!(keychain.add_mnemonic(&[1u8; 15], b""), Err(KeychainError::Bip39(_))));
}

#[test]
fn remove_undoes_add() {
    let mut keychain = Keychain::default();
    let fingerprint = keychain.add_secret_key(&secret_key(5).to_bytes(), b"pw").unwrap();
    assert!(keychain.remove(fingerprint));
    assert!(!keychain.contains(fingerprint));
    assert!(!keychain.remove(fingerprint));
    assert!(keychain.fingerprints().is_empty());
}

#[test]
fn missing_key_has_nothing() {
    let keychain = Keychain::default();
    assert!(!keychain.contains(1));
    assert!(!keychain.has_secret_key(1));
    assert_eq!(keychain.extract_public_key(1).unwrap(), None);
    let (m, sk) = keychain.extract_secrets(1, b"").unwrap();
    assert!(m.is_none() && sk.is_none());
}

#[test]
fn vault_has_no_public_key() {
    let mut keys = HashMap::new();
    keys.insert(9, KeyData::Vault { launcher_id: [1; 32] });
    let keychain = Keychain::from_keys(keys);
    assert_eq!(keychain.extract_public_key(9).unwrap(), None);
    assert!(!keychain.has_secret_key(9));
}

#[test]
fn secret_key_payload_of_wrong_size_is_not_extracted() {
    let mut rng = ChaCha20Rng::seed_from_u64(1);
    let encrypted = encrypt(b"pw", &mut rng, &[1, 2, 3]).unwrap();
    let mut keys = HashMap::new();
    keys.insert(
        5,
        KeyData::Secret {
            master_pk: secret_key(6).public_key().to_bytes(),
            entropy: false,
            encrypted,
            password_protected: true,
        },
    );
    let keychain = Keychain::from_keys(keys);
    assert!(keychain.try_extract_secrets(5, b"pw").is_none());
    assert!(matches!(keychain.try_extract_secrets(5, b"nope"), Some(Err(KeychainError::Decrypt))));
}

#[test]
fn legacy_keys_are_upgraded() {
    let mut rng = ChaCha20Rng::seed_from_u64(2);
    let sk = secret_key(8);
    let encrypted = encrypt(b"", &mut rng, &sk.to_bytes()).unwrap();
    let mut legacy = HashMap::new();
    legacy.insert(1, LegacyKeyData::Public { master_pk: sk.public_key().to_bytes() });
    legacy.insert(
        2,
        LegacyKeyData::Secret { master_pk: sk.public_key().to_bytes(), entropy: false, encrypted },
    );
    let keychain = Keychain::from_legacy_keys(legacy);
    let mut fingerprints = keychain.fingerprints();
    fingerprints.sort();
    assert_eq!(fingerprints, vec![1, 2]);
    assert!(!keychain.has_secret_key(1));
    assert!(keychain.has_secret_key(2));
    assert!(!keychain.is_password_protected(2));
    let (_, extracted) = keychain.extract_secrets(2, b"").unwrap();
    assert_eq!(extracted, Some(sk.to_bytes()));
}
