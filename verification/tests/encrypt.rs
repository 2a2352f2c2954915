use rand::SeedableRng;
use rand_chacha::ChaCha20Rng;
use sage::keychain::encrypt::{decrypt, encrypt};
use sage::keychain::error::KeychainError;

fn seeded_rng(seed: u64) -> ChaCha20Rng {
    ChaCha20Rng::seed_from_u64(seed)
}

#[test]
fn encrypt_decrypt_round_trip() {
    let password = b"test-password";
    let mut rng = seeded_rng(42);
    let data: Vec<u8> = vec![1, 2, 3, 4, 5];

    let encrypted = encrypt(password, &mut rng, &data).unwrap();
    let decrypted: Vec<u8> = decrypt(&encrypted, password).unwrap();

    assert_eq!(data, decrypted);
}

#[test]
fn wrong_password_fails() {
    let mut rng = seeded_rng(42);
    let data: Vec<u8> = vec![10, 20, 30];

    let encrypted = encrypt(b"correct", &mut rng, &data).unwrap();
    let result = decrypt(&encrypted, b"wrong");

    assert!(result.is_err());
    assert!(matches!(result.unwrap_err(), KeychainError::Decrypt));
}

#[test]
fn different_seeds_produce_different_salts() {
    let data: Vec<u8> = vec![1, 2, 3];

    let mut rng1 = seeded_rng(1);
    let mut rng2 = seeded_rng(2);

    let enc1 = encrypt(b"pass", &mut rng1, &data).unwrap();
    let enc2 = encrypt(b"pass", &mut rng2, &data).unwrap();

    assert_ne!(enc1.salt, enc2.salt);
}

#[test]
fn empty_data_round_trip() {
    let mut rng = seeded_rng(99);
    let data: Vec<u8> = vec![];

    let encrypted = encrypt(b"pass", &mut rng, &data).unwrap();
    let decrypted: Vec<u8> = decrypt(&encrypted, b"pass").unwrap();

    assert_eq!(data, decrypted);
}

#[test]
fn tampered_ciphertext_fails() {
    let mut rng = seeded_rng(42);
    let data: Vec<u8> = vec![1, 2, 3];

    let mut encrypted = encrypt(b"pass", &mut rng, &data).unwrap();

    if let Some(byte) = encrypted.ciphertext.first_mut() {
        *byte ^= 0xFF;
    }

    let result = decrypt(&encrypted, b"pass");
    assert!(result.is_err());
    assert!(matches!(result.unwrap_err(), KeychainError::Decrypt));
}

#[test]
fn tampered_nonce_fails() {
    let mut rng = seeded_rng(42);
    let data: Vec<u8> = vec![1, 2, 3];

    let mut encrypted = encrypt(b"pass", &mut rng, &data).unwrap();

    if let Some(byte) = encrypted.nonce.first_mut() {
        *byte ^= 0xFF;
    }

    let result = decrypt(&encrypted, b"pass");
    assert!(result.is_err());
    assert!(matches!(result.unwrap_err(), KeychainError::Decrypt));
}

#[test]
fn ciphertext_holds_encoded_data_and_tag() {
    let mut rng = seeded_rng(7);
    let data: Vec<u8> = vec![9; 10];
    let encrypted = encrypt(b"pw", &mut rng, &data).unwrap();
    assert_eq!(encrypted.nonce.len(), 12);
    assert_eq!(encrypted.ciphertext.len(), 8 + 10 + 16);
    assert_ne!(&encrypted.ciphertext[8..18], &data[..]);
}

#[test]
fn same_seed_same_encryption() {
    let data: Vec<u8> = vec![5, 6, 7];
    let a = encrypt(b"pw", &mut seeded_rng(3), &data).unwrap();
    let b = encrypt(b"pw", &mut seeded_rng(3), &data).unwrap();
    assert_eq!(a.salt, b.salt);
    assert_eq!(a.nonce, b.nonce);
    assert_eq!(a.ciphertext, b.ciphertext);
}
