use rand_chacha::ChaCha20Rng;
use vstd::prelude::*;

use crate::keychain::crypto::{
    aes_decrypt, aes_encrypt, aes_gcm_open, aes_gcm_seal, argon2_key, bincode_bytes,
    bincode_bytes_decode, bincode_decode_bytes, bincode_encode_bytes, encryption_key,
    lemma_bincode_bytes_round_trip, random_nonce, random_salt, AES_GCM_MAX_PLAINTEXT_LEN,
    ARGON2_MAX_PASSWORD_LEN, NONCE_LEN,
};
use crate::keychain::error::KeychainError;

verus! {

/// Secret data sealed with AES-256-GCM under a key that Argon2 derives from a
/// password and the salt.
#[derive(Debug, Clone)]
pub struct Encrypted {
    pub ciphertext: Vec<u8>,
    pub nonce: Vec<u8>,
    pub salt: [u8; 32],
}

impl Encrypted {
    /// The AES key that `password` derives for this salt.
    pub open spec fn key_for(&self, password: Seq<u8>) -> Seq<u8> {
        argon2_key(password, self.salt@)
    }

    /// This value is `data`, encoded with bincode and sealed under the key that
    /// `password` derives.
    pub open spec fn seals(&self, password: Seq<u8>, data: Seq<u8>) -> bool {
        &&& self.nonce@.len() == NONCE_LEN
        &&& self.ciphertext@ == aes_gcm_seal(self.key_for(password), self.nonce@, bincode_bytes(data))
    }

    /// `e` is the error that decrypting this value with `password` reports:
    /// Argon2's for a password it refuses, `Decrypt` where the tag does not
    /// verify, bincode's where the plaintext is no encoded byte string.
    pub open spec fn decrypt_error(&self, password: Seq<u8>, e: KeychainError) -> bool {
        if password.len() > ARGON2_MAX_PASSWORD_LEN {
            e is Argon2
        } else {
            match aes_gcm_open(self.key_for(password), self.nonce@, self.ciphertext@) {
                None => e is Decrypt,
                Some(p) => bincode_bytes_decode(p) is None && e is Bincode,
            }
        }
    }

    /// What decrypting this value with `password` yields, where it succeeds.
    pub open spec fn opened_with(&self, password: Seq<u8>) -> Option<Seq<u8>> {
        if password.len() > ARGON2_MAX_PASSWORD_LEN {
            None
        } else {
            match aes_gcm_open(self.key_for(password), self.nonce@, self.ciphertext@) {
                Some(p) => bincode_bytes_decode(p),
                None => None,
            }
        }
    }
}

/// Data that `encrypt` accepts: its encoding fits in one AES-GCM message.
pub open spec fn encryptable(password: Seq<u8>, data: Seq<u8>) -> bool {
    &&& password.len() <= ARGON2_MAX_PASSWORD_LEN
    &&& data.len() + 8 <= AES_GCM_MAX_PLAINTEXT_LEN
}

/// Encrypts `data` with `password`: draws a salt, derives the key with Argon2,
/// draws a nonce, encodes the data with bincode and seals it with AES-256-GCM.
pub fn encrypt(password: &[u8], rng: &mut ChaCha20Rng, data: &[u8]) -> (r: Result<Encrypted, KeychainError>)
    ensures
        r is Ok <==> encryptable(password@, data@),
        match r {
            Ok(e) => e.seals(password@, data@),
            Err(KeychainError::Argon2(_)) => password@.len() > ARGON2_MAX_PASSWORD_LEN,
            Err(KeychainError::Encrypt) => password@.len() <= ARGON2_MAX_PASSWORD_LEN
                && data@.len() + 8 > AES_GCM_MAX_PLAINTEXT_LEN,
            Err(_) => false,
        },
{
    let salt = random_salt(rng);
    let key = match encryption_key(password, &salt) {
        Ok(k) => k,
        Err(e) => return Err(KeychainError::Argon2(e)),
    };
    let nonce = random_nonce(rng);
    let encoded = match bincode_encode_bytes(data) {
        Ok(d) => d,
        Err(e) => return Err(KeychainError::Bincode(e)),
    };
    assert(encoded@.len() == data@.len() + 8) by {
        vstd::bytes::lemma_auto_spec_u64_to_from_le_bytes();
    }
    let ciphertext = match aes_encrypt(&key, nonce.as_slice(), encoded.as_slice()) {
        Ok(c) => c,
        Err(_) => return Err(KeychainError::Encrypt),
    };
    Ok(Encrypted { ciphertext, nonce, salt })
}

/// Decrypts `encrypted` with `password` and decodes the bincode-encoded bytes.
/// What `encrypt` produced from some data with the same password decrypts to
/// that data.
pub fn decrypt(encrypted: &Encrypted, password: &[u8]) -> (r: Result<Vec<u8>, KeychainError>)
    requires
        encrypted.nonce@.len() == NONCE_LEN,
    ensures
        password@.len() > ARGON2_MAX_PASSWORD_LEN ==> r matches Err(KeychainError::Argon2(_)),
        password@.len() <= ARGON2_MAX_PASSWORD_LEN ==> match aes_gcm_open(
            encrypted.key_for(password@),
            encrypted.nonce@,
            encrypted.ciphertext@,
        ) {
            None => r matches Err(KeychainError::Decrypt),
            Some(p) => match bincode_bytes_decode(p) {
                None => r matches Err(KeychainError::Bincode(_)),
                Some(d) => r matches Ok(v) && v@ == d,
            },
        },
        r is Ok <==> encrypted.opened_with(password@) is Some,
        r matches Ok(v) ==> encrypted.opened_with(password@) == Some(v@),
        r matches Err(e) ==> encrypted.decrypt_error(password@, e),
        forall|data: Seq<u8>|
            encrypted.seals(password@, data) && #[trigger] encryptable(password@, data)
                ==> (r matches Ok(v) && v@ == data),
{
    let key = match encryption_key(password, &encrypted.salt) {
        Ok(k) => k,
        Err(e) => return Err(KeychainError::Argon2(e)),
    };
    let opened = aes_decrypt(&key, encrypted.nonce.as_slice(), encrypted.ciphertext.as_slice());
    proof {
        assert forall|data: Seq<u8>|
            encrypted.seals(password@, data) && #[trigger] encryptable(password@, data)
            implies aes_gcm_open(key@, encrypted.nonce@, encrypted.ciphertext@) == Some(bincode_bytes(data))
        by {
            vstd::bytes::lemma_auto_spec_u64_to_from_le_bytes();
            assert(bincode_bytes(data).len() == data.len() + 8);
            assert(aes_gcm_seal(key@, encrypted.nonce@, bincode_bytes(data)) == encrypted.ciphertext@);
            lemma_bincode_bytes_round_trip(data);
        }
    }
    let plain = match opened {
        Ok(p) => p,
        Err(_) => return Err(KeychainError::Decrypt),
    };
    proof {
        assert forall|data: Seq<u8>|
            encrypted.seals(password@, data) && #[trigger] encryptable(password@, data)
            implies bincode_bytes_decode(plain@) == Some(data)
        by {
            lemma_bincode_bytes_round_trip(data);
        }
    }
    match bincode_decode_bytes(plain.as_slice()) {
        Ok(d) => Ok(d),
        Err(e) => Err(KeychainError::Bincode(e)),
    }
}

} // verus!
