//! Calls into the cryptography and encoding crates that the keychain relies on.
//! Each function here is trusted: Verus believes its contract without reading
//! its body.

use aes_gcm::aead::{Aead, AeadCore, KeyInit};
use aes_gcm::{Aes256Gcm, Key, Nonce};
use argon2::Argon2;
use rand::{Rng, SeedableRng};
use rand_chacha::ChaCha20Rng;
use vstd::prelude::*;

verus! {

/// The random number generator that the keychain draws salts and nonces from.
#[verifier::external_type_specification]
#[verifier::external_body]
pub struct ExChaCha20Rng(rand_chacha::ChaCha20Rng);

/// The error that Argon2 key derivation reports.
#[verifier::external_type_specification]
#[verifier::external_body]
pub struct ExArgon2Error(argon2::Error);

/// The error that AES-GCM reports (an opaque unit error).
#[verifier::external_type_specification]
#[verifier::external_body]
pub struct ExAeadError(aes_gcm::Error);

/// The error kind of bincode; `bincode::Error` is a box of it.
#[verifier::external_type_specification]
#[verifier::external_body]
pub struct ExBincodeErrorKind(bincode::ErrorKind);

/// Longest password that Argon2 accepts (`argon2::MAX_PWD_LEN`).
pub const ARGON2_MAX_PASSWORD_LEN: usize = 0xFFFF_FFFF;

/// Longest plaintext that AES-GCM encrypts (`aes_gcm::P_MAX`, 2^36 bytes).
pub const AES_GCM_MAX_PLAINTEXT_LEN: u64 = 0x10_0000_0000;

/// Length of an AES-GCM nonce in bytes.
pub const NONCE_LEN: usize = 12;

/// The 32-byte key that Argon2id with its default parameters (19 MiB,
/// 2 passes, 1 lane) derives from a password and a salt.
pub uninterp spec fn argon2_key(password: Seq<u8>, salt: Seq<u8>) -> Seq<u8>;

/// The ciphertext (with its 16-byte tag appended) that AES-256-GCM produces
/// from a key, a nonce and a plaintext, with no associated data.
pub uninterp spec fn aes_gcm_seal(key: Seq<u8>, nonce: Seq<u8>, plaintext: Seq<u8>) -> Seq<u8>;

/// What AES-256-GCM decryption of a ciphertext under a key and a nonce gives
/// back, with no associated data: `None` where the tag does not verify.
pub uninterp spec fn aes_gcm_open(key: Seq<u8>, nonce: Seq<u8>, ciphertext: Seq<u8>) -> Option<Seq<u8>>;

/// Every plaintext that AES-GCM accepts and that seals under `key` and `nonce`
/// to `ciphertext` is what `opened`, the decryption of `ciphertext`, holds.
pub open spec fn recovers_sealed_plaintext(
    key: Seq<u8>,
    nonce: Seq<u8>,
    ciphertext: Seq<u8>,
    opened: Result<Vec<u8>, aes_gcm::Error>,
) -> bool {
    forall|p: Seq<u8>|
        p.len() <= AES_GCM_MAX_PLAINTEXT_LEN && #[trigger] aes_gcm_seal(key, nonce, p) == ciphertext
            ==> (opened matches Ok(q) && q@ == p)
}

/// Bincode's encoding of a byte string: its length as a little-endian `u64`,
/// then the bytes.
pub open spec fn bincode_bytes(data: Seq<u8>) -> Seq<u8> {
    vstd::bytes::spec_u64_to_le_bytes(data.len() as u64) + data
}

/// Bincode's decoding of a byte string at the front of `encoded`; trailing
/// bytes are allowed.
pub open spec fn bincode_bytes_decode(encoded: Seq<u8>) -> Option<Seq<u8>> {
    if encoded.len() >= 8 && vstd::bytes::spec_u64_from_le_bytes(encoded.take(8)) <= encoded.len() - 8 {
        Some(encoded.subrange(8, 8 + vstd::bytes::spec_u64_from_le_bytes(encoded.take(8))))
    } else {
        None
    }
}

/// Decoding an encoded byte string gives the bytes back.
pub proof fn lemma_bincode_bytes_round_trip(data: Seq<u8>)
    requires
        data.len() <= u64::MAX,
    ensures
        bincode_bytes_decode(bincode_bytes(data)) == Some(data),
{
    vstd::bytes::lemma_auto_spec_u64_to_from_le_bytes();
    let e = bincode_bytes(data);
    assert(e.take(8) =~= vstd::bytes::spec_u64_to_le_bytes(data.len() as u64));
    assert(e.subrange(8, 8 + data.len() as int) =~= data);
}

/// A new generator seeded from the operating system (`ChaCha20Rng::from_entropy`).
/// Nothing is stated of the seed. `from_entropy` panics where the operating
/// system cannot supply randomness, which no argument can rule out.
#[verifier::external_body]
pub(crate) fn rng_from_entropy() -> (rng: ChaCha20Rng) {
    ChaCha20Rng::from_entropy()
}

/// A random 32-byte salt drawn with `rand::Rng::gen`. The bytes depend on the
/// generator's hidden state, so nothing is stated of them.
#[verifier::external_body]
pub(crate) fn random_salt(rng: &mut ChaCha20Rng) -> (salt: [u8; 32]) {
    rng.gen()
}

/// A random nonce drawn with `Aes256Gcm::generate_nonce`: 12 bytes, whose
/// values depend on the generator's hidden state and are not stated.
#[verifier::external_body]
pub(crate) fn random_nonce(rng: &mut ChaCha20Rng) -> (nonce: Vec<u8>)
    ensures
        nonce@.len() == NONCE_LEN,
{
    Aes256Gcm::generate_nonce(&mut *rng).to_vec()
}

/// `Argon2::default().hash_password_into` with a 32-byte output: it fails only
/// for a password longer than `argon2::MAX_PWD_LEN` (the salt of 32 bytes and
/// the output of 32 bytes are within its limits), and otherwise yields the
/// derived key.
#[verifier::external_body]
pub(crate) fn encryption_key(password: &[u8], salt: &[u8; 32]) -> (key: Result<[u8; 32], argon2::Error>)
    ensures
        key is Ok <==> password@.len() <= ARGON2_MAX_PASSWORD_LEN,
        key matches Ok(k) ==> k@ == argon2_key(password@, salt@),
{
    let mut key_material = [0u8; 32];
    match Argon2::default().hash_password_into(password, salt, &mut key_material) {
        Ok(()) => Ok(key_material),
        Err(e) => Err(e),
    }
}

/// `Aead::encrypt` of `Aes256Gcm` with no associated data. It fails only for a
/// plaintext longer than 2^36 bytes; otherwise the result is the sealed
/// plaintext. (`Nonce::from_slice` panics unless the nonce has 12 bytes.)
#[verifier::external_body]
pub(crate) fn aes_encrypt(key: &[u8; 32], nonce: &[u8], plaintext: &[u8]) -> (sealed: Result<Vec<u8>, aes_gcm::Error>)
    requires
        nonce@.len() == NONCE_LEN,
    ensures
        sealed is Ok <==> plaintext@.len() <= AES_GCM_MAX_PLAINTEXT_LEN,
        sealed matches Ok(c) ==> c@ == aes_gcm_seal(key@, nonce@, plaintext@),
{
    let cipher = Aes256Gcm::new(Key::<Aes256Gcm>::from_slice(key));
    cipher.encrypt(Nonce::from_slice(nonce), plaintext)
}

/// `Aead::decrypt` of `Aes256Gcm` with no associated data. Its result is the
/// named decryption; and what `aes_encrypt` sealed under the same key and nonce
/// decrypts to the plaintext (AEAD correctness, as the crate documents).
#[verifier::external_body]
pub(crate) fn aes_decrypt(key: &[u8; 32], nonce: &[u8], ciphertext: &[u8]) -> (opened: Result<Vec<u8>, aes_gcm::Error>)
    requires
        nonce@.len() == NONCE_LEN,
    ensures
        opened is Ok <==> aes_gcm_open(key@, nonce@, ciphertext@) is Some,
        opened matches Ok(p) ==> aes_gcm_open(key@, nonce@, ciphertext@) == Some(p@),
        recovers_sealed_plaintext(key@, nonce@, ciphertext@, opened),
{
    let cipher = Aes256Gcm::new(Key::<Aes256Gcm>::from_slice(key));
    cipher.decrypt(Nonce::from_slice(nonce), ciphertext)
}

/// `bincode::serialize` of a byte slice with bincode's default (fixed-width,
/// little-endian, unlimited) options: the length as a `u64`, then the bytes.
/// Writing into a vector with no size limit does not fail.
#[verifier::external_body]
pub(crate) fn bincode_encode_bytes(data: &[u8]) -> (encoded: Result<Vec<u8>, Box<bincode::ErrorKind>>)
    ensures
        encoded is Ok,
        encoded matches Ok(e) ==> e@ == bincode_bytes(data@),
{
    bincode::serialize(data)
}

/// `bincode::deserialize::<Vec<u8>>` with the default options: it reads the
/// length prefix and that many bytes, allowing trailing bytes, and fails where
/// the input is too short.
#[verifier::external_body]
pub(crate) fn bincode_decode_bytes(encoded: &[u8]) -> (decoded: Result<Vec<u8>, Box<bincode::ErrorKind>>)
    ensures
        decoded is Ok <==> bincode_bytes_decode(encoded@) is Some,
        decoded matches Ok(d) ==> bincode_bytes_decode(encoded@) == Some(d@),
{
    bincode::deserialize(encoded)
}

} // verus!
