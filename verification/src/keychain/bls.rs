//! Calls into the BLS key crate (`chia-bls`) and the BIP-39 mnemonic crate
//! (`bip39`). Keys are held as their canonical byte encodings: a public key as
//! its 48-byte compressed point, a secret key as its 32-byte big-endian scalar,
//! a mnemonic as its entropy. Each function here is trusted: Verus believes its
//! contract without reading its body.

use bip39::Mnemonic;
use chia_bls::{PublicKey, SecretKey, Signature};
use vstd::prelude::*;

verus! {

/// The error of the BLS key crate.
#[verifier::external_type_specification]
#[verifier::external_body]
pub struct ExBlsError(chia_bls::Error);

/// The error of the BIP-39 crate.
#[verifier::external_type_specification]
#[verifier::external_body]
pub struct ExBip39Error(bip39::Error);

/// `PublicKey::from_bytes` accepts these 48 bytes (a canonical point of G1).
pub uninterp spec fn public_key_valid(bytes: Seq<u8>) -> bool;

/// `Signature::from_bytes` accepts these 96 bytes (a valid point of G2).
pub uninterp spec fn signature_valid(bytes: Seq<u8>) -> bool;

/// `PublicKey::get_fingerprint` of the key whose encoding is `bytes`.
pub uninterp spec fn public_key_fingerprint(bytes: Seq<u8>) -> u32;

/// `SecretKey::from_bytes` accepts these 32 bytes (a scalar below the group order).
pub uninterp spec fn secret_key_valid(bytes: Seq<u8>) -> bool;

/// `SecretKey::public_key`, as bytes, of the secret key whose encoding is `bytes`.
pub uninterp spec fn public_key_of_secret(bytes: Seq<u8>) -> Seq<u8>;

/// `SecretKey::from_seed`, as bytes, for a seed of at least 32 bytes.
pub uninterp spec fn secret_key_of_seed(seed: Seq<u8>) -> Seq<u8>;

/// `Mnemonic::to_seed("")` of the mnemonic that encodes `entropy`.
pub uninterp spec fn mnemonic_seed(entropy: Seq<u8>) -> Seq<u8>;

/// Entropy lengths that `Mnemonic::from_entropy` accepts: a multiple of 32
/// bits from 128 to 256 bits.
pub open spec fn valid_entropy_len(len: nat) -> bool {
    len == 16 || len == 20 || len == 24 || len == 28 || len == 32
}

/// `PublicKey::from_bytes`: fails exactly for bytes that are not a valid
/// public key. The parsed key is dropped; the caller keeps the bytes.
#[verifier::external_body]
pub(crate) fn public_key_check(bytes: &[u8; 48]) -> (checked: Result<(), chia_bls::Error>)
    ensures
        checked is Ok <==> public_key_valid(bytes@),
{
    match PublicKey::from_bytes(bytes) {
        Ok(_) => Ok(()),
        Err(e) => Err(e),
    }
}

/// `Signature::from_bytes`: fails exactly for bytes that are not a valid
/// signature. The parsed signature is dropped; the caller keeps the bytes.
#[verifier::external_body]
pub(crate) fn signature_check(bytes: &[u8; 96]) -> (checked: Result<(), chia_bls::Error>)
    ensures
        checked is Ok <==> signature_valid(bytes@),
{
    match Signature::from_bytes(bytes) {
        Ok(_) => Ok(()),
        Err(e) => Err(e),
    }
}

/// `SecretKey::from_bytes`: fails exactly for bytes that are not a valid
/// secret key (a nonzero scalar not below the group order). `to_bytes` of the
/// parsed key gives these bytes back, so the caller keeps the bytes.
#[verifier::external_body]
pub(crate) fn secret_key_check(bytes: &[u8; 32]) -> (checked: Result<(), chia_bls::Error>)
    ensures
        checked is Ok <==> secret_key_valid(bytes@),
{
    match SecretKey::from_bytes(bytes) {
        Ok(_) => Ok(()),
        Err(e) => Err(e),
    }
}

/// `PublicKey::from_bytes`, then `get_fingerprint`: fails exactly for bytes
/// that are not a valid public key.
#[verifier::external_body]
pub(crate) fn public_key_fingerprint_of(bytes: &[u8; 48]) -> (fingerprint: Result<u32, chia_bls::Error>)
    ensures
        fingerprint is Ok <==> public_key_valid(bytes@),
        fingerprint matches Ok(f) ==> f == public_key_fingerprint(bytes@),
{
    match PublicKey::from_bytes(bytes) {
        Ok(pk) => Ok(pk.get_fingerprint()),
        Err(e) => Err(e),
    }
}

/// `SecretKey::from_bytes`, then `public_key().to_bytes()`: fails exactly for
/// bytes that are not a valid secret key; the public key of a valid secret key
/// is a valid public key.
#[verifier::external_body]
pub(crate) fn public_key_of_secret_key(bytes: &[u8; 32]) -> (pk: Result<[u8; 48], chia_bls::Error>)
    ensures
        pk is Ok <==> secret_key_valid(bytes@),
        pk matches Ok(p) ==> p@ == public_key_of_secret(bytes@) && public_key_valid(p@),
{
    match SecretKey::from_bytes(bytes) {
        Ok(sk) => Ok(sk.public_key().to_bytes()),
        Err(e) => Err(e),
    }
}

/// `SecretKey::from_seed(seed).to_bytes()`. `from_seed` panics on a seed
/// shorter than 32 bytes; the scalar it derives is below the group order, so
/// its bytes are a valid secret key.
#[verifier::external_body]
pub(crate) fn secret_key_from_seed(seed: &[u8]) -> (sk: [u8; 32])
    requires
        seed@.len() >= 32,
    ensures
        sk@ == secret_key_of_seed(seed@),
        secret_key_valid(sk@),
{
    SecretKey::from_seed(seed).to_bytes()
}

/// `Mnemonic::from_entropy`, then `to_seed("")`: fails exactly for entropy of
/// a length that BIP-39 does not allow; the seed has 64 bytes.
#[verifier::external_body]
pub(crate) fn mnemonic_seed_of(entropy: &[u8]) -> (seed: Result<Vec<u8>, bip39::Error>)
    ensures
        seed is Ok <==> valid_entropy_len(entropy@.len()),
        seed matches Ok(s) ==> s@ == mnemonic_seed(entropy@) && s@.len() == 64,
{
    match Mnemonic::from_entropy(entropy) {
        Ok(m) => Ok(m.to_seed("").to_vec()),
        Err(e) => Err(e),
    }
}

} // verus!
