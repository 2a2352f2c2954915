use vstd::prelude::*;

verus! {

/// Errors of the keychain.
#[derive(Debug)]
pub enum KeychainError {
    /// Encoding or decoding with bincode failed.
    Bincode(Box<bincode::ErrorKind>),
    /// Argon2 key derivation failed.
    Argon2(argon2::Error),
    /// A BLS key was invalid.
    Bls(chia_bls::Error),
    /// A mnemonic's entropy was invalid.
    Bip39(bip39::Error),
    /// Key data could not be encrypted.
    Encrypt,
    /// Key data could not be decrypted (wrong password or tampered data).
    Decrypt,
    /// A key with the same fingerprint is already in the keychain.
    KeyExists,
}

} // verus!
