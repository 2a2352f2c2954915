use vstd::prelude::*;

use crate::keychain::encrypt::Encrypted;

verus! {

/// What the keychain stores for one key.
#[derive(Debug, Clone)]
pub enum KeyData {
    /// A watch-only key: the 48-byte master public key.
    Public { master_pk: [u8; 48] },
    /// A key with its secret: the master public key, whether the encrypted
    /// payload is mnemonic entropy (otherwise it is the 32-byte secret key), the
    /// encrypted payload, and whether a non-empty password protects it.
    Secret { master_pk: [u8; 48], entropy: bool, encrypted: Encrypted, password_protected: bool },
    /// A vault, by its launcher id.
    Vault { launcher_id: [u8; 32] },
    /// A set of watched puzzle hashes.
    Watch { p2_puzzle_hashes: Vec<[u8; 32]> },
}

/// The key data of keychains written before the password flag existed.
#[derive(Debug, Clone)]
pub enum LegacyKeyData {
    Public { master_pk: [u8; 48] },
    Secret { master_pk: [u8; 48], entropy: bool, encrypted: Encrypted },
}

/// A decrypted secret payload: the secret key bytes, or mnemonic entropy.
#[derive(Debug, Clone)]
pub struct SecretKeyData(pub Vec<u8>);

/// The key data that a legacy entry becomes: a legacy secret was never
/// password protected.
pub open spec fn upgraded(legacy: LegacyKeyData) -> KeyData {
    match legacy {
        LegacyKeyData::Public { master_pk } => KeyData::Public { master_pk },
        LegacyKeyData::Secret { master_pk, entropy, encrypted } => KeyData::Secret {
            master_pk,
            entropy,
            encrypted,
            password_protected: false,
        },
    }
}

impl From<LegacyKeyData> for KeyData {
    fn from(legacy: LegacyKeyData) -> (r: Self) {
        match legacy {
            LegacyKeyData::Public { master_pk } => KeyData::Public { master_pk },
            LegacyKeyData::Secret { master_pk, entropy, encrypted } => KeyData::Secret {
                master_pk,
                entropy,
                encrypted,
                password_protected: false,
            },
        }
    }
}

impl vstd::std_specs::convert::FromSpecImpl<LegacyKeyData> for KeyData {
    open spec fn obeys_from_spec() -> bool {
        true
    }

    open spec fn from_spec(legacy: LegacyKeyData) -> KeyData {
        upgraded(legacy)
    }
}

} // verus!
