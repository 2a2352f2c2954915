//! The wallet keychain: key data by fingerprint, with secrets kept encrypted.

pub mod bls;
pub mod crypto;
pub mod encrypt;
pub mod error;
pub mod key_data;

use std::collections::HashMap;

use rand_chacha::ChaCha20Rng;
use vstd::prelude::*;
use vstd::std_specs::iter::IteratorSpec;

use crate::convert::vec_into_array;
use crate::keychain::bls::{
    mnemonic_seed, mnemonic_seed_of, public_key_fingerprint, public_key_fingerprint_of,
    public_key_check, public_key_of_secret, public_key_of_secret_key, public_key_valid,
    secret_key_check, secret_key_from_seed, secret_key_of_seed, secret_key_valid, valid_entropy_len,
};
use crate::keychain::crypto::{rng_from_entropy, ARGON2_MAX_PASSWORD_LEN, NONCE_LEN};
use crate::keychain::encrypt::{decrypt, encrypt, encryptable};
use crate::keychain::error::KeychainError;
use crate::keychain::key_data::{upgraded, KeyData, LegacyKeyData};

verus! {

broadcast use vstd::std_specs::hash::group_hash_axioms;

/// The fingerprint of the key pair whose secret key is `sk`.
pub open spec fn secret_key_fingerprint(sk: Seq<u8>) -> u32 {
    public_key_fingerprint(public_key_of_secret(sk))
}

/// The secret key that the mnemonic with this entropy derives.
pub open spec fn mnemonic_secret_key(entropy: Seq<u8>) -> Seq<u8> {
    secret_key_of_seed(mnemonic_seed(entropy))
}

/// `entry` holds a secret: the public key `master_pk`, the payload `payload`
/// sealed under `password`, the entropy flag `entropy`, and the password flag
/// that a non-empty password sets.
pub open spec fn holds_secret(entry: KeyData, master_pk: Seq<u8>, entropy: bool, payload: Seq<u8>, password: Seq<u8>) -> bool {
    match entry {
        KeyData::Secret { master_pk: pk, entropy: e, encrypted, password_protected } => {
            &&& pk@ == master_pk
            &&& e == entropy
            &&& encrypted.seals(password, payload)
            &&& password_protected == (password.len() > 0)
        },
        _ => false,
    }
}

/// The mnemonic (as entropy) and secret key that a decrypted payload yields,
/// where it yields them: entropy must have a BIP-39 length, a secret key must
/// be valid.
pub open spec fn secrets_from_payload(entropy: bool, payload: Seq<u8>) -> Option<(Option<Seq<u8>>, Seq<u8>)> {
    if entropy {
        if valid_entropy_len(payload.len()) {
            Some((Some(payload), mnemonic_secret_key(payload)))
        } else {
            None
        }
    } else if secret_key_valid(payload) {
        Some((None, payload))
    } else {
        None
    }
}

/// The bytes of an optional vector.
pub open spec fn opt_bytes(v: Option<Vec<u8>>) -> Option<Seq<u8>> {
    match v {
        Some(b) => Some(b@),
        None => None,
    }
}

/// The fingerprint of the key pair that the mnemonic with this entropy derives.
pub open spec fn mnemonic_fingerprint(entropy: Seq<u8>) -> u32 {
    secret_key_fingerprint(mnemonic_secret_key(entropy))
}

/// `r` is what extracting the secrets from a payload yields: the mnemonic
/// entropy (if any) and the secret key, or the error of the mnemonic crate (for
/// entropy of a length BIP-39 refuses) or of the BLS crate (for an invalid key).
pub open spec fn payload_outcome(
    entropy: bool,
    payload: Seq<u8>,
    r: Result<(Option<Vec<u8>>, Option<[u8; 32]>), KeychainError>,
) -> bool {
    match secrets_from_payload(entropy, payload) {
        Some((mnemonic, sk)) => r matches Ok((m, Some(k))) && opt_bytes(m) == mnemonic && k@ == sk,
        None => if entropy {
            r matches Err(KeychainError::Bip39(_))
        } else {
            r matches Err(KeychainError::Bls(_))
        },
    }
}

/// `r` is what extracting the secrets of `entry` with `password` yields: nothing
/// for a missing entry or one without a secret; otherwise the decryption error,
/// or the outcome for the decrypted payload. Whatever was sealed under this
/// password is the payload that the outcome is for.
pub open spec fn extract_outcome(
    entry: Option<KeyData>,
    password: Seq<u8>,
    r: Result<(Option<Vec<u8>>, Option<[u8; 32]>), KeychainError>,
) -> bool {
    match entry {
        Some(KeyData::Secret { entropy, encrypted, .. }) => {
            &&& match encrypted.opened_with(password) {
                None => r matches Err(e) && encrypted.decrypt_error(password, e),
                Some(d) => payload_outcome(entropy, d, r),
            }
            &&& forall|data: Seq<u8>|
                #[trigger] encrypted.seals(password, data) && encryptable(password, data)
                    ==> payload_outcome(entropy, data, r)
        },
        _ => r matches Ok((None, None)),
    }
}

/// `extract_secrets` can be called on `entry`: a sealed secret has a nonce of
/// the AES-GCM length.
pub open spec fn nonce_well_formed(entry: Option<KeyData>) -> bool {
    entry matches Some(KeyData::Secret { encrypted, .. }) ==> encrypted.nonce@.len() == NONCE_LEN
}

/// The payload of a sealed secret key (not entropy) that `password` opens has
/// the 32 bytes of a secret key.
pub open spec fn secret_key_payload_sized(entry: Option<KeyData>, password: Seq<u8>) -> bool {
    entry matches Some(KeyData::Secret { entropy: false, encrypted, .. })
        ==> (encrypted.opened_with(password) matches Some(d) ==> d.len() == 32)
}

/// `r` is what `try_extract_secrets` yields for `entry` and `password`: `None`
/// exactly where a sealed secret key opens to a payload of another length than
/// 32 bytes, and otherwise the outcome of `extract_secrets`. Whatever was sealed
/// under this password, and has the size of its kind, is extracted.
pub open spec fn try_extract_outcome(
    entry: Option<KeyData>,
    password: Seq<u8>,
    r: Option<Result<(Option<Vec<u8>>, Option<[u8; 32]>), KeychainError>>,
) -> bool {
    &&& (r is None <==> !secret_key_payload_sized(entry, password))
    &&& (r matches Some(x) ==> extract_outcome(entry, password, x))
    &&& (entry matches Some(KeyData::Secret { entropy, encrypted, .. }) ==> forall|data: Seq<u8>|
        #[trigger] encrypted.seals(password, data) && encryptable(password, data) && (entropy || data.len() == 32)
            ==> (r matches Some(x) && payload_outcome(entropy, data, x)))
}

/// The keys of a map, each once, in the map's iteration order.
fn key_list<V>(map: &HashMap<u32, V>) -> (r: Vec<u32>)
    ensures
        r@.to_set() == map@.dom(),
        r@.no_duplicates(),
        r@.len() == map@.dom().len(),
{
    let mut out: Vec<u32> = Vec::new();
    for k in it: map.keys()
        invariant
            out@.len() == it.index(),
            forall|i: int| 0 <= i < it.index() ==> out@[i] == *it.seq()[i],
    {
        out.push(*k);
    }
    proof {
        let all = vstd::std_specs::hash::spec_keys_iter(map);
        assert(out@ =~= IteratorSpec::remaining(&all).unref());
    }
    out
}

/// A store of key data by fingerprint, with the generator that salts and
/// nonces are drawn from.
#[derive(Debug)]
pub struct Keychain {
    rng: ChaCha20Rng,
    keys: HashMap<u32, KeyData>,
}

impl View for Keychain {
    type V = Map<u32, KeyData>;

    closed spec fn view(&self) -> Map<u32, KeyData> {
        self.keys@
    }
}

impl Default for Keychain {
    fn default() -> (r: Self)
        ensures
            r@ == Map::<u32, KeyData>::empty(),
    {
        Keychain { rng: rng_from_entropy(), keys: HashMap::new() }
    }
}

impl Keychain {
    /// A keychain holding `keys`, with a generator seeded from the system.
    pub fn from_keys(keys: HashMap<u32, KeyData>) -> (r: Self)
        ensures
            r@ == keys@,
    {
        Keychain { rng: rng_from_entropy(), keys }
    }

    /// The stored key data by fingerprint.
    pub fn keys(&self) -> (r: &HashMap<u32, KeyData>)
        ensures
            r@ == self@,
    {
        &self.keys
    }

    pub fn contains(&self, fingerprint: u32) -> (r: bool)
        ensures
            r == self@.contains_key(fingerprint),
    {
        self.keys.contains_key(&fingerprint)
    }

    /// Removes the key with this fingerprint; says whether there was one.
    pub fn remove(&mut self, fingerprint: u32) -> (r: bool)
        ensures
            final(self)@ == old(self)@.remove(fingerprint),
            r == old(self)@.contains_key(fingerprint),
    {
        self.keys.remove(&fingerprint).is_some()
    }

    /// The entry stored under `fingerprint`, if any.
    pub open spec fn entry(&self, fingerprint: u32) -> Option<KeyData> {
        if self@.contains_key(fingerprint) {
            Some(self@[fingerprint])
        } else {
            None
        }
    }

    /// Whether the key with this fingerprint has its secret in the keychain.
    pub fn has_secret_key(&self, fingerprint: u32) -> (r: bool)
        ensures
            r == (self.entry(fingerprint) matches Some(KeyData::Secret { .. })),
    {
        match self.keys.get(&fingerprint) {
            Some(KeyData::Secret { .. }) => true,
            _ => false,
        }
    }

    /// Whether the key with this fingerprint has a secret sealed under a
    /// non-empty password.
    pub fn is_password_protected(&self, fingerprint: u32) -> (r: bool)
        ensures
            r == (self.entry(fingerprint) matches Some(KeyData::Secret { password_protected: true, .. })),
    {
        match self.keys.get(&fingerprint) {
            Some(KeyData::Secret { password_protected, .. }) => *password_protected,
            _ => false,
        }
    }

    /// The master public key of the key with this fingerprint, as its 48-byte
    /// encoding: `None` where there is no such key or it is a vault or a watch
    /// list; the BLS error where the stored bytes are no valid public key.
    pub fn extract_public_key(&self, fingerprint: u32) -> (r: Result<Option<[u8; 48]>, KeychainError>)
        ensures
            match self.entry(fingerprint) {
                Some(KeyData::Public { master_pk }) | Some(KeyData::Secret { master_pk, .. }) =>
                    if public_key_valid(master_pk@) {
                        r matches Ok(Some(pk)) && pk == master_pk
                    } else {
                        r matches Err(KeychainError::Bls(_))
                    },
                _ => r matches Ok(None),
            },
    {
        match self.keys.get(&fingerprint) {
            Some(KeyData::Public { master_pk }) | Some(KeyData::Secret { master_pk, .. }) => {
                match public_key_check(master_pk) {
                    Ok(()) => Ok(Some(*master_pk)),
                    Err(e) => Err(KeychainError::Bls(e)),
                }
            },
            _ => Ok(None),
        }
    }

    /// Decrypts the secret of the key with this fingerprint: the mnemonic (as
    /// its entropy) where the key was added as a mnemonic, and the secret key.
    /// A missing key, or one without a secret, yields neither.
    pub fn extract_secrets(&self, fingerprint: u32, password: &[u8]) -> (r: Result<(Option<Vec<u8>>, Option<[u8; 32]>), KeychainError>)
        requires
            nonce_well_formed(self.entry(fingerprint)),
            secret_key_payload_sized(self.entry(fingerprint), password@),
        ensures
            extract_outcome(self.entry(fingerprint), password@, r),
    {
        match self.keys.get(&fingerprint) {
            Some(KeyData::Secret { entropy, encrypted, .. }) => {
                let data = match decrypt(encrypted, password) {
                    Ok(d) => d,
                    Err(e) => return Err(e),
                };
                if *entropy {
                    let seed = match mnemonic_seed_of(data.as_slice()) {
                        Ok(s) => s,
                        Err(e) => return Err(KeychainError::Bip39(e)),
                    };
                    let secret_key = secret_key_from_seed(seed.as_slice());
                    Ok((Some(data), Some(secret_key)))
                } else {
                    let secret_key: [u8; 32] = match vec_into_array::<32>(data) {
                        Ok(a) => a,
                        Err(_) => {
                            proof {
                                assert(false);
                            }
                            return Err(KeychainError::Decrypt);
                        },
                    };
                    match secret_key_check(&secret_key) {
                        Ok(()) => Ok((None, Some(secret_key))),
                        Err(e) => Err(KeychainError::Bls(e)),
                    }
                }
            },
            _ => Ok((None, None)),
        }
    }

    /// `extract_secrets` where it can be called with this password: `None`
    /// exactly where the sealed payload of a secret key does not have the 32
    /// bytes of one. A payload that was sealed under this password is always
    /// extracted.
    pub fn try_extract_secrets(&self, fingerprint: u32, password: &[u8]) -> (r: Option<Result<(Option<Vec<u8>>, Option<[u8; 32]>), KeychainError>>)
        requires
            nonce_well_formed(self.entry(fingerprint)),
        ensures
            try_extract_outcome(self.entry(fingerprint), password@, r),
    {
        if let Some(KeyData::Secret { entropy: false, encrypted, .. }) = self.keys.get(&fingerprint) {
            if let Ok(data) = decrypt(encrypted, password) {
                if data.len() != 32 {
                    return None;
                }
            }
        }
        Some(self.extract_secrets(fingerprint, password))
    }

    /// Adds a watch-only key by its 48-byte master public key; returns its
    /// fingerprint. Fails for bytes that are no valid public key, and where a
    /// key with the same fingerprint is already stored.
    pub fn add_public_key(&mut self, master_pk: &[u8; 48]) -> (r: Result<u32, KeychainError>)
        ensures
            r is Ok <==> public_key_valid(master_pk@) && !old(self)@.contains_key(public_key_fingerprint(master_pk@)),
            match r {
                Ok(fingerprint) => {
                    &&& fingerprint == public_key_fingerprint(master_pk@)
                    &&& final(self)@ == old(self)@.insert(fingerprint, KeyData::Public { master_pk: *master_pk })
                },
                Err(KeychainError::Bls(_)) => !public_key_valid(master_pk@) && final(self)@ == old(self)@,
                Err(KeychainError::KeyExists) => public_key_valid(master_pk@) && final(self)@ == old(self)@,
                Err(_) => false,
            },
    {
        let fingerprint = match public_key_fingerprint_of(master_pk) {
            Ok(f) => f,
            Err(e) => return Err(KeychainError::Bls(e)),
        };
        if self.contains(fingerprint) {
            return Err(KeychainError::KeyExists);
        }
        self.keys.insert(fingerprint, KeyData::Public { master_pk: *master_pk });
        Ok(fingerprint)
    }

    /// Adds a key by its 32-byte master secret key, sealed under `password`;
    /// returns its fingerprint. Fails for an invalid secret key, where a key with
    /// the same fingerprint is already stored, and where encryption fails.
    pub fn add_secret_key(&mut self, master_sk: &[u8; 32], password: &[u8]) -> (r: Result<u32, KeychainError>)
        ensures
            r is Ok <==> secret_key_valid(master_sk@)
                && !old(self)@.contains_key(secret_key_fingerprint(master_sk@))
                && encryptable(password@, master_sk@),
            match r {
                Ok(fingerprint) => {
                    &&& fingerprint == secret_key_fingerprint(master_sk@)
                    &&& final(self)@ == old(self)@.insert(fingerprint, final(self)@[fingerprint])
                    &&& holds_secret(final(self)@[fingerprint], public_key_of_secret(master_sk@), false, master_sk@, password@)
                },
                Err(KeychainError::Bls(_)) => !secret_key_valid(master_sk@) && final(self)@ == old(self)@,
                Err(KeychainError::KeyExists) => secret_key_valid(master_sk@)
                    && old(self)@.contains_key(secret_key_fingerprint(master_sk@))
                    && final(self)@ == old(self)@,
                Err(KeychainError::Argon2(_)) => secret_key_valid(master_sk@)
                    && !old(self)@.contains_key(secret_key_fingerprint(master_sk@))
                    && password@.len() > ARGON2_MAX_PASSWORD_LEN
                    && final(self)@ == old(self)@,
                Err(_) => false,
            },
    {
        let master_pk = match public_key_of_secret_key(master_sk) {
            Ok(pk) => pk,
            Err(e) => return Err(KeychainError::Bls(e)),
        };
        let fingerprint = match public_key_fingerprint_of(&master_pk) {
            Ok(f) => f,
            Err(e) => return Err(KeychainError::Bls(e)),
        };
        if self.contains(fingerprint) {
            return Err(KeychainError::KeyExists);
        }
        let encrypted = match encrypt(password, &mut self.rng, master_sk) {
            Ok(e) => e,
            Err(e) => return Err(e),
        };
        self.keys.insert(
            fingerprint,
            KeyData::Secret { master_pk, entropy: false, encrypted, password_protected: password.len() > 0 },
        );
        Ok(fingerprint)
    }

    /// Adds a key by the entropy of its mnemonic, sealed under `password`;
    /// returns the fingerprint of the key that the mnemonic derives. Fails for
    /// entropy of a length that BIP-39 refuses, where a key with the same
    /// fingerprint is already stored, and where encryption fails.
    pub fn add_mnemonic(&mut self, entropy: &[u8], password: &[u8]) -> (r: Result<u32, KeychainError>)
        ensures
            r is Ok <==> valid_entropy_len(entropy@.len())
                && !old(self)@.contains_key(mnemonic_fingerprint(entropy@))
                && encryptable(password@, entropy@),
            match r {
                Ok(fingerprint) => {
                    &&& fingerprint == mnemonic_fingerprint(entropy@)
                    &&& final(self)@ == old(self)@.insert(fingerprint, final(self)@[fingerprint])
                    &&& holds_secret(
                        final(self)@[fingerprint],
                        public_key_of_secret(mnemonic_secret_key(entropy@)),
                        true,
                        entropy@,
                        password@,
                    )
                },
                Err(KeychainError::Bip39(_)) => !valid_entropy_len(entropy@.len()) && final(self)@ == old(self)@,
                Err(KeychainError::KeyExists) => valid_entropy_len(entropy@.len())
                    && old(self)@.contains_key(mnemonic_fingerprint(entropy@))
                    && final(self)@ == old(self)@,
                Err(KeychainError::Argon2(_)) => valid_entropy_len(entropy@.len())
                    && !old(self)@.contains_key(mnemonic_fingerprint(entropy@))
                    && password@.len() > ARGON2_MAX_PASSWORD_LEN
                    && final(self)@ == old(self)@,
                Err(_) => false,
            },
    {
        let seed = match mnemonic_seed_of(entropy) {
            Ok(s) => s,
            Err(e) => return Err(KeychainError::Bip39(e)),
        };
        let master_sk = secret_key_from_seed(seed.as_slice());
        let master_pk = match public_key_of_secret_key(&master_sk) {
            Ok(pk) => pk,
            Err(e) => return Err(KeychainError::Bls(e)),
        };
        let fingerprint = match public_key_fingerprint_of(&master_pk) {
            Ok(f) => f,
            Err(e) => return Err(KeychainError::Bls(e)),
        };
        if self.contains(fingerprint) {
            return Err(KeychainError::KeyExists);
        }
        let encrypted = match encrypt(password, &mut self.rng, entropy) {
            Ok(e) => e,
            Err(e) => return Err(e),
        };
        self.keys.insert(
            fingerprint,
            KeyData::Secret { master_pk, entropy: true, encrypted, password_protected: password.len() > 0 },
        );
        Ok(fingerprint)
    }

    /// The fingerprints of all stored keys, each once, in no stated order.
    pub fn fingerprints(&self) -> (r: Vec<u32>)
        ensures
            r@.to_set() == self@.dom(),
            r@.no_duplicates(),
            r@.len() == self@.dom().len(),
    {
        key_list(&self.keys)
    }

    /// A keychain holding the entries of a keychain written before the
    /// password flag existed, each upgraded; with a generator seeded from the
    /// system.
    pub fn from_legacy_keys(legacy: HashMap<u32, LegacyKeyData>) -> (r: Self)
        ensures
            r@ == legacy@.map_values(|v: LegacyKeyData| upgraded(v)),
    {
        let ghost original = legacy@;
        let mut legacy = legacy;
        let fingerprints = key_list(&legacy);
        let mut keys: HashMap<u32, KeyData> = HashMap::new();
        let mut i: usize = 0;
        while i < fingerprints.len()
            invariant
                i <= fingerprints@.len(),
                fingerprints@.to_set() == original.dom(),
                fingerprints@.no_duplicates(),
                forall|k: u32| #[trigger] keys@.contains_key(k) <==> fingerprints@.take(i as int).contains(k),
                forall|k: u32| keys@.contains_key(k) ==> #[trigger] keys@[k] == upgraded(original[k]),
                forall|k: u32| #[trigger] legacy@.contains_key(k) <==> original.contains_key(k) && !fingerprints@.take(i as int).contains(k),
                forall|k: u32| legacy@.contains_key(k) ==> #[trigger] legacy@[k] == original[k],
            decreases fingerprints@.len() - i,
        {
            let fingerprint = fingerprints[i];
            proof {
                assert(fingerprints@.take(i as int + 1) =~= fingerprints@.take(i as int).push(fingerprint));
                assert(original.dom().contains(fingerprint)) by {
                    assert(fingerprints@.contains(fingerprint));
                }
                assert(!fingerprints@.take(i as int).contains(fingerprint)) by {
                    if fingerprints@.take(i as int).contains(fingerprint) {
                        let j = choose|j: int| 0 <= j < i && fingerprints@.take(i as int)[j] == fingerprint;
                        assert(fingerprints@[j] == fingerprints@[i as int]);
                    }
                }
            }
            let ghost before = fingerprints@.take(i as int);
            match legacy.remove(&fingerprint) {
                Some(entry) => {
                    keys.insert(fingerprint, KeyData::from(entry));
                },
                None => {},
            }
            i = i + 1;
            proof {
                assert forall|k: u32| fingerprints@.take(i as int).contains(k) <==> (before.contains(k) || k == fingerprint) by {
                    if fingerprints@.take(i as int).contains(k) && k != fingerprint {
                        let j = choose|j: int| 0 <= j < i && fingerprints@.take(i as int)[j] == k;
                        assert(before[j] == k);
                    }
                    if before.contains(k) {
                        let j = choose|j: int| 0 <= j < before.len() && before[j] == k;
                        assert(fingerprints@.take(i as int)[j] == k);
                    }
                    if k == fingerprint {
                        assert(fingerprints@.take(i as int)[i - 1] == k);
                    }
                }
            }
        }
        proof {
            assert(fingerprints@.take(i as int) =~= fingerprints@);
            assert(keys@ =~= original.map_values(|v: LegacyKeyData| upgraded(v)));
        }
        Keychain { rng: rng_from_entropy(), keys }
    }
}

/// A secret key that `add_secret_key` sealed under a password comes back from
/// `try_extract_secrets` with that password, without a mnemonic.
pub proof fn lemma_added_secret_key_is_extracted(
    entry: KeyData,
    secret_key: Seq<u8>,
    password: Seq<u8>,
    r: Option<Result<(Option<Vec<u8>>, Option<[u8; 32]>), KeychainError>>,
)
    requires
        secret_key.len() == 32,
        secret_key_valid(secret_key),
        encryptable(password, secret_key),
        holds_secret(entry, public_key_of_secret(secret_key), false, secret_key, password),
        try_extract_outcome(Some(entry), password, r),
    ensures
        r matches Some(Ok((None, Some(k)))) && k@ == secret_key,
{
    let encrypted = entry->encrypted;
    assert(encrypted.seals(password, secret_key));
}

/// A mnemonic that `add_mnemonic` sealed under a password comes back from
/// `try_extract_secrets` with that password, as its entropy, together with the
/// secret key it derives.
pub proof fn lemma_added_mnemonic_is_extracted(
    entry: KeyData,
    entropy: Seq<u8>,
    password: Seq<u8>,
    r: Option<Result<(Option<Vec<u8>>, Option<[u8; 32]>), KeychainError>>,
)
    requires
        valid_entropy_len(entropy.len()),
        encryptable(password, entropy),
        holds_secret(entry, public_key_of_secret(mnemonic_secret_key(entropy)), true, entropy, password),
        try_extract_outcome(Some(entry), password, r),
    ensures
        r matches Some(Ok((Some(m), Some(k)))) && m@ == entropy && k@ == mnemonic_secret_key(entropy),
{
    let encrypted = entry->encrypted;
    assert(encrypted.seals(password, entropy));
}

/// An added secret is held as a secret, and is password protected exactly
/// when the password it was sealed under is not empty.
pub proof fn lemma_added_secret_protection(
    entry: KeyData,
    master_pk: Seq<u8>,
    entropy: bool,
    payload: Seq<u8>,
    password: Seq<u8>,
)
    requires
        holds_secret(entry, master_pk, entropy, payload, password),
    ensures
        entry matches KeyData::Secret { password_protected, .. } && password_protected == (password.len() > 0),
{
}

/// Removing the fingerprint that an add stored gives back the keychain as it
/// was before the add.
pub proof fn lemma_remove_undoes_add(before: Map<u32, KeyData>, fingerprint: u32, entry: KeyData)
    requires
        !before.contains_key(fingerprint),
    ensures
        before.insert(fingerprint, entry).remove(fingerprint) == before,
{
    assert(before.insert(fingerprint, entry).remove(fingerprint) =~= before);
}

} // verus!
