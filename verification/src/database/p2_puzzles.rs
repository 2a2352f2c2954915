//! The kinds of puzzles that the wallet's coins are paid to.

use vstd::prelude::*;

use crate::convert::Convert;
use crate::database::coins::length_error;
use crate::database::options::{OptionType, OptionUnderlying};
use crate::database::rows::{DerivationRow, DerivationSql};
use crate::database::sql::{decode_rows, first_row_error, page_total, RowColumns};
use crate::error::DatabaseError;
use crate::keychain::bls::{public_key_check, public_key_valid};

verus! {

/// How a puzzle the wallet controls locks its coins; stored as its index,
/// of which only the first four are read back.
#[derive(Debug, Clone, Copy, PartialEq, Eq, Structural, Hash)]
pub enum P2PuzzleKind {
    PublicKey,
    Clawback,
    Option,
    Arbor,
    Vault,
}

/// The kind that the stored number `value` names, if any: 0 a public key,
/// 1 a clawback, 2 an option, 3 an arbor key.
pub open spec fn p2_puzzle_kind_of(value: int) -> Option<P2PuzzleKind> {
    if value == 0 {
        Some(P2PuzzleKind::PublicKey)
    } else if value == 1 {
        Some(P2PuzzleKind::Clawback)
    } else if value == 2 {
        Some(P2PuzzleKind::Option)
    } else if value == 3 {
        Some(P2PuzzleKind::Arbor)
    } else {
        None
    }
}

/// The number each kind of puzzle is stored as when it is inserted: 0 to 4 in
/// the order of the variants.
pub open spec fn p2_puzzle_kind_index(kind: P2PuzzleKind) -> int {
    match kind {
        P2PuzzleKind::PublicKey => 0,
        P2PuzzleKind::Clawback => 1,
        P2PuzzleKind::Option => 2,
        P2PuzzleKind::Arbor => 3,
        P2PuzzleKind::Vault => 4,
    }
}

/// Reading back the stored kind of a puzzle gives the kind that was stored
/// (a vault's index is not read back).
pub proof fn lemma_p2_puzzle_kind_round_trip(kind: P2PuzzleKind)
    requires
        kind != P2PuzzleKind::Vault,
    ensures
        p2_puzzle_kind_of(p2_puzzle_kind_index(kind)) == Some(kind),
{
}

/// Reads a stored puzzle kind; any other number is no variant.
pub fn p2_puzzle_kind(value: i64) -> (r: Result<P2PuzzleKind, DatabaseError>)
    ensures
        match p2_puzzle_kind_of(value as int) {
            Some(k) => r == Ok::<P2PuzzleKind, DatabaseError>(k),
            None => r matches Err(DatabaseError::InvalidEnumVariant),
        },
{
    match value {
        0 => Ok(P2PuzzleKind::PublicKey),
        1 => Ok(P2PuzzleKind::Clawback),
        2 => Ok(P2PuzzleKind::Option),
        3 => Ok(P2PuzzleKind::Arbor),
        _ => Err(DatabaseError::InvalidEnumVariant),
    }
}

/// The launcher of a vault that a puzzle pays to.
#[derive(Debug, Clone, Copy)]
pub struct P2Vault {
    pub launcher_id: [u8; 32],
}

/// Where a derived key stands in the wallet's derivation tree.
#[derive(Debug, Clone, Copy)]
pub struct Derivation {
    pub derivation_index: u32,
    pub is_hardened: bool,
}

/// A clawback: the key that may claw back (if any), the sender and receiver
/// puzzle hashes, and the seconds until the receiver can claim.
#[derive(Debug, Clone, Copy)]
pub struct Clawback {
    pub public_key: Option<[u8; 48]>,
    pub sender_puzzle_hash: [u8; 32],
    pub receiver_puzzle_hash: [u8; 32],
    pub seconds: u64,
}

/// Stored bytes hold a public key: 48 bytes that form a valid key.
pub open spec fn public_key_column_ok(bytes: Seq<u8>) -> bool {
    bytes.len() == 48 && public_key_valid(bytes)
}

/// `e` is the error of stored bytes that hold no public key: their length
/// where it is not 48, else the key's.
pub open spec fn public_key_column_error(bytes: Seq<u8>, e: DatabaseError) -> bool {
    if bytes.len() != 48 {
        e == length_error(bytes, 48)
    } else {
        e is Bls
    }
}

/// Reads a stored public key: its 48 bytes, which must form a valid key.
pub fn decode_public_key(bytes: Vec<u8>) -> (r: Result<[u8; 48], DatabaseError>)
    ensures
        r is Ok <==> public_key_column_ok(bytes@),
        r matches Ok(key) ==> key@ == bytes@,
        r matches Err(e) ==> public_key_column_error(bytes@, e),
{
    let key: [u8; 48] = match bytes.convert() {
        Ok(k) => k,
        Err(e) => return Err(e),
    };
    match public_key_check(&key) {
        Ok(()) => Ok(key),
        Err(e) => Err(DatabaseError::Bls(e)),
    }
}

/// The stored columns of a clawback: the key of whichever side may spend it
/// now, if the wallet has it, and its terms.
#[derive(Debug, Clone)]
pub struct ClawbackColumns {
    pub key: Option<Vec<u8>>,
    pub sender_puzzle_hash: Vec<u8>,
    pub receiver_puzzle_hash: Vec<u8>,
    pub expiration_seconds: i64,
}

impl RowColumns for ClawbackColumns {
    type Row = Clawback;

    /// A present key is a valid public key, the puzzle hashes have 32 bytes,
    /// the expiration is not negative.
    open spec fn decodable(&self) -> bool {
        &&& (self.key matches Some(k) ==> public_key_column_ok(k@))
        &&& self.sender_puzzle_hash@.len() == 32
        &&& self.receiver_puzzle_hash@.len() == 32
        &&& 0 <= self.expiration_seconds
    }

    open spec fn decodes_to(&self, clawback: Clawback) -> bool {
        &&& match self.key {
            Some(k) => clawback.public_key matches Some(pk) && pk@ == k@,
            None => clawback.public_key is None,
        }
        &&& clawback.sender_puzzle_hash@ == self.sender_puzzle_hash@
        &&& clawback.receiver_puzzle_hash@ == self.receiver_puzzle_hash@
        &&& clawback.seconds == self.expiration_seconds
    }

    /// `e` is the error of the first column, in the order listed, that does
    /// not convert.
    open spec fn decode_error(&self, e: DatabaseError) -> bool {
        if self.key matches Some(k) && !public_key_column_ok(k@) {
            public_key_column_error(self.key->0@, e)
        } else if self.sender_puzzle_hash@.len() != 32 {
            e == length_error(self.sender_puzzle_hash@, 32)
        } else if self.receiver_puzzle_hash@.len() != 32 {
            e == length_error(self.receiver_puzzle_hash@, 32)
        } else {
            e is PrecisionLost
        }
    }

    fn decode_row(self) -> (r: Result<Clawback, DatabaseError>) {
        let public_key = match self.key {
            Some(k) => match decode_public_key(k) {
                Ok(key) => Some(key),
                Err(e) => return Err(e),
            },
            None => None,
        };
        let sender_puzzle_hash: [u8; 32] = match self.sender_puzzle_hash.convert() {
            Ok(v) => v,
            Err(e) => return Err(e),
        };
        let receiver_puzzle_hash: [u8; 32] = match self.receiver_puzzle_hash.convert() {
            Ok(v) => v,
            Err(e) => return Err(e),
        };
        let seconds: u64 = match self.expiration_seconds.convert() {
            Ok(v) => v,
            Err(e) => return Err(e),
        };
        Ok(Clawback { public_key, sender_puzzle_hash, receiver_puzzle_hash, seconds })
    }
}

/// A row of the derivation listing: the derivation's columns and the total
/// count of derivations of that kind.
#[derive(Debug, Clone)]
pub struct DerivationColumns {
    pub derivation: DerivationSql,
    pub total: i64,
}

impl RowColumns for DerivationColumns {
    type Row = DerivationRow;

    open spec fn decodable(&self) -> bool {
        self.derivation.decodable()
    }

    open spec fn decodes_to(&self, row: DerivationRow) -> bool {
        self.derivation.decodes_to(row)
    }

    open spec fn decode_error(&self, e: DatabaseError) -> bool {
        self.derivation.decode_error(e)
    }

    fn decode_row(self) -> (r: Result<DerivationRow, DatabaseError>) {
        self.derivation.decode()
    }
}

/// Decodes a page of derivations: the rows, and the total count that the
/// first row carries (zero for an empty page).
pub fn derivations_page(rows: Vec<DerivationColumns>) -> (r: Result<(Vec<DerivationRow>, u32), DatabaseError>)
    ensures
        r is Ok <==> (rows@.len() > 0 ==> 0 <= rows@[0].total <= u32::MAX) && forall|i: int|
            0 <= i < rows@.len() ==> #[trigger] rows@[i].decodable(),
        r matches Ok((derivations, total)) ==> {
            &&& total == (if rows@.len() == 0 { 0 } else { rows@[0].total as int })
            &&& derivations@.len() == rows@.len()
            &&& forall|i: int| 0 <= i < rows@.len() ==> #[trigger] rows@[i].decodes_to(derivations@[i])
        },
        r matches Err(e) ==> if rows@.len() > 0 && !(0 <= rows@[0].total <= u32::MAX) {
            e is PrecisionLost
        } else {
            first_row_error(rows@, e)
        },
{
    let first = if rows.len() > 0 {
        Some(rows[0].total)
    } else {
        None
    };
    let total = match page_total(first) {
        Ok(t) => t,
        Err(e) => return Err(e),
    };
    match decode_rows(rows) {
        Ok(derivations) => Ok((derivations, total)),
        Err(e) => Err(e),
    }
}

/// The option contract a puzzle locks a coin under: the creator's key, the
/// contract's launcher and its terms.
#[derive(Debug, Clone, Copy)]
pub struct Underlying {
    pub public_key: [u8; 48],
    pub launcher_id: [u8; 32],
    pub creator_puzzle_hash: [u8; 32],
    pub seconds: u64,
    pub amount: u64,
    pub strike_type: OptionType,
}

/// The puzzle a puzzle hash of the wallet stands for.
#[derive(Debug, Clone, Copy)]
pub enum P2Puzzle {
    PublicKey([u8; 48]),
    Clawback(Clawback),
    Option(Underlying),
    Arbor([u8; 48]),
    Vault(P2Vault),
}

/// A read of the wallet database that resolving a puzzle hash asks for.
#[derive(Debug, Clone, Copy, PartialEq, Eq)]
pub enum P2PuzzleRead {
    /// The public key stored for a puzzle hash.
    PublicKey([u8; 32]),
    /// The clawback stored for a puzzle hash.
    Clawback([u8; 32]),
    /// The launcher id of the option contract a puzzle hash locks coins under.
    UnderlyingLauncherId([u8; 32]),
    /// The terms of the option contract with this launcher id.
    OptionUnderlying([u8; 32]),
    /// The arbor key stored for a puzzle hash.
    ArborKey([u8; 32]),
    /// The launcher id of the vault a puzzle hash pays to.
    VaultLauncherId([u8; 32]),
}

/// What a read answered.
#[derive(Debug, Clone, Copy)]
pub enum P2PuzzleAnswer {
    Key(Option<[u8; 48]>),
    Clawback(Clawback),
    LauncherId([u8; 32]),
    OptionUnderlying(Option<OptionUnderlying>),
}

/// Where resolving a puzzle hash stands: which answer it waits for, and what
/// it has learnt so far.
#[derive(Debug, Clone, Copy)]
pub enum P2PuzzleState {
    PublicKey,
    Clawback,
    UnderlyingLauncherId,
    OptionUnderlying { launcher_id: [u8; 32] },
    CreatorKey { launcher_id: [u8; 32], underlying: OptionUnderlying },
    ArborKey,
    VaultLauncherId,
}

/// The next step of resolving a puzzle hash: another read, or the outcome.
#[derive(Debug)]
pub enum P2PuzzleStep {
    Read(P2PuzzleState, P2PuzzleRead),
    Done(Result<P2Puzzle, DatabaseError>),
}

/// The state and first read of resolving `puzzle_hash`, a puzzle of `kind`:
/// its key, its clawback, the launcher of its option, its arbor key or the
/// launcher of its vault.
pub open spec fn p2_puzzle_start(puzzle_hash: [u8; 32], kind: P2PuzzleKind) -> (P2PuzzleState, P2PuzzleRead) {
    match kind {
        P2PuzzleKind::PublicKey => (P2PuzzleState::PublicKey, P2PuzzleRead::PublicKey(puzzle_hash)),
        P2PuzzleKind::Clawback => (P2PuzzleState::Clawback, P2PuzzleRead::Clawback(puzzle_hash)),
        P2PuzzleKind::Option => (P2PuzzleState::UnderlyingLauncherId, P2PuzzleRead::UnderlyingLauncherId(puzzle_hash)),
        P2PuzzleKind::Arbor => (P2PuzzleState::ArborKey, P2PuzzleRead::ArborKey(puzzle_hash)),
        P2PuzzleKind::Vault => (P2PuzzleState::VaultLauncherId, P2PuzzleRead::VaultLauncherId(puzzle_hash)),
    }
}

/// Begins resolving a puzzle hash of a known kind.
pub fn start_p2_puzzle(puzzle_hash: [u8; 32], kind: P2PuzzleKind) -> (r: (P2PuzzleState, P2PuzzleRead))
    ensures
        r == p2_puzzle_start(puzzle_hash, kind),
{
    match kind {
        P2PuzzleKind::PublicKey => (P2PuzzleState::PublicKey, P2PuzzleRead::PublicKey(puzzle_hash)),
        P2PuzzleKind::Clawback => (P2PuzzleState::Clawback, P2PuzzleRead::Clawback(puzzle_hash)),
        P2PuzzleKind::Option => (P2PuzzleState::UnderlyingLauncherId, P2PuzzleRead::UnderlyingLauncherId(puzzle_hash)),
        P2PuzzleKind::Arbor => (P2PuzzleState::ArborKey, P2PuzzleRead::ArborKey(puzzle_hash)),
        P2PuzzleKind::Vault => (P2PuzzleState::VaultLauncherId, P2PuzzleRead::VaultLauncherId(puzzle_hash)),
    }
}

/// `answer` is of the sort that `state` waits for.
pub open spec fn answers(state: P2PuzzleState, answer: P2PuzzleAnswer) -> bool {
    match state {
        P2PuzzleState::PublicKey | P2PuzzleState::CreatorKey { .. } | P2PuzzleState::ArborKey => answer is Key,
        P2PuzzleState::Clawback => answer is Clawback,
        P2PuzzleState::UnderlyingLauncherId | P2PuzzleState::VaultLauncherId => answer is LauncherId,
        P2PuzzleState::OptionUnderlying { .. } => answer is OptionUnderlying,
    }
}

/// The option contract of the launcher `launcher_id` that the terms
/// `underlying` and the creator's key `key` make.
pub open spec fn underlying_with_key(launcher_id: [u8; 32], underlying: OptionUnderlying, key: [u8; 48]) -> Underlying {
    Underlying {
        public_key: key,
        launcher_id,
        creator_puzzle_hash: underlying.creator_puzzle_hash,
        seconds: underlying.seconds,
        amount: underlying.amount,
        strike_type: underlying.strike_type,
    }
}

/// The step after `answer` in `state`: a found key, clawback or vault
/// launcher is the puzzle, and a missing key fails with `PublicKeyNotFound`;
/// an option's launcher leads to its terms, missing ones fail with
/// `OptionUnderlyingNotFound`, and found ones lead to the key of their
/// creator's puzzle hash, which completes the option.
pub open spec fn p2_puzzle_next(state: P2PuzzleState, answer: P2PuzzleAnswer) -> P2PuzzleStep {
    match state {
        P2PuzzleState::PublicKey => match answer->Key_0 {
            Some(k) => P2PuzzleStep::Done(Ok(P2Puzzle::PublicKey(k))),
            None => P2PuzzleStep::Done(Err(DatabaseError::PublicKeyNotFound)),
        },
        P2PuzzleState::ArborKey => match answer->Key_0 {
            Some(k) => P2PuzzleStep::Done(Ok(P2Puzzle::Arbor(k))),
            None => P2PuzzleStep::Done(Err(DatabaseError::PublicKeyNotFound)),
        },
        P2PuzzleState::CreatorKey { launcher_id, underlying } => match answer->Key_0 {
            Some(k) => P2PuzzleStep::Done(Ok(P2Puzzle::Option(underlying_with_key(launcher_id, underlying, k)))),
            None => P2PuzzleStep::Done(Err(DatabaseError::PublicKeyNotFound)),
        },
        P2PuzzleState::Clawback => P2PuzzleStep::Done(Ok(P2Puzzle::Clawback(answer->Clawback_0))),
        P2PuzzleState::VaultLauncherId => P2PuzzleStep::Done(
            Ok(P2Puzzle::Vault(P2Vault { launcher_id: answer->LauncherId_0 })),
        ),
        P2PuzzleState::UnderlyingLauncherId => P2PuzzleStep::Read(
            P2PuzzleState::OptionUnderlying { launcher_id: answer->LauncherId_0 },
            P2PuzzleRead::OptionUnderlying(answer->LauncherId_0),
        ),
        P2PuzzleState::OptionUnderlying { launcher_id } => match answer->OptionUnderlying_0 {
            Some(u) => P2PuzzleStep::Read(
                P2PuzzleState::CreatorKey { launcher_id, underlying: u },
                P2PuzzleRead::PublicKey(u.creator_puzzle_hash),
            ),
            None => P2PuzzleStep::Done(Err(DatabaseError::OptionUnderlyingNotFound)),
        },
    }
}

/// Takes the answer to the last read and says what comes next.
pub fn step_p2_puzzle(state: P2PuzzleState, answer: P2PuzzleAnswer) -> (r: P2PuzzleStep)
    requires
        answers(state, answer),
    ensures
        r == p2_puzzle_next(state, answer),
{
    match (state, answer) {
        (P2PuzzleState::PublicKey, P2PuzzleAnswer::Key(Some(k))) => P2PuzzleStep::Done(Ok(P2Puzzle::PublicKey(k))),
        (P2PuzzleState::ArborKey, P2PuzzleAnswer::Key(Some(k))) => P2PuzzleStep::Done(Ok(P2Puzzle::Arbor(k))),
        (P2PuzzleState::CreatorKey { launcher_id, underlying }, P2PuzzleAnswer::Key(Some(k))) => {
            P2PuzzleStep::Done(Ok(P2Puzzle::Option(Underlying {
                public_key: k,
                launcher_id,
                creator_puzzle_hash: underlying.creator_puzzle_hash,
                seconds: underlying.seconds,
                amount: underlying.amount,
                strike_type: underlying.strike_type,
            })))
        },
        (_, P2PuzzleAnswer::Key(None)) => P2PuzzleStep::Done(Err(DatabaseError::PublicKeyNotFound)),
        (_, P2PuzzleAnswer::Clawback(c)) => P2PuzzleStep::Done(Ok(P2Puzzle::Clawback(c))),
        (P2PuzzleState::UnderlyingLauncherId, P2PuzzleAnswer::LauncherId(id)) => P2PuzzleStep::Read(
            P2PuzzleState::OptionUnderlying { launcher_id: id },
            P2PuzzleRead::OptionUnderlying(id),
        ),
        (_, P2PuzzleAnswer::LauncherId(id)) => P2PuzzleStep::Done(Ok(P2Puzzle::Vault(P2Vault { launcher_id: id }))),
        (P2PuzzleState::OptionUnderlying { launcher_id }, P2PuzzleAnswer::OptionUnderlying(Some(u))) => P2PuzzleStep::Read(
            P2PuzzleState::CreatorKey { launcher_id, underlying: u },
            P2PuzzleRead::PublicKey(u.creator_puzzle_hash),
        ),
        (_, P2PuzzleAnswer::OptionUnderlying(None)) => P2PuzzleStep::Done(Err(DatabaseError::OptionUnderlyingNotFound)),
        (_, _) => {
            // A key answers only the states that wait for one.
            proof {
                assert(false);
            }
            P2PuzzleStep::Done(Err(DatabaseError::PublicKeyNotFound))
        },
    }
}

/// How many more reads can follow the answer that `state` waits for: two
/// after an option's launcher (its terms, then its creator's key), one after
/// its terms, none otherwise.
pub open spec fn reads_left(state: P2PuzzleState) -> nat {
    match state {
        P2PuzzleState::UnderlyingLauncherId => 2,
        P2PuzzleState::OptionUnderlying { .. } => 1,
        _ => 0,
    }
}

/// Resolving a puzzle hash ends: every read that follows an answer waits in a
/// state with fewer reads left than the state it follows.
pub proof fn lemma_p2_puzzle_resolution_ends(state: P2PuzzleState, answer: P2PuzzleAnswer)
    requires
        answers(state, answer),
    ensures
        p2_puzzle_next(state, answer) matches P2PuzzleStep::Read(next, _) ==> reads_left(next) < reads_left(state),
{
}

} // verus!
