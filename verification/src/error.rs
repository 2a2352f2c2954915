use vstd::prelude::*;

verus! {

/// The error of sqlx, the SQL toolkit that runs the wallet's statements.
#[verifier::external_type_specification]
#[verifier::external_body]
pub struct ExSqlxError(sqlx::Error);

/// Errors of the wallet database.
#[derive(Debug)]
pub enum DatabaseError {
    /// Running a statement failed.
    Sqlx(sqlx::Error),
    /// A stored integer does not fit the target integer type.
    PrecisionLost(core::num::TryFromIntError),
    /// A stored byte string has the first length, the second was expected.
    InvalidLength(usize, usize),
    /// A stored key is no valid BLS key.
    Bls(chia_bls::Error),
    /// A stored discriminant names no variant.
    InvalidEnumVariant,
    /// A string is not a valid address.
    InvalidAddress,
    /// The wallet holds no public key for a puzzle hash that needs one.
    PublicKeyNotFound,
    /// The wallet holds no terms for an option contract that a puzzle names.
    OptionUnderlyingNotFound,
}

} // verus!
