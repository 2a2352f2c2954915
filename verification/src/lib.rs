//! Verified core of the Sage wallet: value conversions for the wallet database,
//! query construction and row decoding, and the encrypted keychain.

pub mod convert;
pub mod database;
pub mod error;
pub mod keychain;
