//! Assets (tokens, NFTs, DIDs and options) as the wallet stores them.

use vstd::prelude::*;

use crate::convert::Convert;
use crate::database::coins::{
    length_error, opt_bytes_column, opt_hash, opt_hash_ok, opt_length_error,
};
use crate::error::DatabaseError;

verus! {

/// The kind of an asset; stored as its index.
#[derive(Debug, Clone, Copy, PartialEq, Eq, Structural, Hash)]
pub enum AssetKind {
    Token,
    Nft,
    Did,
    Option,
}

/// The kind stored as `i`: 0 to 3 in the order of the variants.
pub open spec fn asset_kind_of(i: int) -> Option<AssetKind> {
    if i == 0 {
        Some(AssetKind::Token)
    } else if i == 1 {
        Some(AssetKind::Nft)
    } else if i == 2 {
        Some(AssetKind::Did)
    } else if i == 3 {
        Some(AssetKind::Option)
    } else {
        None
    }
}

/// A stored kind index becomes its kind; any other number is no variant.
impl Convert<AssetKind> for i64 {
    open spec fn converts_to(self, r: Result<AssetKind, DatabaseError>) -> bool {
        match asset_kind_of(self as int) {
            Some(k) => r == Ok::<AssetKind, DatabaseError>(k),
            None => r matches Err(DatabaseError::InvalidEnumVariant),
        }
    }

    fn convert(self) -> (r: Result<AssetKind, DatabaseError>) {
        match self {
            0 => Ok(AssetKind::Token),
            1 => Ok(AssetKind::Nft),
            2 => Ok(AssetKind::Did),
            3 => Ok(AssetKind::Option),
            _ => Err(DatabaseError::InvalidEnumVariant),
        }
    }
}

/// The number an asset kind is stored as: its position among the variants.
pub open spec fn asset_kind_index(kind: AssetKind) -> i64 {
    match kind {
        AssetKind::Token => 0,
        AssetKind::Nft => 1,
        AssetKind::Did => 2,
        AssetKind::Option => 3,
    }
}

impl AssetKind {
    /// The number this kind is stored as.
    pub fn index(self) -> (r: i64)
        ensures
            r == asset_kind_index(self),
    {
        match self {
            AssetKind::Token => 0,
            AssetKind::Nft => 1,
            AssetKind::Did => 2,
            AssetKind::Option => 3,
        }
    }
}

/// Reading a stored kind gives back the kind that was stored.
pub proof fn lemma_asset_kind_round_trip(kind: AssetKind)
    ensures
        asset_kind_of(asset_kind_index(kind) as int) == Some(kind),
{
}

/// An asset: its hash and what the wallet knows of it.
#[derive(Debug, Clone)]
pub struct Asset {
    pub hash: [u8; 32],
    pub name: Option<String>,
    pub ticker: Option<String>,
    pub precision: u8,
    pub icon_url: Option<String>,
    pub description: Option<String>,
    pub is_visible: bool,
    pub is_sensitive_content: bool,
    pub hidden_puzzle_hash: Option<[u8; 32]>,
    pub kind: AssetKind,
}

/// The stored columns of an asset, as SQLite returns them.
#[derive(Debug, Clone)]
pub struct AssetColumns {
    pub hash: Vec<u8>,
    pub name: Option<String>,
    pub ticker: Option<String>,
    pub precision: i64,
    pub icon_url: Option<String>,
    pub description: Option<String>,
    pub is_visible: bool,
    pub is_sensitive_content: bool,
    pub hidden_puzzle_hash: Option<Vec<u8>>,
}

/// The text of an optional string.
pub open spec fn opt_text(s: Option<String>) -> Option<Seq<char>> {
    match s {
        Some(t) => Some(t@),
        None => None,
    }
}

/// The kind that an optional stored kind index gives: a missing one is a
/// token.
pub open spec fn stored_kind(kind: Option<i64>) -> Option<AssetKind> {
    match kind {
        None => Some(AssetKind::Token),
        Some(i) => asset_kind_of(i as int),
    }
}

/// Decodes an optional stored kind index; a missing one is a token.
pub fn decode_stored_kind(kind: Option<i64>) -> (r: Result<AssetKind, DatabaseError>)
    ensures
        match stored_kind(kind) {
            Some(k) => r == Ok::<AssetKind, DatabaseError>(k),
            None => r matches Err(DatabaseError::InvalidEnumVariant),
        },
{
    match kind {
        None => Ok(AssetKind::Token),
        Some(i) => i.convert(),
    }
}

impl AssetColumns {
    /// Every column converts: the hashes have 32 bytes and the precision fits
    /// a byte.
    pub open spec fn decodable(&self) -> bool {
        &&& self.hash@.len() == 32
        &&& 0 <= self.precision <= u8::MAX
        &&& opt_hash_ok(self.hidden_puzzle_hash)
    }

    /// `asset` holds these columns' values and the given kind.
    pub open spec fn decodes_to(&self, kind: AssetKind, asset: Asset) -> bool {
        &&& asset.hash@ == self.hash@
        &&& opt_text(asset.name) == opt_text(self.name)
        &&& opt_text(asset.ticker) == opt_text(self.ticker)
        &&& asset.precision == self.precision
        &&& opt_text(asset.icon_url) == opt_text(self.icon_url)
        &&& opt_text(asset.description) == opt_text(self.description)
        &&& asset.is_visible == self.is_visible
        &&& asset.is_sensitive_content == self.is_sensitive_content
        &&& opt_hash(asset.hidden_puzzle_hash) == opt_bytes_column(self.hidden_puzzle_hash)
        &&& asset.kind == kind
    }

    /// `e` is the error of the first column, in the order listed, that does
    /// not convert.
    pub open spec fn decode_error(&self, e: DatabaseError) -> bool {
        if self.hash@.len() != 32 {
            e == length_error(self.hash@, 32)
        } else if !(0 <= self.precision <= u8::MAX) {
            e is PrecisionLost
        } else {
            opt_length_error(self.hidden_puzzle_hash, e)
        }
    }

    /// Converts the columns into an asset of the given kind. Fails with the
    /// error of the first column that does not convert.
    pub fn decode(self, kind: AssetKind) -> (r: Result<Asset, DatabaseError>)
        ensures
            r is Ok <==> self.decodable(),
            r matches Ok(asset) ==> self.decodes_to(kind, asset),
            r matches Err(e) ==> self.decode_error(e),
    {
        let hash: [u8; 32] = match self.hash.convert() {
            Ok(v) => v,
            Err(e) => return Err(e),
        };
        let precision: u8 = match self.precision.convert() {
            Ok(v) => v,
            Err(e) => return Err(e),
        };
        let hidden_puzzle_hash: Option<[u8; 32]> = match self.hidden_puzzle_hash.convert() {
            Ok(v) => v,
            Err(e) => return Err(e),
        };
        Ok(Asset {
            hash,
            name: self.name,
            ticker: self.ticker,
            precision,
            icon_url: self.icon_url,
            description: self.description,
            is_visible: self.is_visible,
            is_sensitive_content: self.is_sensitive_content,
            hidden_puzzle_hash,
            kind,
        })
    }
}

} // verus!
