//! DIDs the wallet owns, and the decoding of their rows.

use vstd::prelude::*;

use crate::convert::Convert;
use crate::database::assets::{Asset, AssetColumns, AssetKind};
use crate::database::coins::{
    opt_bytes_column, opt_hash, opt_hash_ok, opt_length_error, CoinColumns, CoinKind, CoinRow,
};
use crate::database::sql::{first_row_error, decode_rows, RowColumns};
use crate::error::DatabaseError;

verus! {

/// What the wallet knows of a DID's coin: its metadata and recovery terms.
#[derive(Debug, Clone)]
pub struct DidCoinInfo {
    pub metadata: Vec<u8>,
    pub recovery_list_hash: Option<[u8; 32]>,
    pub num_verifications_required: u64,
}

/// A DID the wallet owns: the asset, its DID data and its coin.
#[derive(Debug, Clone)]
pub struct DidRow {
    pub asset: Asset,
    pub did_info: DidCoinInfo,
    pub coin_row: CoinRow,
}

/// The stored columns of an owned DID, as SQLite returns them.
#[derive(Debug, Clone)]
pub struct DidRowColumns {
    pub asset: AssetColumns,
    pub metadata: Vec<u8>,
    pub recovery_list_hash: Option<Vec<u8>>,
    pub num_verifications_required: i64,
    pub coin: CoinColumns,
}

impl RowColumns for DidRowColumns {
    type Row = DidRow;

    /// Every column converts: the recovery list hash has 32 bytes and the
    /// number of verifications is not negative.
    open spec fn decodable(&self) -> bool {
        &&& self.asset.decodable()
        &&& opt_hash_ok(self.recovery_list_hash)
        &&& 0 <= self.num_verifications_required
        &&& self.coin.decodable()
    }

    /// The DID is an asset of kind DID held by a coin of kind DID.
    open spec fn decodes_to(&self, row: DidRow) -> bool {
        &&& self.asset.decodes_to(AssetKind::Did, row.asset)
        &&& row.did_info.metadata@ == self.metadata@
        &&& opt_hash(row.did_info.recovery_list_hash) == opt_bytes_column(self.recovery_list_hash)
        &&& row.did_info.num_verifications_required == self.num_verifications_required
        &&& self.coin.decodes_to(CoinKind::Did, row.coin_row)
    }

    /// `e` is the error of the first column, in the order listed, that does
    /// not convert.
    open spec fn decode_error(&self, e: DatabaseError) -> bool {
        if !self.asset.decodable() {
            self.asset.decode_error(e)
        } else if !opt_hash_ok(self.recovery_list_hash) {
            opt_length_error(self.recovery_list_hash, e)
        } else if self.num_verifications_required < 0 {
            e is PrecisionLost
        } else {
            self.coin.decode_error(e)
        }
    }

    fn decode_row(self) -> (r: Result<DidRow, DatabaseError>) {
        let asset = match self.asset.decode(AssetKind::Did) {
            Ok(v) => v,
            Err(e) => return Err(e),
        };
        let recovery_list_hash: Option<[u8; 32]> = match self.recovery_list_hash.convert() {
            Ok(v) => v,
            Err(e) => return Err(e),
        };
        let num_verifications_required: u64 = match self.num_verifications_required.convert() {
            Ok(v) => v,
            Err(e) => return Err(e),
        };
        let coin_row = match self.coin.decode(CoinKind::Did) {
            Ok(v) => v,
            Err(e) => return Err(e),
        };
        Ok(DidRow {
            asset,
            did_info: DidCoinInfo { metadata: self.metadata, recovery_list_hash, num_verifications_required },
            coin_row,
        })
    }
}

/// Decodes every owned DID; fails where any row does not decode.
pub fn owned_dids_rows(rows: Vec<DidRowColumns>) -> (r: Result<Vec<DidRow>, DatabaseError>)
    ensures
        r is Ok <==> forall|i: int| 0 <= i < rows@.len() ==> #[trigger] rows@[i].decodable(),
        r matches Ok(dids) ==> dids@.len() == rows@.len() && forall|i: int|
            0 <= i < rows@.len() ==> #[trigger] rows@[i].decodes_to(dids@[i]),
        r matches Err(e) ==> first_row_error(rows@, e),
{
    decode_rows(rows)
}

} // verus!
