//! Transactions the wallet has sent to the mempool: their items and coin
//! spends, and the decoding of their stored columns.

use vstd::prelude::*;

use crate::convert::{be_value, Convert};
use crate::database::coins::{length_error, Coin};
use crate::database::offers::timestamp_bits;
use crate::database::sql::{decode_rows, first_row_error, RowColumns};
use crate::error::DatabaseError;
use crate::keychain::bls::{signature_check, signature_valid};

verus! {

/// A transaction in the mempool: its hash, aggregated signature, fee, and
/// when it was last submitted.
#[derive(Debug, Clone)]
pub struct MempoolItem {
    pub hash: [u8; 32],
    pub aggregated_signature: [u8; 96],
    pub fee: u64,
    pub submitted_timestamp: Option<u64>,
}

/// The stored columns of a mempool item.
#[derive(Debug, Clone)]
pub struct MempoolItemColumns {
    pub hash: Vec<u8>,
    pub aggregated_signature: Vec<u8>,
    pub fee: Vec<u8>,
    pub submitted_timestamp: Option<i64>,
}

impl RowColumns for MempoolItemColumns {
    type Row = MempoolItem;

    /// The hash has 32 bytes, the signature 96 that form a valid signature,
    /// the fee 8.
    open spec fn decodable(&self) -> bool {
        &&& self.hash@.len() == 32
        &&& self.aggregated_signature@.len() == 96
        &&& signature_valid(self.aggregated_signature@)
        &&& self.fee@.len() == 8
    }

    /// The fee is read big-endian; the timestamp is read as unsigned.
    open spec fn decodes_to(&self, item: MempoolItem) -> bool {
        &&& item.hash@ == self.hash@
        &&& item.aggregated_signature@ == self.aggregated_signature@
        &&& item.fee == be_value(self.fee@)
        &&& item.submitted_timestamp == timestamp_bits(self.submitted_timestamp)
    }

    /// `e` is the error of the first column, in the order listed, that does
    /// not convert.
    open spec fn decode_error(&self, e: DatabaseError) -> bool {
        if self.hash@.len() != 32 {
            e == length_error(self.hash@, 32)
        } else if self.aggregated_signature@.len() != 96 {
            e == length_error(self.aggregated_signature@, 96)
        } else if !signature_valid(self.aggregated_signature@) {
            e is Bls
        } else {
            e == length_error(self.fee@, 8)
        }
    }

    fn decode_row(self) -> (r: Result<MempoolItem, DatabaseError>) {
        let hash: [u8; 32] = match self.hash.convert() {
            Ok(v) => v,
            Err(e) => return Err(e),
        };
        let aggregated_signature: [u8; 96] = match self.aggregated_signature.convert() {
            Ok(v) => v,
            Err(e) => return Err(e),
        };
        match signature_check(&aggregated_signature) {
            Ok(()) => {},
            Err(e) => return Err(DatabaseError::Bls(e)),
        }
        let fee: u64 = match self.fee.convert() {
            Ok(v) => v,
            Err(e) => return Err(e),
        };
        let submitted_timestamp = match self.submitted_timestamp {
            Some(t) => Some(#[verifier::truncate] (t as u64)),
            None => None,
        };
        Ok(MempoolItem { hash, aggregated_signature, fee, submitted_timestamp })
    }
}

/// Decodes mempool items; fails with the error of the first row that does
/// not decode.
pub fn mempool_items_rows(rows: Vec<MempoolItemColumns>) -> (r: Result<Vec<MempoolItem>, DatabaseError>)
    ensures
        r is Ok <==> forall|i: int| 0 <= i < rows@.len() ==> #[trigger] rows@[i].decodable(),
        r matches Ok(items) ==> items@.len() == rows@.len() && forall|i: int|
            0 <= i < rows@.len() ==> #[trigger] rows@[i].decodes_to(items@[i]),
        r matches Err(e) ==> first_row_error(rows@, e),
{
    decode_rows(rows)
}

/// A spend of a coin: the coin, its puzzle and the solution, both serialized
/// programs.
#[derive(Debug, Clone)]
pub struct CoinSpend {
    pub coin: Coin,
    pub puzzle_reveal: Vec<u8>,
    pub solution: Vec<u8>,
}

/// The stored columns of a coin spend of a mempool item.
#[derive(Debug, Clone)]
pub struct CoinSpendColumns {
    pub parent_coin_hash: Vec<u8>,
    pub puzzle_hash: Vec<u8>,
    pub amount: Vec<u8>,
    pub puzzle_reveal: Vec<u8>,
    pub solution: Vec<u8>,
}

impl RowColumns for CoinSpendColumns {
    type Row = CoinSpend;

    open spec fn decodable(&self) -> bool {
        &&& self.parent_coin_hash@.len() == 32
        &&& self.puzzle_hash@.len() == 32
        &&& self.amount@.len() == 8
    }

    open spec fn decodes_to(&self, spend: CoinSpend) -> bool {
        &&& spend.coin.parent_coin_info@ == self.parent_coin_hash@
        &&& spend.coin.puzzle_hash@ == self.puzzle_hash@
        &&& spend.coin.amount == be_value(self.amount@)
        &&& spend.puzzle_reveal@ == self.puzzle_reveal@
        &&& spend.solution@ == self.solution@
    }

    /// `e` is the error of the first column, in the order listed, that does
    /// not convert.
    open spec fn decode_error(&self, e: DatabaseError) -> bool {
        if self.parent_coin_hash@.len() != 32 {
            e == length_error(self.parent_coin_hash@, 32)
        } else if self.puzzle_hash@.len() != 32 {
            e == length_error(self.puzzle_hash@, 32)
        } else {
            e == length_error(self.amount@, 8)
        }
    }

    fn decode_row(self) -> (r: Result<CoinSpend, DatabaseError>) {
        let parent_coin_info: [u8; 32] = match self.parent_coin_hash.convert() {
            Ok(v) => v,
            Err(e) => return Err(e),
        };
        let puzzle_hash: [u8; 32] = match self.puzzle_hash.convert() {
            Ok(v) => v,
            Err(e) => return Err(e),
        };
        let amount: u64 = match self.amount.convert() {
            Ok(v) => v,
            Err(e) => return Err(e),
        };
        Ok(CoinSpend {
            coin: Coin { parent_coin_info, puzzle_hash, amount },
            puzzle_reveal: self.puzzle_reveal,
            solution: self.solution,
        })
    }
}

/// Decodes the coin spends of a mempool item, in their stored order; fails
/// with the error of the first row that does not decode.
pub fn mempool_coin_spends_rows(rows: Vec<CoinSpendColumns>) -> (r: Result<Vec<CoinSpend>, DatabaseError>)
    ensures
        r is Ok <==> forall|i: int| 0 <= i < rows@.len() ==> #[trigger] rows@[i].decodable(),
        r matches Ok(spends) ==> spends@.len() == rows@.len() && forall|i: int|
            0 <= i < rows@.len() ==> #[trigger] rows@[i].decodes_to(spends@[i]),
        r matches Err(e) ==> first_row_error(rows@, e),
{
    decode_rows(rows)
}

} // verus!
