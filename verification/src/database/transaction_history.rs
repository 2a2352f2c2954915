//! The history of confirmed transactions the wallet took part in, with the
//! coins each spent or created, and the coins of pending mempool items.

use vstd::prelude::*;

use crate::convert::{be_value, Convert};
use crate::database::coins::length_error;
use crate::database::sql::{decode_rows, first_row_error, RowColumns};
use crate::error::DatabaseError;

verus! {

/// A confirmed transaction: its hash, height, fee and confirmation time.
#[derive(Debug, Clone, Copy)]
pub struct TransactionHistory {
    pub hash: [u8; 32],
    pub height: u32,
    pub fee: u64,
    pub confirmed_timestamp: u64,
}

/// A coin of a confirmed transaction, and whether it was spent by it (an
/// input) or created by it.
#[derive(Debug, Clone, Copy)]
pub struct TransactionHistoryCoin {
    pub coin_id: [u8; 32],
    pub is_input: bool,
}

/// A confirmed transaction with its coins.
#[derive(Debug, Clone)]
pub struct TransactionHistoryWithCoins {
    pub hash: [u8; 32],
    pub height: u32,
    pub fee: u64,
    pub confirmed_timestamp: u64,
    pub coins: Vec<TransactionHistoryCoin>,
}

/// The stored columns of a coin of a transaction, or of a mempool item.
#[derive(Debug, Clone)]
pub struct HistoryCoinColumns {
    pub coin_id: Vec<u8>,
    pub is_input: bool,
}

impl RowColumns for HistoryCoinColumns {
    type Row = TransactionHistoryCoin;

    open spec fn decodable(&self) -> bool {
        self.coin_id@.len() == 32
    }

    open spec fn decodes_to(&self, coin: TransactionHistoryCoin) -> bool {
        &&& coin.coin_id@ == self.coin_id@
        &&& coin.is_input == self.is_input
    }

    open spec fn decode_error(&self, e: DatabaseError) -> bool {
        e == length_error(self.coin_id@, 32)
    }

    fn decode_row(self) -> (r: Result<TransactionHistoryCoin, DatabaseError>) {
        match self.coin_id.convert() {
            Ok(coin_id) => Ok(TransactionHistoryCoin { coin_id, is_input: self.is_input }),
            Err(e) => Err(e),
        }
    }
}

/// The stored columns of a confirmed transaction.
#[derive(Debug, Clone)]
pub struct TransactionHistoryColumns {
    pub hash: Vec<u8>,
    pub height: i64,
    pub fee: Vec<u8>,
    pub confirmed_timestamp: i64,
}

impl TransactionHistoryColumns {
    /// The hash has 32 bytes, the height fits 32 unsigned bits, the fee has 8
    /// bytes.
    pub open spec fn decodable(&self) -> bool {
        &&& self.hash@.len() == 32
        &&& 0 <= self.height <= u32::MAX
        &&& self.fee@.len() == 8
    }

    /// `e` is the error of the first column, in the order listed, that does
    /// not convert.
    pub open spec fn decode_error(&self, e: DatabaseError) -> bool {
        if self.hash@.len() != 32 {
            e == length_error(self.hash@, 32)
        } else if !(0 <= self.height <= u32::MAX) {
            e is PrecisionLost
        } else {
            e == length_error(self.fee@, 8)
        }
    }
}

/// Assembles a confirmed transaction from its stored columns and those of its
/// coins. The coins are decoded first, so the error of the first coin that
/// does not decode comes before any error of the transaction's columns; the
/// confirmation time is read as unsigned.
pub fn transaction_history_of(
    columns: TransactionHistoryColumns,
    coins: Vec<HistoryCoinColumns>,
) -> (r: Result<TransactionHistoryWithCoins, DatabaseError>)
    ensures
        r is Ok <==> columns.decodable() && forall|i: int| 0 <= i < coins@.len() ==> #[trigger] coins@[i].decodable(),
        r matches Ok(t) ==> {
            &&& t.hash@ == columns.hash@
            &&& t.height == columns.height
            &&& t.fee == be_value(columns.fee@)
            &&& t.confirmed_timestamp == columns.confirmed_timestamp as u64
            &&& t.coins@.len() == coins@.len()
            &&& forall|i: int| 0 <= i < coins@.len() ==> #[trigger] coins@[i].decodes_to(t.coins@[i])
        },
        r matches Err(e) ==> if forall|i: int| 0 <= i < coins@.len() ==> #[trigger] coins@[i].decodable() {
            columns.decode_error(e)
        } else {
            first_row_error(coins@, e)
        },
{
    let coins = match decode_rows(coins) {
        Ok(c) => c,
        Err(e) => return Err(e),
    };
    let hash: [u8; 32] = match columns.hash.convert() {
        Ok(v) => v,
        Err(e) => return Err(e),
    };
    let height: u32 = match columns.height.convert() {
        Ok(v) => v,
        Err(e) => return Err(e),
    };
    let fee: u64 = match columns.fee.convert() {
        Ok(v) => v,
        Err(e) => return Err(e),
    };
    Ok(TransactionHistoryWithCoins {
        hash,
        height,
        fee,
        confirmed_timestamp: #[verifier::truncate] (columns.confirmed_timestamp as u64),
        coins,
    })
}

/// Decodes the coins of a mempool item, each with whether it is spent by the
/// item; fails with the error of the first row that does not decode.
pub fn mempool_coin_ids_rows(rows: Vec<HistoryCoinColumns>) -> (r: Result<Vec<([u8; 32], bool)>, DatabaseError>)
    ensures
        r is Ok <==> forall|i: int| 0 <= i < rows@.len() ==> #[trigger] rows@[i].decodable(),
        r matches Ok(coins) ==> coins@.len() == rows@.len() && forall|i: int|
            0 <= i < rows@.len() ==> (#[trigger] coins@[i]).0@ == rows@[i].coin_id@ && coins@[i].1 == rows@[i].is_input,
        r matches Err(e) ==> first_row_error(rows@, e),
{
    let ghost all = rows@;
    let decoded = match decode_rows(rows) {
        Ok(d) => d,
        Err(e) => return Err(e),
    };
    let ghost d = decoded@;
    let mut out: Vec<([u8; 32], bool)> = Vec::new();
    let mut i: usize = 0;
    while i < decoded.len()
        invariant
            d == decoded@,
            d.len() == all.len(),
            forall|j: int| 0 <= j < all.len() ==> #[trigger] all[j].decodes_to(d[j]),
            i <= d.len(),
            out@.len() == i,
            forall|j: int| 0 <= j < i ==> (#[trigger] out@[j]).0@ == all[j].coin_id@ && out@[j].1 == all[j].is_input,
        decreases d.len() - i,
    {
        let coin = decoded[i];
        proof {
            assert(all[i as int].decodes_to(d[i as int]));
        }
        out.push((coin.coin_id, coin.is_input));
        i = i + 1;
    }
    Ok(out)
}

} // verus!
