//! The coin records of CATs, DIDs and NFTs that the sync engine keeps, and
//! their decoding: each coin with the lineage proof of its parent.

use vstd::prelude::*;

use crate::convert::{be_value, Convert};
use crate::database::coin_states::CoinSql;
use crate::database::coins::{
    length_error, opt_bytes_column, opt_hash, opt_hash_ok, opt_int, opt_length_error, opt_u32_int,
    opt_u32_ok, Coin,
};
use crate::database::assets::opt_text;
use crate::database::sql::{
    contains_text, new_query, occurs_at, push_sql, query_binds, query_sql, RowColumns, SqlQuery, SqlValue,
};
use crate::keychain::bls::{public_key_check, public_key_valid};
use crate::error::DatabaseError;

verus! {

/// The proof that a coin descends from an asset's coin: its parent's parent
/// coin id, inner puzzle hash and amount.
#[derive(Debug, Clone, Copy, PartialEq, Eq)]
pub struct LineageProof {
    pub parent_parent_coin_info: [u8; 32],
    pub parent_inner_puzzle_hash: [u8; 32],
    pub parent_amount: u64,
}

/// The stored columns of a lineage proof.
#[derive(Debug, Clone)]
pub struct LineageSql {
    pub parent_parent_coin_id: Vec<u8>,
    pub parent_inner_puzzle_hash: Vec<u8>,
    pub parent_amount: Vec<u8>,
}

impl LineageSql {
    /// The hashes have 32 bytes and the amount 8.
    pub open spec fn lineage_decodable(&self) -> bool {
        &&& self.parent_parent_coin_id@.len() == 32
        &&& self.parent_inner_puzzle_hash@.len() == 32
        &&& self.parent_amount@.len() == 8
    }

    /// `proof` holds these columns' values.
    pub open spec fn lineage_decodes_to(&self, proof: LineageProof) -> bool {
        &&& proof.parent_parent_coin_info@ == self.parent_parent_coin_id@
        &&& proof.parent_inner_puzzle_hash@ == self.parent_inner_puzzle_hash@
        &&& proof.parent_amount == be_value(self.parent_amount@)
    }

    /// `e` is the error of the first column, in the order listed, that does
    /// not convert.
    pub open spec fn lineage_error(&self, e: DatabaseError) -> bool {
        if self.parent_parent_coin_id@.len() != 32 {
            e == length_error(self.parent_parent_coin_id@, 32)
        } else if self.parent_inner_puzzle_hash@.len() != 32 {
            e == length_error(self.parent_inner_puzzle_hash@, 32)
        } else {
            e == length_error(self.parent_amount@, 8)
        }
    }

    /// Converts the columns into a lineage proof; fails with the error of the
    /// first column that does not convert.
    pub fn decode(self) -> (r: Result<LineageProof, DatabaseError>)
        ensures
            r is Ok <==> self.lineage_decodable(),
            r matches Ok(proof) ==> self.lineage_decodes_to(proof),
            r matches Err(e) ==> self.lineage_error(e),
    {
        let parent_parent_coin_info: [u8; 32] = match self.parent_parent_coin_id.convert() {
            Ok(v) => v,
            Err(e) => return Err(e),
        };
        let parent_inner_puzzle_hash: [u8; 32] = match self.parent_inner_puzzle_hash.convert() {
            Ok(v) => v,
            Err(e) => return Err(e),
        };
        let parent_amount: u64 = match self.parent_amount.convert() {
            Ok(v) => v,
            Err(e) => return Err(e),
        };
        Ok(LineageProof { parent_parent_coin_info, parent_inner_puzzle_hash, parent_amount })
    }
}

/// A CAT coin, its lineage proof and the puzzle hash it pays to.
#[derive(Debug, Clone, Copy)]
pub struct CatCoinRow {
    pub coin: Coin,
    pub lineage_proof: LineageProof,
    pub p2_puzzle_hash: [u8; 32],
}

/// A CAT coin as the sync engine records it; the same as a CAT coin row.
pub type CatCoin = CatCoinRow;

/// A CAT the wallet knows of: its asset id, what it is called and shows, and
/// whether it is visible.
#[derive(Debug, Clone)]
pub struct CatRow {
    pub asset_id: [u8; 32],
    pub name: Option<String>,
    pub ticker: Option<String>,
    pub description: Option<String>,
    pub icon_url: Option<String>,
    pub visible: bool,
}

/// A spendable CAT: its coin, lineage proof, the puzzle hash it pays to and
/// its asset id.
#[derive(Debug, Clone, Copy)]
pub struct Cat {
    pub coin: Coin,
    pub lineage_proof: Option<LineageProof>,
    pub p2_puzzle_hash: [u8; 32],
    pub asset_id: [u8; 32],
}

/// The stored columns of a CAT coin.
#[derive(Debug, Clone)]
pub struct CatCoinSql {
    pub coin: CoinSql,
    pub lineage: LineageSql,
    pub p2_puzzle_hash: Vec<u8>,
}

impl RowColumns for CatCoinSql {
    type Row = CatCoinRow;

    open spec fn decodable(&self) -> bool {
        &&& self.coin.coin_decodable()
        &&& self.lineage.lineage_decodable()
        &&& self.p2_puzzle_hash@.len() == 32
    }

    open spec fn decodes_to(&self, row: CatCoinRow) -> bool {
        &&& self.coin.coin_decodes_to(row.coin)
        &&& self.lineage.lineage_decodes_to(row.lineage_proof)
        &&& row.p2_puzzle_hash@ == self.p2_puzzle_hash@
    }

    /// `e` is the error of the first column, in the order listed, that does
    /// not convert.
    open spec fn decode_error(&self, e: DatabaseError) -> bool {
        if !self.coin.coin_decodable() {
            self.coin.coin_error(e)
        } else if !self.lineage.lineage_decodable() {
            self.lineage.lineage_error(e)
        } else {
            e == length_error(self.p2_puzzle_hash@, 32)
        }
    }

    fn decode_row(self) -> (r: Result<CatCoinRow, DatabaseError>) {
        let coin = match self.coin.decode() {
            Ok(v) => v,
            Err(e) => return Err(e),
        };
        let lineage_proof = match self.lineage.decode() {
            Ok(v) => v,
            Err(e) => return Err(e),
        };
        let p2_puzzle_hash: [u8; 32] = match self.p2_puzzle_hash.convert() {
            Ok(v) => v,
            Err(e) => return Err(e),
        };
        Ok(CatCoinRow { coin, lineage_proof, p2_puzzle_hash })
    }
}

/// The stored columns of a CAT coin with its asset id.
#[derive(Debug, Clone)]
pub struct FullCatCoinSql {
    pub coin: CoinSql,
    pub lineage: LineageSql,
    pub p2_puzzle_hash: Vec<u8>,
    pub asset_id: Vec<u8>,
}

impl RowColumns for FullCatCoinSql {
    type Row = Cat;

    open spec fn decodable(&self) -> bool {
        &&& self.coin.coin_decodable()
        &&& self.lineage.lineage_decodable()
        &&& self.p2_puzzle_hash@.len() == 32
        &&& self.asset_id@.len() == 32
    }

    /// A stored CAT coin always carries its lineage proof.
    open spec fn decodes_to(&self, cat: Cat) -> bool {
        &&& self.coin.coin_decodes_to(cat.coin)
        &&& cat.lineage_proof matches Some(p) && self.lineage.lineage_decodes_to(p)
        &&& cat.p2_puzzle_hash@ == self.p2_puzzle_hash@
        &&& cat.asset_id@ == self.asset_id@
    }

    /// `e` is the error of the first column, in the order listed, that does
    /// not convert.
    open spec fn decode_error(&self, e: DatabaseError) -> bool {
        if !self.coin.coin_decodable() {
            self.coin.coin_error(e)
        } else if !self.lineage.lineage_decodable() {
            self.lineage.lineage_error(e)
        } else if self.p2_puzzle_hash@.len() != 32 {
            e == length_error(self.p2_puzzle_hash@, 32)
        } else {
            e == length_error(self.asset_id@, 32)
        }
    }

    fn decode_row(self) -> (r: Result<Cat, DatabaseError>) {
        let coin = match self.coin.decode() {
            Ok(v) => v,
            Err(e) => return Err(e),
        };
        let lineage_proof = match self.lineage.decode() {
            Ok(v) => v,
            Err(e) => return Err(e),
        };
        let p2_puzzle_hash: [u8; 32] = match self.p2_puzzle_hash.convert() {
            Ok(v) => v,
            Err(e) => return Err(e),
        };
        let asset_id: [u8; 32] = match self.asset_id.convert() {
            Ok(v) => v,
            Err(e) => return Err(e),
        };
        Ok(Cat { coin, lineage_proof: Some(lineage_proof), p2_puzzle_hash, asset_id })
    }
}

/// The state of a DID singleton: its launcher id, recovery terms, metadata
/// and the puzzle hash it pays to.
#[derive(Debug, Clone)]
pub struct DidInfo {
    pub launcher_id: [u8; 32],
    pub recovery_list_hash: Option<[u8; 32]>,
    pub num_verifications_required: u64,
    pub metadata: Vec<u8>,
    pub p2_puzzle_hash: [u8; 32],
}

/// A spendable DID: its coin, the lineage proof of its parent and its state.
#[derive(Debug, Clone)]
pub struct Did {
    pub coin: Coin,
    pub proof: LineageProof,
    pub info: DidInfo,
}

/// The stored columns of a DID coin.
#[derive(Debug, Clone)]
pub struct FullDidCoinSql {
    pub coin: CoinSql,
    pub lineage: LineageSql,
    pub launcher_id: Vec<u8>,
    pub recovery_list_hash: Option<Vec<u8>>,
    pub num_verifications_required: Vec<u8>,
    pub metadata: Vec<u8>,
    pub p2_puzzle_hash: Vec<u8>,
}

impl RowColumns for FullDidCoinSql {
    type Row = Did;

    open spec fn decodable(&self) -> bool {
        &&& self.coin.coin_decodable()
        &&& self.lineage.lineage_decodable()
        &&& self.launcher_id@.len() == 32
        &&& opt_hash_ok(self.recovery_list_hash)
        &&& self.num_verifications_required@.len() == 8
        &&& self.p2_puzzle_hash@.len() == 32
    }

    open spec fn decodes_to(&self, did: Did) -> bool {
        &&& self.coin.coin_decodes_to(did.coin)
        &&& self.lineage.lineage_decodes_to(did.proof)
        &&& did.info.launcher_id@ == self.launcher_id@
        &&& opt_hash(did.info.recovery_list_hash) == opt_bytes_column(self.recovery_list_hash)
        &&& did.info.num_verifications_required == be_value(self.num_verifications_required@)
        &&& did.info.metadata@ == self.metadata@
        &&& did.info.p2_puzzle_hash@ == self.p2_puzzle_hash@
    }

    /// `e` is the error of the first column, in the order listed, that does
    /// not convert.
    open spec fn decode_error(&self, e: DatabaseError) -> bool {
        if !self.coin.coin_decodable() {
            self.coin.coin_error(e)
        } else if !self.lineage.lineage_decodable() {
            self.lineage.lineage_error(e)
        } else if self.launcher_id@.len() != 32 {
            e == length_error(self.launcher_id@, 32)
        } else if !opt_hash_ok(self.recovery_list_hash) {
            opt_length_error(self.recovery_list_hash, e)
        } else if self.num_verifications_required@.len() != 8 {
            e == length_error(self.num_verifications_required@, 8)
        } else {
            e == length_error(self.p2_puzzle_hash@, 32)
        }
    }

    fn decode_row(self) -> (r: Result<Did, DatabaseError>) {
        let coin = match self.coin.decode() {
            Ok(v) => v,
            Err(e) => return Err(e),
        };
        let proof = match self.lineage.decode() {
            Ok(v) => v,
            Err(e) => return Err(e),
        };
        let launcher_id: [u8; 32] = match self.launcher_id.convert() {
            Ok(v) => v,
            Err(e) => return Err(e),
        };
        let recovery_list_hash: Option<[u8; 32]> = match self.recovery_list_hash.convert() {
            Ok(v) => v,
            Err(e) => return Err(e),
        };
        let num_verifications_required: u64 = match self.num_verifications_required.convert() {
            Ok(v) => v,
            Err(e) => return Err(e),
        };
        let p2_puzzle_hash: [u8; 32] = match self.p2_puzzle_hash.convert() {
            Ok(v) => v,
            Err(e) => return Err(e),
        };
        Ok(Did {
            coin,
            proof,
            info: DidInfo {
                launcher_id,
                recovery_list_hash,
                num_verifications_required,
                metadata: self.metadata,
                p2_puzzle_hash,
            },
        })
    }
}

/// The stored columns of an owned DID coin, whose number of verifications is
/// stored as an integer.
#[derive(Debug, Clone)]
pub struct OwnedDidCoinSql {
    pub coin: CoinSql,
    pub lineage: LineageSql,
    pub launcher_id: Vec<u8>,
    pub recovery_list_hash: Option<Vec<u8>>,
    pub num_verifications_required: i64,
    pub metadata: Vec<u8>,
    pub p2_puzzle_hash: Vec<u8>,
}

impl RowColumns for OwnedDidCoinSql {
    type Row = Did;

    open spec fn decodable(&self) -> bool {
        &&& self.coin.coin_decodable()
        &&& self.lineage.lineage_decodable()
        &&& self.launcher_id@.len() == 32
        &&& opt_hash_ok(self.recovery_list_hash)
        &&& 0 <= self.num_verifications_required
        &&& self.p2_puzzle_hash@.len() == 32
    }

    open spec fn decodes_to(&self, did: Did) -> bool {
        &&& self.coin.coin_decodes_to(did.coin)
        &&& self.lineage.lineage_decodes_to(did.proof)
        &&& did.info.launcher_id@ == self.launcher_id@
        &&& opt_hash(did.info.recovery_list_hash) == opt_bytes_column(self.recovery_list_hash)
        &&& did.info.num_verifications_required == self.num_verifications_required
        &&& did.info.metadata@ == self.metadata@
        &&& did.info.p2_puzzle_hash@ == self.p2_puzzle_hash@
    }

    /// `e` is the error of the first column, in the order listed, that does
    /// not convert.
    open spec fn decode_error(&self, e: DatabaseError) -> bool {
        if !self.coin.coin_decodable() {
            self.coin.coin_error(e)
        } else if !self.lineage.lineage_decodable() {
            self.lineage.lineage_error(e)
        } else if self.launcher_id@.len() != 32 {
            e == length_error(self.launcher_id@, 32)
        } else if !opt_hash_ok(self.recovery_list_hash) {
            opt_length_error(self.recovery_list_hash, e)
        } else if self.num_verifications_required < 0 {
            e is PrecisionLost
        } else {
            e == length_error(self.p2_puzzle_hash@, 32)
        }
    }

    fn decode_row(self) -> (r: Result<Did, DatabaseError>) {
        let coin = match self.coin.decode() {
            Ok(v) => v,
            Err(e) => return Err(e),
        };
        let proof = match self.lineage.decode() {
            Ok(v) => v,
            Err(e) => return Err(e),
        };
        let launcher_id: [u8; 32] = match self.launcher_id.convert() {
            Ok(v) => v,
            Err(e) => return Err(e),
        };
        let recovery_list_hash: Option<[u8; 32]> = match self.recovery_list_hash.convert() {
            Ok(v) => v,
            Err(e) => return Err(e),
        };
        let num_verifications_required: u64 = match self.num_verifications_required.convert() {
            Ok(v) => v,
            Err(e) => return Err(e),
        };
        let p2_puzzle_hash: [u8; 32] = match self.p2_puzzle_hash.convert() {
            Ok(v) => v,
            Err(e) => return Err(e),
        };
        Ok(Did {
            coin,
            proof,
            info: DidInfo {
                launcher_id,
                recovery_list_hash,
                num_verifications_required,
                metadata: self.metadata,
                p2_puzzle_hash,
            },
        })
    }
}

/// What a CAT coin's puzzle commits to: the asset id, the hidden puzzle of a
/// revocable CAT, and the puzzle hash it pays to.
#[derive(Debug, Clone, Copy)]
pub struct CatInfo {
    pub asset_id: [u8; 32],
    pub hidden_puzzle_hash: Option<[u8; 32]>,
    pub p2_puzzle_hash: [u8; 32],
}

/// A CAT coin the wallet can spend: the coin, its parent's lineage proof and
/// what its puzzle commits to.
#[derive(Debug, Clone, Copy)]
pub struct SpendableCat {
    pub coin: Coin,
    pub lineage_proof: Option<LineageProof>,
    pub info: CatInfo,
}

/// The stored columns of an owned CAT coin.
#[derive(Debug, Clone)]
pub struct OwnedCatCoinSql {
    pub coin: CoinSql,
    pub lineage: LineageSql,
    pub asset_id: Vec<u8>,
    pub hidden_puzzle_hash: Option<Vec<u8>>,
    pub p2_puzzle_hash: Vec<u8>,
}

impl RowColumns for OwnedCatCoinSql {
    type Row = SpendableCat;

    open spec fn decodable(&self) -> bool {
        &&& self.coin.coin_decodable()
        &&& self.lineage.lineage_decodable()
        &&& self.asset_id@.len() == 32
        &&& opt_hash_ok(self.hidden_puzzle_hash)
        &&& self.p2_puzzle_hash@.len() == 32
    }

    /// A stored CAT coin always carries its lineage proof.
    open spec fn decodes_to(&self, cat: SpendableCat) -> bool {
        &&& self.coin.coin_decodes_to(cat.coin)
        &&& cat.lineage_proof matches Some(p) && self.lineage.lineage_decodes_to(p)
        &&& cat.info.asset_id@ == self.asset_id@
        &&& opt_hash(cat.info.hidden_puzzle_hash) == opt_bytes_column(self.hidden_puzzle_hash)
        &&& cat.info.p2_puzzle_hash@ == self.p2_puzzle_hash@
    }

    /// `e` is the error of the first column, in the order listed, that does
    /// not convert.
    open spec fn decode_error(&self, e: DatabaseError) -> bool {
        if !self.coin.coin_decodable() {
            self.coin.coin_error(e)
        } else if !self.lineage.lineage_decodable() {
            self.lineage.lineage_error(e)
        } else if self.asset_id@.len() != 32 {
            e == length_error(self.asset_id@, 32)
        } else if !opt_hash_ok(self.hidden_puzzle_hash) {
            opt_length_error(self.hidden_puzzle_hash, e)
        } else {
            e == length_error(self.p2_puzzle_hash@, 32)
        }
    }

    fn decode_row(self) -> (r: Result<SpendableCat, DatabaseError>) {
        let coin = match self.coin.decode() {
            Ok(v) => v,
            Err(e) => return Err(e),
        };
        let lineage_proof = match self.lineage.decode() {
            Ok(v) => v,
            Err(e) => return Err(e),
        };
        let asset_id: [u8; 32] = match self.asset_id.convert() {
            Ok(v) => v,
            Err(e) => return Err(e),
        };
        let hidden_puzzle_hash: Option<[u8; 32]> = match self.hidden_puzzle_hash.convert() {
            Ok(v) => v,
            Err(e) => return Err(e),
        };
        let p2_puzzle_hash: [u8; 32] = match self.p2_puzzle_hash.convert() {
            Ok(v) => v,
            Err(e) => return Err(e),
        };
        Ok(SpendableCat {
            coin,
            lineage_proof: Some(lineage_proof),
            info: CatInfo { asset_id, hidden_puzzle_hash, p2_puzzle_hash },
        })
    }
}

/// What the wallet records of a DID's current coin.
#[derive(Debug, Clone, Copy)]
pub struct DidCoinInfo {
    pub coin_id: [u8; 32],
    pub amount: u64,
    pub p2_puzzle_hash: [u8; 32],
    pub recovery_list_hash: Option<[u8; 32]>,
    pub created_height: Option<u32>,
    pub transaction_id: Option<[u8; 32]>,
}

/// The stored columns of a DID's current coin.
#[derive(Debug, Clone)]
pub struct DidCoinInfoSql {
    pub coin_id: Vec<u8>,
    pub amount: Vec<u8>,
    pub p2_puzzle_hash: Vec<u8>,
    pub recovery_list_hash: Option<Vec<u8>>,
    pub created_height: Option<i64>,
    pub transaction_id: Option<Vec<u8>>,
}

impl RowColumns for DidCoinInfoSql {
    type Row = DidCoinInfo;

    open spec fn decodable(&self) -> bool {
        &&& self.coin_id@.len() == 32
        &&& self.amount@.len() == 8
        &&& self.p2_puzzle_hash@.len() == 32
        &&& opt_hash_ok(self.recovery_list_hash)
        &&& opt_u32_ok(self.created_height)
        &&& opt_hash_ok(self.transaction_id)
    }

    open spec fn decodes_to(&self, info: DidCoinInfo) -> bool {
        &&& info.coin_id@ == self.coin_id@
        &&& info.amount == be_value(self.amount@)
        &&& info.p2_puzzle_hash@ == self.p2_puzzle_hash@
        &&& opt_hash(info.recovery_list_hash) == opt_bytes_column(self.recovery_list_hash)
        &&& opt_u32_int(info.created_height) == opt_int(self.created_height)
        &&& opt_hash(info.transaction_id) == opt_bytes_column(self.transaction_id)
    }

    /// `e` is the error of the first column, in the order listed, that does
    /// not convert.
    open spec fn decode_error(&self, e: DatabaseError) -> bool {
        if self.coin_id@.len() != 32 {
            e == length_error(self.coin_id@, 32)
        } else if self.amount@.len() != 8 {
            e == length_error(self.amount@, 8)
        } else if self.p2_puzzle_hash@.len() != 32 {
            e == length_error(self.p2_puzzle_hash@, 32)
        } else if !opt_hash_ok(self.recovery_list_hash) {
            opt_length_error(self.recovery_list_hash, e)
        } else if !opt_u32_ok(self.created_height) {
            e is PrecisionLost
        } else {
            opt_length_error(self.transaction_id, e)
        }
    }

    fn decode_row(self) -> (r: Result<DidCoinInfo, DatabaseError>) {
        let coin_id: [u8; 32] = match self.coin_id.convert() {
            Ok(v) => v,
            Err(e) => return Err(e),
        };
        let amount: u64 = match self.amount.convert() {
            Ok(v) => v,
            Err(e) => return Err(e),
        };
        let p2_puzzle_hash: [u8; 32] = match self.p2_puzzle_hash.convert() {
            Ok(v) => v,
            Err(e) => return Err(e),
        };
        let recovery_list_hash: Option<[u8; 32]> = match self.recovery_list_hash.convert() {
            Ok(v) => v,
            Err(e) => return Err(e),
        };
        let created_height: Option<u32> = match self.created_height.convert() {
            Ok(v) => v,
            Err(e) => return Err(e),
        };
        let transaction_id: Option<[u8; 32]> = match self.transaction_id.convert() {
            Ok(v) => v,
            Err(e) => return Err(e),
        };
        Ok(DidCoinInfo { coin_id, amount, p2_puzzle_hash, recovery_list_hash, created_height, transaction_id })
    }
}

/// The state of an NFT singleton: its launcher id, metadata, owner and
/// royalty terms, and the puzzle hash it pays to.
#[derive(Debug, Clone)]
pub struct NftInfo {
    pub launcher_id: [u8; 32],
    pub metadata: Vec<u8>,
    pub metadata_updater_puzzle_hash: [u8; 32],
    pub current_owner: Option<[u8; 32]>,
    pub royalty_puzzle_hash: [u8; 32],
    pub royalty_ten_thousandths: u16,
    pub p2_puzzle_hash: [u8; 32],
}

/// A spendable NFT: its coin, the lineage proof of its parent and its state.
#[derive(Debug, Clone)]
pub struct Nft {
    pub coin: Coin,
    pub proof: LineageProof,
    pub info: NftInfo,
}

/// The stored columns of an NFT coin.
#[derive(Debug, Clone)]
pub struct FullNftCoinSql {
    pub coin: CoinSql,
    pub lineage: LineageSql,
    pub launcher_id: Vec<u8>,
    pub metadata: Vec<u8>,
    pub metadata_updater_puzzle_hash: Vec<u8>,
    pub current_owner: Option<Vec<u8>>,
    pub royalty_puzzle_hash: Vec<u8>,
    pub royalty_ten_thousandths: i64,
    pub p2_puzzle_hash: Vec<u8>,
}

impl RowColumns for FullNftCoinSql {
    type Row = Nft;

    /// Every column converts; the royalty fits 16 unsigned bits.
    open spec fn decodable(&self) -> bool {
        &&& self.coin.coin_decodable()
        &&& self.lineage.lineage_decodable()
        &&& self.launcher_id@.len() == 32
        &&& self.metadata_updater_puzzle_hash@.len() == 32
        &&& opt_hash_ok(self.current_owner)
        &&& self.royalty_puzzle_hash@.len() == 32
        &&& 0 <= self.royalty_ten_thousandths <= u16::MAX
        &&& self.p2_puzzle_hash@.len() == 32
    }

    open spec fn decodes_to(&self, nft: Nft) -> bool {
        &&& self.coin.coin_decodes_to(nft.coin)
        &&& self.lineage.lineage_decodes_to(nft.proof)
        &&& nft.info.launcher_id@ == self.launcher_id@
        &&& nft.info.metadata@ == self.metadata@
        &&& nft.info.metadata_updater_puzzle_hash@ == self.metadata_updater_puzzle_hash@
        &&& opt_hash(nft.info.current_owner) == opt_bytes_column(self.current_owner)
        &&& nft.info.royalty_puzzle_hash@ == self.royalty_puzzle_hash@
        &&& nft.info.royalty_ten_thousandths == self.royalty_ten_thousandths
        &&& nft.info.p2_puzzle_hash@ == self.p2_puzzle_hash@
    }

    /// `e` is the error of the first column, in the order listed, that does
    /// not convert.
    open spec fn decode_error(&self, e: DatabaseError) -> bool {
        if !self.coin.coin_decodable() {
            self.coin.coin_error(e)
        } else if !self.lineage.lineage_decodable() {
            self.lineage.lineage_error(e)
        } else if self.launcher_id@.len() != 32 {
            e == length_error(self.launcher_id@, 32)
        } else if self.metadata_updater_puzzle_hash@.len() != 32 {
            e == length_error(self.metadata_updater_puzzle_hash@, 32)
        } else if !opt_hash_ok(self.current_owner) {
            opt_length_error(self.current_owner, e)
        } else if self.royalty_puzzle_hash@.len() != 32 {
            e == length_error(self.royalty_puzzle_hash@, 32)
        } else if !(0 <= self.royalty_ten_thousandths <= u16::MAX) {
            e is PrecisionLost
        } else {
            e == length_error(self.p2_puzzle_hash@, 32)
        }
    }

    fn decode_row(self) -> (r: Result<Nft, DatabaseError>) {
        let coin = match self.coin.decode() {
            Ok(v) => v,
            Err(e) => return Err(e),
        };
        let proof = match self.lineage.decode() {
            Ok(v) => v,
            Err(e) => return Err(e),
        };
        let launcher_id: [u8; 32] = match self.launcher_id.convert() {
            Ok(v) => v,
            Err(e) => return Err(e),
        };
        let metadata_updater_puzzle_hash: [u8; 32] = match self.metadata_updater_puzzle_hash.convert() {
            Ok(v) => v,
            Err(e) => return Err(e),
        };
        let current_owner: Option<[u8; 32]> = match self.current_owner.convert() {
            Ok(v) => v,
            Err(e) => return Err(e),
        };
        let royalty_puzzle_hash: [u8; 32] = match self.royalty_puzzle_hash.convert() {
            Ok(v) => v,
            Err(e) => return Err(e),
        };
        let royalty_ten_thousandths: u16 = match self.royalty_ten_thousandths.convert() {
            Ok(v) => v,
            Err(e) => return Err(e),
        };
        let p2_puzzle_hash: [u8; 32] = match self.p2_puzzle_hash.convert() {
            Ok(v) => v,
            Err(e) => return Err(e),
        };
        Ok(Nft {
            coin,
            proof,
            info: NftInfo {
                launcher_id,
                metadata: self.metadata,
                metadata_updater_puzzle_hash,
                current_owner,
                royalty_puzzle_hash,
                royalty_ten_thousandths,
                p2_puzzle_hash,
            },
        })
    }
}

/// The standard coins an offer gives or asks for.
#[derive(Debug, Clone, Copy)]
pub struct OfferXchRow {
    pub offer_id: [u8; 32],
    pub requested: bool,
    pub amount: u64,
    pub royalty: u64,
}

/// The stored columns of an offer's standard coins.
#[derive(Debug, Clone)]
pub struct OfferXchSql {
    pub offer_id: Vec<u8>,
    pub requested: bool,
    pub amount: Vec<u8>,
    pub royalty: Vec<u8>,
}

impl RowColumns for OfferXchSql {
    type Row = OfferXchRow;

    open spec fn decodable(&self) -> bool {
        &&& self.offer_id@.len() == 32
        &&& self.amount@.len() == 8
        &&& self.royalty@.len() == 8
    }

    open spec fn decodes_to(&self, row: OfferXchRow) -> bool {
        &&& row.offer_id@ == self.offer_id@
        &&& row.requested == self.requested
        &&& row.amount == be_value(self.amount@)
        &&& row.royalty == be_value(self.royalty@)
    }

    /// `e` is the error of the first column, in the order listed, that does
    /// not convert.
    open spec fn decode_error(&self, e: DatabaseError) -> bool {
        if self.offer_id@.len() != 32 {
            e == length_error(self.offer_id@, 32)
        } else if self.amount@.len() != 8 {
            e == length_error(self.amount@, 8)
        } else {
            e == length_error(self.royalty@, 8)
        }
    }

    fn decode_row(self) -> (r: Result<OfferXchRow, DatabaseError>) {
        let offer_id: [u8; 32] = match self.offer_id.convert() {
            Ok(v) => v,
            Err(e) => return Err(e),
        };
        let amount: u64 = match self.amount.convert() {
            Ok(v) => v,
            Err(e) => return Err(e),
        };
        let royalty: u64 = match self.royalty.convert() {
            Ok(v) => v,
            Err(e) => return Err(e),
        };
        Ok(OfferXchRow { offer_id, requested: self.requested, amount, royalty })
    }
}

/// An NFT an offer gives or asks for.
#[derive(Debug, Clone)]
pub struct OfferNftRow {
    pub offer_id: [u8; 32],
    pub requested: bool,
    pub launcher_id: [u8; 32],
    pub royalty_puzzle_hash: [u8; 32],
    pub royalty_ten_thousandths: u16,
    pub name: Option<String>,
    pub thumbnail: Option<Vec<u8>>,
    pub thumbnail_mime_type: Option<String>,
}

/// The stored columns of an offer's NFT.
#[derive(Debug, Clone)]
pub struct OfferNftSql {
    pub offer_id: Vec<u8>,
    pub requested: bool,
    pub launcher_id: Vec<u8>,
    pub royalty_puzzle_hash: Vec<u8>,
    pub royalty_ten_thousandths: i64,
    pub name: Option<String>,
    pub thumbnail: Option<Vec<u8>>,
    pub thumbnail_mime_type: Option<String>,
}

impl RowColumns for OfferNftSql {
    type Row = OfferNftRow;

    open spec fn decodable(&self) -> bool {
        &&& self.offer_id@.len() == 32
        &&& self.launcher_id@.len() == 32
        &&& self.royalty_puzzle_hash@.len() == 32
        &&& 0 <= self.royalty_ten_thousandths <= u16::MAX
    }

    open spec fn decodes_to(&self, row: OfferNftRow) -> bool {
        &&& row.offer_id@ == self.offer_id@
        &&& row.requested == self.requested
        &&& row.launcher_id@ == self.launcher_id@
        &&& row.royalty_puzzle_hash@ == self.royalty_puzzle_hash@
        &&& row.royalty_ten_thousandths == self.royalty_ten_thousandths
        &&& opt_text(row.name) == opt_text(self.name)
        &&& opt_bytes_column(row.thumbnail) == opt_bytes_column(self.thumbnail)
        &&& opt_text(row.thumbnail_mime_type) == opt_text(self.thumbnail_mime_type)
    }

    /// `e` is the error of the first column, in the order listed, that does
    /// not convert.
    open spec fn decode_error(&self, e: DatabaseError) -> bool {
        if self.offer_id@.len() != 32 {
            e == length_error(self.offer_id@, 32)
        } else if self.launcher_id@.len() != 32 {
            e == length_error(self.launcher_id@, 32)
        } else if self.royalty_puzzle_hash@.len() != 32 {
            e == length_error(self.royalty_puzzle_hash@, 32)
        } else {
            e is PrecisionLost
        }
    }

    fn decode_row(self) -> (r: Result<OfferNftRow, DatabaseError>) {
        let offer_id: [u8; 32] = match self.offer_id.convert() {
            Ok(v) => v,
            Err(e) => return Err(e),
        };
        let launcher_id: [u8; 32] = match self.launcher_id.convert() {
            Ok(v) => v,
            Err(e) => return Err(e),
        };
        let royalty_puzzle_hash: [u8; 32] = match self.royalty_puzzle_hash.convert() {
            Ok(v) => v,
            Err(e) => return Err(e),
        };
        let royalty_ten_thousandths: u16 = match self.royalty_ten_thousandths.convert() {
            Ok(v) => v,
            Err(e) => return Err(e),
        };
        Ok(OfferNftRow {
            offer_id,
            requested: self.requested,
            launcher_id,
            royalty_puzzle_hash,
            royalty_ten_thousandths,
            name: self.name,
            thumbnail: self.thumbnail,
            thumbnail_mime_type: self.thumbnail_mime_type,
        })
    }
}

/// A CAT an offer gives or asks for.
#[derive(Debug, Clone)]
pub struct OfferCatRow {
    pub offer_id: [u8; 32],
    pub requested: bool,
    pub asset_id: [u8; 32],
    pub amount: u64,
    pub royalty: u64,
    pub name: Option<String>,
    pub ticker: Option<String>,
    pub icon: Option<String>,
}

/// The stored columns of an offer's CAT.
#[derive(Debug, Clone)]
pub struct OfferCatSql {
    pub offer_id: Vec<u8>,
    pub requested: bool,
    pub asset_id: Vec<u8>,
    pub amount: Vec<u8>,
    pub royalty: Vec<u8>,
    pub name: Option<String>,
    pub ticker: Option<String>,
    pub icon: Option<String>,
}

impl RowColumns for OfferCatSql {
    type Row = OfferCatRow;

    open spec fn decodable(&self) -> bool {
        &&& self.offer_id@.len() == 32
        &&& self.asset_id@.len() == 32
        &&& self.amount@.len() == 8
        &&& self.royalty@.len() == 8
    }

    open spec fn decodes_to(&self, row: OfferCatRow) -> bool {
        &&& row.offer_id@ == self.offer_id@
        &&& row.requested == self.requested
        &&& row.asset_id@ == self.asset_id@
        &&& row.amount == be_value(self.amount@)
        &&& row.royalty == be_value(self.royalty@)
        &&& opt_text(row.name) == opt_text(self.name)
        &&& opt_text(row.ticker) == opt_text(self.ticker)
        &&& opt_text(row.icon) == opt_text(self.icon)
    }

    /// `e` is the error of the first column, in the order listed, that does
    /// not convert.
    open spec fn decode_error(&self, e: DatabaseError) -> bool {
        if self.offer_id@.len() != 32 {
            e == length_error(self.offer_id@, 32)
        } else if self.asset_id@.len() != 32 {
            e == length_error(self.asset_id@, 32)
        } else if self.amount@.len() != 8 {
            e == length_error(self.amount@, 8)
        } else {
            e == length_error(self.royalty@, 8)
        }
    }

    fn decode_row(self) -> (r: Result<OfferCatRow, DatabaseError>) {
        let offer_id: [u8; 32] = match self.offer_id.convert() {
            Ok(v) => v,
            Err(e) => return Err(e),
        };
        let asset_id: [u8; 32] = match self.asset_id.convert() {
            Ok(v) => v,
            Err(e) => return Err(e),
        };
        let amount: u64 = match self.amount.convert() {
            Ok(v) => v,
            Err(e) => return Err(e),
        };
        let royalty: u64 = match self.royalty.convert() {
            Ok(v) => v,
            Err(e) => return Err(e),
        };
        Ok(OfferCatRow {
            offer_id,
            requested: self.requested,
            asset_id,
            amount,
            royalty,
            name: self.name,
            ticker: self.ticker,
            icon: self.icon,
        })
    }
}

/// An NFT collection: its id, the DID that minted it, its id in the NFTs'
/// metadata, whether it is shown, its name and icon.
#[derive(Debug, Clone)]
pub struct CollectionRow {
    pub collection_id: [u8; 32],
    pub did_id: [u8; 32],
    pub metadata_collection_id: String,
    pub visible: bool,
    pub name: Option<String>,
    pub icon: Option<String>,
}

/// The stored columns of a collection.
#[derive(Debug, Clone)]
pub struct CollectionSql {
    pub collection_id: Vec<u8>,
    pub did_id: Vec<u8>,
    pub metadata_collection_id: String,
    pub visible: bool,
    pub name: Option<String>,
    pub icon: Option<String>,
}

impl RowColumns for CollectionSql {
    type Row = CollectionRow;

    open spec fn decodable(&self) -> bool {
        &&& self.collection_id@.len() == 32
        &&& self.did_id@.len() == 32
    }

    open spec fn decodes_to(&self, row: CollectionRow) -> bool {
        &&& row.collection_id@ == self.collection_id@
        &&& row.did_id@ == self.did_id@
        &&& row.metadata_collection_id@ == self.metadata_collection_id@
        &&& row.visible == self.visible
        &&& opt_text(row.name) == opt_text(self.name)
        &&& opt_text(row.icon) == opt_text(self.icon)
    }

    /// `e` is the error of the first column, in the order listed, that does
    /// not convert.
    open spec fn decode_error(&self, e: DatabaseError) -> bool {
        if self.collection_id@.len() != 32 {
            e == length_error(self.collection_id@, 32)
        } else {
            e == length_error(self.did_id@, 32)
        }
    }

    fn decode_row(self) -> (r: Result<CollectionRow, DatabaseError>) {
        let collection_id: [u8; 32] = match self.collection_id.convert() {
            Ok(v) => v,
            Err(e) => return Err(e),
        };
        let did_id: [u8; 32] = match self.did_id.convert() {
            Ok(v) => v,
            Err(e) => return Err(e),
        };
        Ok(CollectionRow {
            collection_id,
            did_id,
            metadata_collection_id: self.metadata_collection_id,
            visible: self.visible,
            name: self.name,
            icon: self.icon,
        })
    }
}

/// A DID record: its launcher and current coin, name, ownership, visibility
/// and creation height.
#[derive(Debug, Clone)]
pub struct DidRecord {
    pub launcher_id: [u8; 32],
    pub coin_id: [u8; 32],
    pub name: Option<String>,
    pub is_owned: bool,
    pub visible: bool,
    pub created_height: Option<u32>,
}

/// The stored columns of a DID record.
#[derive(Debug, Clone)]
pub struct DidSql {
    pub launcher_id: Vec<u8>,
    pub coin_id: Vec<u8>,
    pub name: Option<String>,
    pub visible: bool,
    pub is_owned: bool,
    pub created_height: Option<i64>,
}

impl RowColumns for DidSql {
    type Row = DidRecord;

    open spec fn decodable(&self) -> bool {
        &&& self.launcher_id@.len() == 32
        &&& self.coin_id@.len() == 32
        &&& opt_u32_ok(self.created_height)
    }

    open spec fn decodes_to(&self, row: DidRecord) -> bool {
        &&& row.launcher_id@ == self.launcher_id@
        &&& row.coin_id@ == self.coin_id@
        &&& opt_text(row.name) == opt_text(self.name)
        &&& row.is_owned == self.is_owned
        &&& row.visible == self.visible
        &&& opt_u32_int(row.created_height) == opt_int(self.created_height)
    }

    /// `e` is the error of the first column, in the order listed, that does
    /// not convert.
    open spec fn decode_error(&self, e: DatabaseError) -> bool {
        if self.launcher_id@.len() != 32 {
            e == length_error(self.launcher_id@, 32)
        } else if self.coin_id@.len() != 32 {
            e == length_error(self.coin_id@, 32)
        } else {
            e is PrecisionLost
        }
    }

    fn decode_row(self) -> (r: Result<DidRecord, DatabaseError>) {
        let launcher_id: [u8; 32] = match self.launcher_id.convert() {
            Ok(v) => v,
            Err(e) => return Err(e),
        };
        let coin_id: [u8; 32] = match self.coin_id.convert() {
            Ok(v) => v,
            Err(e) => return Err(e),
        };
        let created_height: Option<u32> = match self.created_height.convert() {
            Ok(v) => v,
            Err(e) => return Err(e),
        };
        Ok(DidRecord {
            launcher_id,
            coin_id,
            name: self.name,
            is_owned: self.is_owned,
            visible: self.visible,
            created_height,
        })
    }
}

/// A derived key of the wallet: its puzzle hash, index, whether it is
/// hardened, and its synthetic public key (48 bytes, a valid key).
#[derive(Debug, Clone, Copy)]
pub struct DerivationRow {
    pub p2_puzzle_hash: [u8; 32],
    pub index: u32,
    pub hardened: bool,
    pub synthetic_key: [u8; 48],
}

/// The stored columns of a derivation.
#[derive(Debug, Clone)]
pub struct DerivationSql {
    pub p2_puzzle_hash: Vec<u8>,
    pub index: i64,
    pub hardened: bool,
    pub synthetic_key: Vec<u8>,
}

impl DerivationSql {
    /// Every column converts and the key is a valid public key.
    pub open spec fn decodable(&self) -> bool {
        &&& self.p2_puzzle_hash@.len() == 32
        &&& 0 <= self.index <= u32::MAX
        &&& self.synthetic_key@.len() == 48
        &&& public_key_valid(self.synthetic_key@)
    }

    /// `e` is the error of the first column, in the order listed, that does
    /// not convert, or, where all do, the error of a key that is no public
    /// key.
    pub open spec fn decode_error(&self, e: DatabaseError) -> bool {
        if self.p2_puzzle_hash@.len() != 32 {
            e == length_error(self.p2_puzzle_hash@, 32)
        } else if !(0 <= self.index <= u32::MAX) {
            e is PrecisionLost
        } else if self.synthetic_key@.len() != 48 {
            e == length_error(self.synthetic_key@, 48)
        } else {
            e is Bls
        }
    }

    /// `row` holds these columns' values.
    pub open spec fn decodes_to(&self, row: DerivationRow) -> bool {
        &&& row.p2_puzzle_hash@ == self.p2_puzzle_hash@
        &&& row.index == self.index
        &&& row.hardened == self.hardened
        &&& row.synthetic_key@ == self.synthetic_key@
    }

    /// Converts the columns; fails where a column does not convert or the
    /// key is no public key.
    pub fn decode(self) -> (r: Result<DerivationRow, DatabaseError>)
        ensures
            r is Ok <==> self.decodable(),
            r matches Ok(row) ==> self.decodes_to(row),
            r matches Err(e) ==> self.decode_error(e),
    {
        let p2_puzzle_hash: [u8; 32] = match self.p2_puzzle_hash.convert() {
            Ok(v) => v,
            Err(e) => return Err(e),
        };
        let index: u32 = match self.index.convert() {
            Ok(v) => v,
            Err(e) => return Err(e),
        };
        let synthetic_key: [u8; 48] = match self.synthetic_key.convert() {
            Ok(v) => v,
            Err(e) => return Err(e),
        };
        match public_key_check(&synthetic_key) {
            Ok(()) => Ok(DerivationRow { p2_puzzle_hash, index, hardened: self.hardened, synthetic_key }),
            Err(e) => Err(DatabaseError::Bls(e)),
        }
    }
}

/// An option contract record: its launcher, current coin, visibility,
/// ownership and creation height.
#[derive(Debug, Clone, Copy)]
pub struct OptionRecord {
    pub launcher_id: [u8; 32],
    pub coin_id: [u8; 32],
    pub visible: bool,
    pub is_owned: bool,
    pub created_height: Option<u32>,
}

/// The stored columns of an option contract record.
#[derive(Debug, Clone)]
pub struct OptionSql {
    pub launcher_id: Vec<u8>,
    pub coin_id: Vec<u8>,
    pub visible: bool,
    pub is_owned: bool,
    pub created_height: Option<i64>,
    pub is_pending: Option<bool>,
}

impl RowColumns for OptionSql {
    type Row = OptionRecord;

    open spec fn decodable(&self) -> bool {
        &&& self.launcher_id@.len() == 32
        &&& self.coin_id@.len() == 32
        &&& opt_u32_ok(self.created_height)
    }

    open spec fn decodes_to(&self, row: OptionRecord) -> bool {
        &&& row.launcher_id@ == self.launcher_id@
        &&& row.coin_id@ == self.coin_id@
        &&& row.visible == self.visible
        &&& row.is_owned == self.is_owned
        &&& opt_u32_int(row.created_height) == opt_int(self.created_height)
    }

    /// `e` is the error of the first column, in the order listed, that does
    /// not convert.
    open spec fn decode_error(&self, e: DatabaseError) -> bool {
        if self.launcher_id@.len() != 32 {
            e == length_error(self.launcher_id@, 32)
        } else if self.coin_id@.len() != 32 {
            e == length_error(self.coin_id@, 32)
        } else {
            e is PrecisionLost
        }
    }

    fn decode_row(self) -> (r: Result<OptionRecord, DatabaseError>) {
        let launcher_id: [u8; 32] = match self.launcher_id.convert() {
            Ok(v) => v,
            Err(e) => return Err(e),
        };
        let coin_id: [u8; 32] = match self.coin_id.convert() {
            Ok(v) => v,
            Err(e) => return Err(e),
        };
        let created_height: Option<u32> = match self.created_height.convert() {
            Ok(v) => v,
            Err(e) => return Err(e),
        };
        Ok(OptionRecord { launcher_id, coin_id, visible: self.visible, is_owned: self.is_owned, created_height })
    }
}

/// The state of an option singleton: its launcher, the coin it locks, the
/// puzzle hash that coin is delegated to, and the puzzle hash it pays to.
#[derive(Debug, Clone, Copy)]
pub struct OptionInfo {
    pub launcher_id: [u8; 32],
    pub underlying_coin_id: [u8; 32],
    pub underlying_delegated_puzzle_hash: [u8; 32],
    pub p2_puzzle_hash: [u8; 32],
}

/// A spendable option contract: its coin, the lineage proof of its parent
/// and its state.
#[derive(Debug, Clone, Copy)]
pub struct OptionContract {
    pub coin: Coin,
    pub proof: LineageProof,
    pub info: OptionInfo,
}

/// The stored columns of an option contract's coin.
#[derive(Debug, Clone)]
pub struct OptionCoinSql {
    pub coin: CoinSql,
    pub lineage: LineageSql,
    pub launcher_id: Vec<u8>,
    pub underlying_coin_id: Vec<u8>,
    pub underlying_delegated_puzzle_hash: Vec<u8>,
    pub p2_puzzle_hash: Vec<u8>,
}

impl RowColumns for OptionCoinSql {
    type Row = OptionContract;

    open spec fn decodable(&self) -> bool {
        &&& self.coin.coin_decodable()
        &&& self.lineage.lineage_decodable()
        &&& self.launcher_id@.len() == 32
        &&& self.underlying_coin_id@.len() == 32
        &&& self.underlying_delegated_puzzle_hash@.len() == 32
        &&& self.p2_puzzle_hash@.len() == 32
    }

    open spec fn decodes_to(&self, option: OptionContract) -> bool {
        &&& self.coin.coin_decodes_to(option.coin)
        &&& self.lineage.lineage_decodes_to(option.proof)
        &&& option.info.launcher_id@ == self.launcher_id@
        &&& option.info.underlying_coin_id@ == self.underlying_coin_id@
        &&& option.info.underlying_delegated_puzzle_hash@ == self.underlying_delegated_puzzle_hash@
        &&& option.info.p2_puzzle_hash@ == self.p2_puzzle_hash@
    }

    /// `e` is the error of the first column, in the order listed, that does
    /// not convert.
    open spec fn decode_error(&self, e: DatabaseError) -> bool {
        if !self.coin.coin_decodable() {
            self.coin.coin_error(e)
        } else if !self.lineage.lineage_decodable() {
            self.lineage.lineage_error(e)
        } else if self.launcher_id@.len() != 32 {
            e == length_error(self.launcher_id@, 32)
        } else if self.underlying_coin_id@.len() != 32 {
            e == length_error(self.underlying_coin_id@, 32)
        } else if self.underlying_delegated_puzzle_hash@.len() != 32 {
            e == length_error(self.underlying_delegated_puzzle_hash@, 32)
        } else {
            e == length_error(self.p2_puzzle_hash@, 32)
        }
    }

    fn decode_row(self) -> (r: Result<OptionContract, DatabaseError>) {
        let coin = match self.coin.decode() {
            Ok(v) => v,
            Err(e) => return Err(e),
        };
        let proof = match self.lineage.decode() {
            Ok(v) => v,
            Err(e) => return Err(e),
        };
        let launcher_id: [u8; 32] = match self.launcher_id.convert() {
            Ok(v) => v,
            Err(e) => return Err(e),
        };
        let underlying_coin_id: [u8; 32] = match self.underlying_coin_id.convert() {
            Ok(v) => v,
            Err(e) => return Err(e),
        };
        let underlying_delegated_puzzle_hash: [u8; 32] = match self.underlying_delegated_puzzle_hash.convert() {
            Ok(v) => v,
            Err(e) => return Err(e),
        };
        let p2_puzzle_hash: [u8; 32] = match self.p2_puzzle_hash.convert() {
            Ok(v) => v,
            Err(e) => return Err(e),
        };
        Ok(OptionContract {
            coin,
            proof,
            info: OptionInfo { launcher_id, underlying_coin_id, underlying_delegated_puzzle_hash, p2_puzzle_hash },
        })
    }
}

/// What the wallet records of an option contract's current coin.
#[derive(Debug, Clone, Copy)]
pub struct OptionRecordInfo {
    pub coin_id: [u8; 32],
    pub p2_puzzle_hash: [u8; 32],
    pub created_height: Option<u32>,
    pub transaction_id: Option<[u8; 32]>,
}

/// The stored columns of an option contract's current coin.
#[derive(Debug, Clone)]
pub struct OptionRecordSql {
    pub coin_id: Vec<u8>,
    pub p2_puzzle_hash: Vec<u8>,
    pub created_height: Option<i64>,
    pub transaction_id: Option<Vec<u8>>,
}

impl RowColumns for OptionRecordSql {
    type Row = OptionRecordInfo;

    open spec fn decodable(&self) -> bool {
        &&& self.coin_id@.len() == 32
        &&& self.p2_puzzle_hash@.len() == 32
        &&& opt_u32_ok(self.created_height)
        &&& opt_hash_ok(self.transaction_id)
    }

    open spec fn decodes_to(&self, info: OptionRecordInfo) -> bool {
        &&& info.coin_id@ == self.coin_id@
        &&& info.p2_puzzle_hash@ == self.p2_puzzle_hash@
        &&& opt_u32_int(info.created_height) == opt_int(self.created_height)
        &&& opt_hash(info.transaction_id) == opt_bytes_column(self.transaction_id)
    }

    /// `e` is the error of the first column, in the order listed, that does
    /// not convert.
    open spec fn decode_error(&self, e: DatabaseError) -> bool {
        if self.coin_id@.len() != 32 {
            e == length_error(self.coin_id@, 32)
        } else if self.p2_puzzle_hash@.len() != 32 {
            e == length_error(self.p2_puzzle_hash@, 32)
        } else if !opt_u32_ok(self.created_height) {
            e is PrecisionLost
        } else {
            opt_length_error(self.transaction_id, e)
        }
    }

    fn decode_row(self) -> (r: Result<OptionRecordInfo, DatabaseError>) {
        let coin_id: [u8; 32] = match self.coin_id.convert() {
            Ok(v) => v,
            Err(e) => return Err(e),
        };
        let p2_puzzle_hash: [u8; 32] = match self.p2_puzzle_hash.convert() {
            Ok(v) => v,
            Err(e) => return Err(e),
        };
        let created_height: Option<u32> = match self.created_height.convert() {
            Ok(v) => v,
            Err(e) => return Err(e),
        };
        let transaction_id: Option<[u8; 32]> = match self.transaction_id.convert() {
            Ok(v) => v,
            Err(e) => return Err(e),
        };
        Ok(OptionRecordInfo { coin_id, p2_puzzle_hash, created_height, transaction_id })
    }
}

/// The statement that lists owned option contracts, before its filter and
/// order.
pub const OPTIONS_SELECT: &'static str = "SELECT launcher_id, 
            coin_id, 
            visible, 
            is_owned, 
            created_height, 
            is_pending
        FROM options
        WHERE is_owned = 1
        ";

/// The statement listing owned option contracts: visible ones only unless
/// hidden ones are asked for; pending ones first, then the newest.
pub open spec fn options_sql(include_hidden: bool) -> Seq<char> {
    if include_hidden {
        OPTIONS_SELECT@ + " ORDER BY "@ + "visible DESC, "@ + "is_pending DESC, created_height DESC, launcher_id ASC"@
    } else {
        OPTIONS_SELECT@ + " AND visible = 1"@ + " ORDER BY "@ + "is_pending DESC, created_height DESC, launcher_id ASC"@
    }
}

/// The owned option contracts are listed pending first, then newest first by
/// creation height, ties by launcher id; visible ones come first where hidden
/// ones are listed too, and hidden ones stay out otherwise.
pub proof fn lemma_options_listing(include_hidden: bool)
    ensures
        contains_text(
            options_sql(include_hidden),
            if include_hidden {
                "ORDER BY visible DESC, is_pending DESC, created_height DESC, launcher_id ASC"@
            } else {
                "AND visible = 1 ORDER BY is_pending DESC, created_height DESC, launcher_id ASC"@
            },
        ),
{
    reveal_strlit(" ORDER BY ");
    reveal_strlit("visible DESC, ");
    reveal_strlit("is_pending DESC, created_height DESC, launcher_id ASC");
    reveal_strlit(" AND visible = 1");
    reveal_strlit("ORDER BY visible DESC, is_pending DESC, created_height DESC, launcher_id ASC");
    reveal_strlit("AND visible = 1 ORDER BY is_pending DESC, created_height DESC, launcher_id ASC");
    let sql = options_sql(include_hidden);
    let part = if include_hidden {
        "ORDER BY visible DESC, is_pending DESC, created_height DESC, launcher_id ASC"@
    } else {
        "AND visible = 1 ORDER BY is_pending DESC, created_height DESC, launcher_id ASC"@
    };
    let at = OPTIONS_SELECT@.len() as int + 1;
    assert(sql.subrange(at, at + part.len() as int) =~= part);
    assert(occurs_at(sql, part, at));
}

/// The statement listing owned option contracts.
pub fn options_query(include_hidden: bool) -> (query: SqlQuery)
    ensures
        query_sql(query) == options_sql(include_hidden),
        query_binds(query) == Seq::<SqlValue>::empty(),
{
    let mut query = new_query(OPTIONS_SELECT);
    if !include_hidden {
        push_sql(&mut query, " AND visible = 1");
    }
    push_sql(&mut query, " ORDER BY ");
    if include_hidden {
        push_sql(&mut query, "visible DESC, ");
    }
    push_sql(&mut query, "is_pending DESC, created_height DESC, launcher_id ASC");
    query
}

} // verus!
