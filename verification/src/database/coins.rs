//! Coins as the wallet stores them, and their decoding from stored columns.

use vstd::prelude::*;

use crate::convert::{be_value, Convert};
use crate::database::assets::{asset_kind_of, AssetKind};
use crate::database::coin_states::CoinState;
use crate::database::sql::{
    contains_text, lemma_occurs_extended, occurs_at,
    decode_rows, first_row_error, new_query, page_total, push_bind_blob, push_bind_i64, push_sql,
    query_binds, query_sql, RowColumns, SqlQuery, SqlValue,
};
use crate::error::DatabaseError;

verus! {

/// The kind of asset a coin holds.
#[derive(Debug, Clone, Copy, PartialEq, Eq, Structural, PartialOrd, Ord, Hash)]
pub enum CoinKind {
    Xch,
    Cat,
    Did,
    Option,
    Nft,
}

/// The column coins are ordered by.
#[derive(Debug, Clone, Copy, PartialEq, Eq, Structural, PartialOrd, Ord, Hash)]
pub enum CoinSortMode {
    CoinId,
    Amount,
    CreatedHeight,
    SpentHeight,
}

/// Which coins a listing includes.
#[derive(Debug, Clone, Copy, PartialEq, Eq, Structural, PartialOrd, Ord, Hash)]
pub enum CoinFilterMode {
    All,
    Owned,
    Spent,
    Spendable,
}

/// A coin: its parent coin's id, its puzzle hash and its amount.
#[derive(Debug, Clone, Copy, PartialEq, Eq)]
pub struct Coin {
    pub parent_coin_info: [u8; 32],
    pub puzzle_hash: [u8; 32],
    pub amount: u64,
}

/// A coin of the wallet with what is known of its history.
#[derive(Debug, Clone, Copy)]
pub struct CoinRow {
    pub coin: Coin,
    pub p2_puzzle_hash: [u8; 32],
    pub kind: CoinKind,
    pub mempool_item_hash: Option<[u8; 32]>,
    pub offer_hash: Option<[u8; 32]>,
    pub clawback_timestamp: Option<u64>,
    pub created_height: Option<u32>,
    pub spent_height: Option<u32>,
    pub created_timestamp: Option<u32>,
    pub spent_timestamp: Option<u32>,
}

/// The stored columns of an owned coin, as SQLite returns them.
#[derive(Debug, Clone)]
pub struct CoinColumns {
    pub parent_coin_hash: Vec<u8>,
    pub puzzle_hash: Vec<u8>,
    pub amount: Vec<u8>,
    pub p2_puzzle_hash: Vec<u8>,
    pub offer_hash: Option<Vec<u8>>,
    pub clawback_timestamp: Option<i64>,
    pub created_height: Option<i64>,
    pub spent_height: Option<i64>,
    pub created_timestamp: Option<i64>,
    pub spent_timestamp: Option<i64>,
}

/// The bytes of an optional 32-byte hash.
pub open spec fn opt_hash(h: Option<[u8; 32]>) -> Option<Seq<u8>> {
    match h {
        Some(a) => Some(a@),
        None => None,
    }
}

/// The bytes of an optional stored byte string.
pub open spec fn opt_bytes_column(v: Option<Vec<u8>>) -> Option<Seq<u8>> {
    match v {
        Some(b) => Some(b@),
        None => None,
    }
}

/// An optional stored byte string is absent or holds 32 bytes.
pub open spec fn opt_hash_ok(v: Option<Vec<u8>>) -> bool {
    v matches Some(b) ==> b@.len() == 32
}

/// An optional stored integer is absent or fits in 32 unsigned bits.
pub open spec fn opt_u32_ok(v: Option<i64>) -> bool {
    v matches Some(i) ==> 0 <= i <= u32::MAX
}

/// An optional stored integer is absent or not negative.
pub open spec fn opt_u64_ok(v: Option<i64>) -> bool {
    v matches Some(i) ==> 0 <= i
}

/// The error of a stored byte string that should have held `n` bytes.
pub open spec fn length_error(v: Seq<u8>, n: usize) -> DatabaseError {
    DatabaseError::InvalidLength(v.len() as usize, n)
}

/// `e` is the error of an optional stored hash that does not hold 32 bytes.
pub open spec fn opt_length_error(v: Option<Vec<u8>>, e: DatabaseError) -> bool {
    v matches Some(b) && b@.len() != 32 && e == length_error(b@, 32)
}

/// The integer an optional stored integer holds.
pub open spec fn opt_int(v: Option<i64>) -> Option<int> {
    match v {
        Some(i) => Some(i as int),
        None => None,
    }
}

/// An optional 32-bit value as an integer.
pub open spec fn opt_u32_int(v: Option<u32>) -> Option<int> {
    match v {
        Some(i) => Some(i as int),
        None => None,
    }
}

/// An optional 64-bit value as an integer.
pub open spec fn opt_u64_int(v: Option<u64>) -> Option<int> {
    match v {
        Some(i) => Some(i as int),
        None => None,
    }
}

impl CoinColumns {
    /// Every column converts: the hashes have 32 bytes, the amount has 8, and
    /// the heights and timestamps fit their types.
    pub open spec fn decodable(&self) -> bool {
        &&& self.parent_coin_hash@.len() == 32
        &&& self.puzzle_hash@.len() == 32
        &&& self.amount@.len() == 8
        &&& self.p2_puzzle_hash@.len() == 32
        &&& opt_hash_ok(self.offer_hash)
        &&& opt_u64_ok(self.clawback_timestamp)
        &&& opt_u32_ok(self.created_height)
        &&& opt_u32_ok(self.spent_height)
        &&& opt_u32_ok(self.created_timestamp)
        &&& opt_u32_ok(self.spent_timestamp)
    }

    /// `row` holds these columns' values, with the given kind and no mempool
    /// item.
    pub open spec fn decodes_to(&self, kind: CoinKind, row: CoinRow) -> bool {
        &&& row.coin.parent_coin_info@ == self.parent_coin_hash@
        &&& row.coin.puzzle_hash@ == self.puzzle_hash@
        &&& row.coin.amount == be_value(self.amount@)
        &&& row.p2_puzzle_hash@ == self.p2_puzzle_hash@
        &&& row.kind == kind
        &&& row.mempool_item_hash is None
        &&& opt_hash(row.offer_hash) == opt_bytes_column(self.offer_hash)
        &&& opt_u64_int(row.clawback_timestamp) == opt_int(self.clawback_timestamp)
        &&& opt_u32_int(row.created_height) == opt_int(self.created_height)
        &&& opt_u32_int(row.spent_height) == opt_int(self.spent_height)
        &&& opt_u32_int(row.created_timestamp) == opt_int(self.created_timestamp)
        &&& opt_u32_int(row.spent_timestamp) == opt_int(self.spent_timestamp)
    }

    /// `e` is the error of the first column, in the order listed, that does
    /// not convert.
    pub open spec fn decode_error(&self, e: DatabaseError) -> bool {
        if self.parent_coin_hash@.len() != 32 {
            e == length_error(self.parent_coin_hash@, 32)
        } else if self.puzzle_hash@.len() != 32 {
            e == length_error(self.puzzle_hash@, 32)
        } else if self.amount@.len() != 8 {
            e == length_error(self.amount@, 8)
        } else if self.p2_puzzle_hash@.len() != 32 {
            e == length_error(self.p2_puzzle_hash@, 32)
        } else if !opt_hash_ok(self.offer_hash) {
            opt_length_error(self.offer_hash, e)
        } else {
            e is PrecisionLost
        }
    }

    /// Converts the columns into a coin row of the given kind. Fails with the
    /// error of the first column that does not convert.
    pub fn decode(self, kind: CoinKind) -> (r: Result<CoinRow, DatabaseError>)
        ensures
            r is Ok <==> self.decodable(),
            r matches Ok(row) ==> self.decodes_to(kind, row),
            r matches Err(e) ==> self.decode_error(e),
    {
        let parent_coin_info: [u8; 32] = match self.parent_coin_hash.convert() {
            Ok(v) => v,
            Err(e) => return Err(e),
        };
        let puzzle_hash: [u8; 32] = match self.puzzle_hash.convert() {
            Ok(v) => v,
            Err(e) => return Err(e),
        };
        let amount: u64 = match self.amount.convert() {
            Ok(v) => v,
            Err(e) => return Err(e),
        };
        let p2_puzzle_hash: [u8; 32] = match self.p2_puzzle_hash.convert() {
            Ok(v) => v,
            Err(e) => return Err(e),
        };
        let offer_hash: Option<[u8; 32]> = match self.offer_hash.convert() {
            Ok(v) => v,
            Err(e) => return Err(e),
        };
        let clawback_timestamp: Option<u64> = match self.clawback_timestamp.convert() {
            Ok(v) => v,
            Err(e) => return Err(e),
        };
        let created_height: Option<u32> = match self.created_height.convert() {
            Ok(v) => v,
            Err(e) => return Err(e),
        };
        let spent_height: Option<u32> = match self.spent_height.convert() {
            Ok(v) => v,
            Err(e) => return Err(e),
        };
        let created_timestamp: Option<u32> = match self.created_timestamp.convert() {
            Ok(v) => v,
            Err(e) => return Err(e),
        };
        let spent_timestamp: Option<u32> = match self.spent_timestamp.convert() {
            Ok(v) => v,
            Err(e) => return Err(e),
        };
        Ok(CoinRow {
            coin: Coin { parent_coin_info, puzzle_hash, amount },
            p2_puzzle_hash,
            kind,
            mempool_item_hash: None,
            offer_hash,
            clawback_timestamp,
            created_height,
            spent_height,
            created_timestamp,
            spent_timestamp,
        })
    }
}

/// The statement that counts which of the listed coins can be spent, before
/// the list.
pub const SPENDABLE_COUNT_SELECT: &'static str = "
        SELECT COUNT(*) AS count
        FROM spendable_coins
        WHERE 1=1
        AND coin_hash IN (";

/// The statement that counts which of the listed coins are unspent and free
/// of pending transactions, before the list.
pub const UNSPENT_COUNT_SELECT: &'static str = "
        SELECT COUNT(*)
        FROM coin_states
        LEFT JOIN transaction_spends ON transaction_spends.coin_id = coin_states.coin_id
        WHERE 1=1 
        AND created_height IS NOT NULL
        AND spent_height IS NULL
        AND coin_states.transaction_id IS NULL
        AND transaction_spends.coin_id IS NULL
        AND coin_states.coin_id IN (";

/// Coin ids written as hexadecimal literals, separated by commas.
pub open spec fn hex_literal_list(ids: Seq<Seq<char>>) -> Seq<char>
    decreases ids.len(),
{
    if ids.len() == 0 {
        Seq::empty()
    } else {
        let head = hex_literal_list(ids.drop_last());
        (if ids.len() > 1 {
            head + ", "@
        } else {
            head
        }) + "X'"@ + ids.last() + "'"@
    }
}

/// The texts of a list of strings.
pub open spec fn texts(ids: Seq<String>) -> Seq<Seq<char>> {
    ids.map_values(|s: String| s@)
}

/// The statement `select` followed by the coin ids written into it as
/// hexadecimal literals, separated by commas, and the closing parenthesis.
pub fn coin_list_query(select: &str, coin_ids: &[String]) -> (query: SqlQuery)
    ensures
        query_sql(query) == select@ + hex_literal_list(texts(coin_ids@)) + ")"@,
        query_binds(query) == Seq::<SqlValue>::empty(),
{
    let mut query = new_query(select);
    let mut i: usize = 0;
    while i < coin_ids.len()
        invariant
            i <= coin_ids@.len(),
            query_sql(query) == select@ + hex_literal_list(texts(coin_ids@.take(i as int))),
            query_binds(query) == Seq::<SqlValue>::empty(),
        decreases coin_ids@.len() - i,
    {
        proof {
            let next = texts(coin_ids@.take(i + 1));
            assert(next.drop_last() =~= texts(coin_ids@.take(i as int)));
            assert(next.last() == coin_ids@[i as int]@);
        }
        if i > 0 {
            push_sql(&mut query, ", ");
        }
        push_sql(&mut query, "X'");
        push_sql(&mut query, coin_ids[i].as_str());
        push_sql(&mut query, "'");
        i = i + 1;
    }
    proof {
        assert(coin_ids@.take(i as int) =~= coin_ids@);
    }
    push_sql(&mut query, ")");
    query
}

/// The statement counting which of the listed coins can be spent.
pub fn are_coins_spendable_query(coin_ids: &[String]) -> (r: Option<SqlQuery>)
    ensures
        coin_ids@.len() == 0 ==> r is None,
        coin_ids@.len() > 0 ==> (r matches Some(query) && query_sql(query) == SPENDABLE_COUNT_SELECT@
            + hex_literal_list(texts(coin_ids@)) + ")"@),
{
    if coin_ids.len() == 0 {
        None
    } else {
        Some(coin_list_query(SPENDABLE_COUNT_SELECT, coin_ids))
    }
}

/// The statement counting which of the listed coins are unspent and free of
/// pending transactions.
pub fn get_are_coins_spendable_query(coin_ids: &[String]) -> (r: Option<SqlQuery>)
    ensures
        coin_ids@.len() == 0 ==> r is None,
        coin_ids@.len() > 0 ==> (r matches Some(query) && query_sql(query) == UNSPENT_COUNT_SELECT@
            + hex_literal_list(texts(coin_ids@)) + ")"@),
{
    if coin_ids.len() == 0 {
        None
    } else {
        Some(coin_list_query(UNSPENT_COUNT_SELECT, coin_ids))
    }
}

/// Whether every listed coin was counted: the count equals the number of
/// coins (as a signed 64-bit number).
pub fn all_coins_counted(count: i64, listed: usize) -> (r: bool)
    ensures
        r == (count == listed as i64),
{
    count == #[verifier::truncate] (listed as i64)
}

/// The coins a listing of coin records is restricted to: those of one asset,
/// NFTs, or DIDs.
#[derive(Debug, Clone, Copy)]
pub enum AssetFilter {
    Id([u8; 32]),
    Nfts,
    Dids,
}

/// The parts of the statement listing coin records, around the four places
/// where it names its table.
pub const COIN_RECORDS_HEAD: &'static str = "
        SELECT
            parent_coin_hash, puzzle_hash, amount,
            spent_height, created_height, p2_puzzle_hash,
            (
                SELECT hash FROM mempool_items
                INNER JOIN mempool_coins ON mempool_coins.mempool_item_id = mempool_items.id
                WHERE mempool_coins.coin_id = ";

/// See `COIN_RECORDS_HEAD`.
pub const COIN_RECORDS_OFFER: &'static str = ".coin_id
                AND mempool_coins.is_input = TRUE
                LIMIT 1
            ) AS mempool_item_hash,
            (
                SELECT hash FROM offers
                INNER JOIN offer_coins ON offer_coins.offer_id = offers.id
                WHERE offer_coins.coin_id = ";

/// See `COIN_RECORDS_HEAD`.
pub const COIN_RECORDS_FROM: &'static str = ".coin_id
                AND offers.status <= 1
                LIMIT 1
            ) AS offer_hash,
            created_blocks.timestamp AS created_timestamp,
            spent_blocks.timestamp AS spent_timestamp,
            COUNT(*) OVER () AS total_count
        FROM ";

/// See `COIN_RECORDS_HEAD`.
pub const COIN_RECORDS_CREATED: &'static str = "
            LEFT JOIN blocks AS created_blocks ON created_blocks.height = ";

/// See `COIN_RECORDS_HEAD`.
pub const COIN_RECORDS_SPENT: &'static str = ".created_height
            LEFT JOIN blocks AS spent_blocks ON spent_blocks.height = ";

/// See `COIN_RECORDS_HEAD`.
pub const COIN_RECORDS_TAIL: &'static str = ".spent_height  
        ";

/// The view that a filter mode lists coins from.
pub open spec fn coin_table(filter_mode: CoinFilterMode) -> Seq<char> {
    match filter_mode {
        CoinFilterMode::Owned => "owned_coins"@,
        CoinFilterMode::Spent => "spent_coins"@,
        CoinFilterMode::All => "wallet_coins"@,
        CoinFilterMode::Spendable => "spendable_coins"@,
    }
}

/// The column that a sort mode orders coin records by.
pub open spec fn coin_record_column(sort_mode: CoinSortMode) -> Seq<char> {
    match sort_mode {
        CoinSortMode::CoinId => "coin_hash"@,
        CoinSortMode::Amount => "amount"@,
        CoinSortMode::CreatedHeight => "created_height"@,
        CoinSortMode::SpentHeight => "spent_height"@,
    }
}

/// The statement listing coin records.
pub open spec fn coin_records_sql(
    asset_filter: AssetFilter,
    sort_mode: CoinSortMode,
    ascending: bool,
    filter_mode: CoinFilterMode,
) -> Seq<char> {
    let table = coin_table(filter_mode);
    let base = COIN_RECORDS_HEAD@ + table + COIN_RECORDS_OFFER@ + table + COIN_RECORDS_FROM@ + table
        + COIN_RECORDS_CREATED@ + table + COIN_RECORDS_SPENT@ + table + COIN_RECORDS_TAIL@;
    let filtered = match asset_filter {
        AssetFilter::Id(_) => base + " WHERE asset_hash = "@ + "?"@,
        AssetFilter::Nfts => base + " WHERE asset_kind = 1"@,
        AssetFilter::Dids => base + " WHERE asset_kind = 2"@,
    };
    filtered + " ORDER BY "@ + coin_record_column(sort_mode) + (if ascending {
        " ASC"@
    } else {
        " DESC"@
    }) + " LIMIT "@ + "?"@ + " OFFSET "@ + "?"@
}

/// The order of the coin record listing: by the coin's hash, its amount,
/// its creation height or its spend height, each its own column, in the
/// asked direction; the page bounds follow.
pub proof fn lemma_coin_records_order(asset_filter: AssetFilter, sort_mode: CoinSortMode, ascending: bool, filter_mode: CoinFilterMode)
    ensures
        contains_text(
            coin_records_sql(asset_filter, sort_mode, ascending, filter_mode),
            match sort_mode {
                CoinSortMode::CoinId => if ascending {
                    "ORDER BY coin_hash ASC LIMIT ? OFFSET ?"@
                } else {
                    "ORDER BY coin_hash DESC LIMIT ? OFFSET ?"@
                },
                CoinSortMode::Amount => if ascending {
                    "ORDER BY amount ASC LIMIT ? OFFSET ?"@
                } else {
                    "ORDER BY amount DESC LIMIT ? OFFSET ?"@
                },
                CoinSortMode::CreatedHeight => if ascending {
                    "ORDER BY created_height ASC LIMIT ? OFFSET ?"@
                } else {
                    "ORDER BY created_height DESC LIMIT ? OFFSET ?"@
                },
                CoinSortMode::SpentHeight => if ascending {
                    "ORDER BY spent_height ASC LIMIT ? OFFSET ?"@
                } else {
                    "ORDER BY spent_height DESC LIMIT ? OFFSET ?"@
                },
            },
        ),
{
    reveal_strlit(" ASC");
    reveal_strlit(" DESC");
    reveal_strlit(" LIMIT ");
    reveal_strlit(" OFFSET ");
    reveal_strlit(" ORDER BY ");
    reveal_strlit("?");
    reveal_strlit("ORDER BY amount ASC LIMIT ? OFFSET ?");
    reveal_strlit("ORDER BY amount DESC LIMIT ? OFFSET ?");
    reveal_strlit("ORDER BY coin_hash ASC LIMIT ? OFFSET ?");
    reveal_strlit("ORDER BY coin_hash DESC LIMIT ? OFFSET ?");
    reveal_strlit("ORDER BY created_height ASC LIMIT ? OFFSET ?");
    reveal_strlit("ORDER BY created_height DESC LIMIT ? OFFSET ?");
    reveal_strlit("ORDER BY spent_height ASC LIMIT ? OFFSET ?");
    reveal_strlit("ORDER BY spent_height DESC LIMIT ? OFFSET ?");
    reveal_strlit("amount");
    reveal_strlit("coin_hash");
    reveal_strlit("created_height");
    reveal_strlit("spent_height");
    let table = coin_table(filter_mode);
    let base = COIN_RECORDS_HEAD@ + table + COIN_RECORDS_OFFER@ + table + COIN_RECORDS_FROM@ + table
        + COIN_RECORDS_CREATED@ + table + COIN_RECORDS_SPENT@ + table + COIN_RECORDS_TAIL@;
    let filtered = match asset_filter {
        AssetFilter::Id(_) => base + " WHERE asset_hash = "@ + "?"@,
        AssetFilter::Nfts => base + " WHERE asset_kind = 1"@,
        AssetFilter::Dids => base + " WHERE asset_kind = 2"@,
    };
    let sql = coin_records_sql(asset_filter, sort_mode, ascending, filter_mode);
    let at = (filtered).len() as int + 1;
    let part = match sort_mode {
        CoinSortMode::CoinId => if ascending {
            "ORDER BY coin_hash ASC LIMIT ? OFFSET ?"@
        } else {
            "ORDER BY coin_hash DESC LIMIT ? OFFSET ?"@
        },
        CoinSortMode::Amount => if ascending {
            "ORDER BY amount ASC LIMIT ? OFFSET ?"@
        } else {
            "ORDER BY amount DESC LIMIT ? OFFSET ?"@
        },
        CoinSortMode::CreatedHeight => if ascending {
            "ORDER BY created_height ASC LIMIT ? OFFSET ?"@
        } else {
            "ORDER BY created_height DESC LIMIT ? OFFSET ?"@
        },
        CoinSortMode::SpentHeight => if ascending {
            "ORDER BY spent_height ASC LIMIT ? OFFSET ?"@
        } else {
            "ORDER BY spent_height DESC LIMIT ? OFFSET ?"@
        },
    };
    assert(sql.subrange(at, at + part.len() as int) =~= part);
    assert(occurs_at(sql, part, at));
}

/// The asset filter of the coin record listing, just before its order: one
/// asset by its hash (bound), all NFTs (asset kind 1) or all DIDs (asset
/// kind 2).
pub proof fn lemma_coin_records_filter(asset_filter: AssetFilter, sort_mode: CoinSortMode, ascending: bool, filter_mode: CoinFilterMode)
    ensures
        contains_text(
            coin_records_sql(asset_filter, sort_mode, ascending, filter_mode),
            match asset_filter {
                AssetFilter::Id(_) => "WHERE asset_hash = ? ORDER BY "@,
                AssetFilter::Nfts => "WHERE asset_kind = 1 ORDER BY "@,
                AssetFilter::Dids => "WHERE asset_kind = 2 ORDER BY "@,
            },
        ),
{
    reveal_strlit(" ORDER BY ");
    reveal_strlit(" WHERE asset_hash = ");
    reveal_strlit(" WHERE asset_kind = 1");
    reveal_strlit(" WHERE asset_kind = 2");
    reveal_strlit("?");
    reveal_strlit("WHERE asset_hash = ? ORDER BY ");
    reveal_strlit("WHERE asset_kind = 1 ORDER BY ");
    reveal_strlit("WHERE asset_kind = 2 ORDER BY ");
    let table = coin_table(filter_mode);
    let base = COIN_RECORDS_HEAD@ + table + COIN_RECORDS_OFFER@ + table + COIN_RECORDS_FROM@ + table
        + COIN_RECORDS_CREATED@ + table + COIN_RECORDS_SPENT@ + table + COIN_RECORDS_TAIL@;
    let sql = coin_records_sql(asset_filter, sort_mode, ascending, filter_mode);
    let at = (base).len() as int + 1;
    let part = match asset_filter {
        AssetFilter::Id(_) => "WHERE asset_hash = ? ORDER BY "@,
        AssetFilter::Nfts => "WHERE asset_kind = 1 ORDER BY "@,
        AssetFilter::Dids => "WHERE asset_kind = 2 ORDER BY "@,
    };
    assert(sql.subrange(at, at + part.len() as int) =~= part);
    assert(occurs_at(sql, part, at));
}

/// `mid` occurs in `pre + mid + post` right after `pre`.
proof fn lemma_occurs_between(pre: Seq<char>, mid: Seq<char>, post: Seq<char>)
    ensures
        occurs_at(pre + mid + post, mid, pre.len() as int),
{
    assert((pre + mid + post).subrange(pre.len() as int, pre.len() + mid.len() as int) =~= mid);
}

/// The text before a coin record's view in its `FROM` clause ends in `FROM `,
/// and the text before it in the join of the creation block ends in
/// `created_blocks.height = `, which `.created_height` follows.
proof fn lemma_coin_records_pieces()
    ensures
        COIN_RECORDS_FROM@ =~= COIN_RECORDS_FROM@.subrange(0, COIN_RECORDS_FROM@.len() - 5) + "FROM "@,
        COIN_RECORDS_CREATED@ =~= COIN_RECORDS_CREATED@.subrange(0, COIN_RECORDS_CREATED@.len() - 24)
            + "created_blocks.height = "@,
        COIN_RECORDS_SPENT@ =~= ".created_height"@ + COIN_RECORDS_SPENT@.subrange(15, COIN_RECORDS_SPENT@.len() as int),
{
    reveal_strlit(".coin_id
                AND offers.status <= 1
                LIMIT 1
            ) AS offer_hash,
            created_blocks.timestamp AS created_timestamp,
            spent_blocks.timestamp AS spent_timestamp,
            COUNT(*) OVER () AS total_count
        FROM ");
    reveal_strlit("
            LEFT JOIN blocks AS created_blocks ON created_blocks.height = ");
    reveal_strlit(".created_height
            LEFT JOIN blocks AS spent_blocks ON spent_blocks.height = ");
    reveal_strlit("FROM ");
    reveal_strlit("created_blocks.height = ");
    reveal_strlit(".created_height");
}

/// Where the view of the coin record listing stands in its `FROM` clause and
/// in the join of each coin's creation block.
proof fn lemma_coin_records_base(table: Seq<char>) -> (at: (int, int))
    ensures
        occurs_at(
            COIN_RECORDS_HEAD@ + table + COIN_RECORDS_OFFER@ + table + COIN_RECORDS_FROM@ + table
                + COIN_RECORDS_CREATED@ + table + COIN_RECORDS_SPENT@ + table + COIN_RECORDS_TAIL@,
            "FROM "@ + table,
            at.0,
        ),
        occurs_at(
            COIN_RECORDS_HEAD@ + table + COIN_RECORDS_OFFER@ + table + COIN_RECORDS_FROM@ + table
                + COIN_RECORDS_CREATED@ + table + COIN_RECORDS_SPENT@ + table + COIN_RECORDS_TAIL@,
            "created_blocks.height = "@ + table + ".created_height"@,
            at.1,
        ),
{
    lemma_coin_records_pieces();
    let base = COIN_RECORDS_HEAD@ + table + COIN_RECORDS_OFFER@ + table + COIN_RECORDS_FROM@ + table
        + COIN_RECORDS_CREATED@ + table + COIN_RECORDS_SPENT@ + table + COIN_RECORDS_TAIL@;
    let from_head = COIN_RECORDS_FROM@.subrange(0, COIN_RECORDS_FROM@.len() - 5);
    let created_head = COIN_RECORDS_CREATED@.subrange(0, COIN_RECORDS_CREATED@.len() - 24);
    let spent_tail = COIN_RECORDS_SPENT@.subrange(15, COIN_RECORDS_SPENT@.len() as int);
    let from_part = "FROM "@ + table;
    let join_part = "created_blocks.height = "@ + table + ".created_height"@;
    let before_from = COIN_RECORDS_HEAD@ + table + COIN_RECORDS_OFFER@ + table + from_head;
    let before_join = before_from + from_part + created_head;
    let rest = spent_tail + table + COIN_RECORDS_TAIL@;
    assert(base =~= before_from + from_part + (created_head + join_part + rest));
    assert(base =~= before_join + join_part + rest);
    lemma_occurs_between(before_from, from_part, created_head + join_part + rest);
    lemma_occurs_between(before_join, join_part, rest);
    (before_from.len() as int, before_join.len() as int)
}

/// Coin records are read from the view that the filter mode names: owned
/// coins from `owned_coins`, spent ones from `spent_coins`, all of the
/// wallet's from `wallet_coins`, spendable ones from `spendable_coins`; the
/// statement selects from that view and joins the block of each coin's
/// creation on that view's heights.
pub proof fn lemma_coin_records_view(
    asset_filter: AssetFilter,
    sort_mode: CoinSortMode,
    ascending: bool,
    filter_mode: CoinFilterMode,
)
    ensures
        contains_text(
            coin_records_sql(asset_filter, sort_mode, ascending, filter_mode),
            match filter_mode {
                CoinFilterMode::Owned => "FROM owned_coins"@,
                CoinFilterMode::Spent => "FROM spent_coins"@,
                CoinFilterMode::All => "FROM wallet_coins"@,
                CoinFilterMode::Spendable => "FROM spendable_coins"@,
            },
        ),
        contains_text(
            coin_records_sql(asset_filter, sort_mode, ascending, filter_mode),
            match filter_mode {
                CoinFilterMode::Owned => "created_blocks.height = owned_coins.created_height"@,
                CoinFilterMode::Spent => "created_blocks.height = spent_coins.created_height"@,
                CoinFilterMode::All => "created_blocks.height = wallet_coins.created_height"@,
                CoinFilterMode::Spendable => "created_blocks.height = spendable_coins.created_height"@,
            },
        ),
{
    let table = coin_table(filter_mode);
    let sql = coin_records_sql(asset_filter, sort_mode, ascending, filter_mode);
    let base = COIN_RECORDS_HEAD@ + table + COIN_RECORDS_OFFER@ + table + COIN_RECORDS_FROM@ + table
        + COIN_RECORDS_CREATED@ + table + COIN_RECORDS_SPENT@ + table + COIN_RECORDS_TAIL@;
    let from_part = "FROM "@ + table;
    let join_part = "created_blocks.height = "@ + table + ".created_height"@;
    let (from_at, join_at) = lemma_coin_records_base(table);
    let suffix = sql.subrange(base.len() as int, sql.len() as int);
    assert(sql =~= base + suffix);
    lemma_occurs_extended(base, suffix, from_part, from_at);
    lemma_occurs_extended(base, suffix, join_part, join_at);
    reveal_strlit("FROM ");
    reveal_strlit("created_blocks.height = ");
    reveal_strlit(".created_height");
    match filter_mode {
        CoinFilterMode::Owned => {
            reveal_strlit("owned_coins");
            reveal_strlit("FROM owned_coins");
            reveal_strlit("created_blocks.height = owned_coins.created_height");
            assert(from_part =~= "FROM owned_coins"@);
            assert(join_part =~= "created_blocks.height = owned_coins.created_height"@);
        },
        CoinFilterMode::Spent => {
            reveal_strlit("spent_coins");
            reveal_strlit("FROM spent_coins");
            reveal_strlit("created_blocks.height = spent_coins.created_height");
            assert(from_part =~= "FROM spent_coins"@);
            assert(join_part =~= "created_blocks.height = spent_coins.created_height"@);
        },
        CoinFilterMode::All => {
            reveal_strlit("wallet_coins");
            reveal_strlit("FROM wallet_coins");
            reveal_strlit("created_blocks.height = wallet_coins.created_height");
            assert(from_part =~= "FROM wallet_coins"@);
            assert(join_part =~= "created_blocks.height = wallet_coins.created_height"@);
        },
        CoinFilterMode::Spendable => {
            reveal_strlit("spendable_coins");
            reveal_strlit("FROM spendable_coins");
            reveal_strlit("created_blocks.height = spendable_coins.created_height");
            assert(from_part =~= "FROM spendable_coins"@);
            assert(join_part =~= "created_blocks.height = spendable_coins.created_height"@);
        },
    }
}


/// The arguments of the statement listing coin records: the asset id where
/// one is asked for, then the limit and the offset.
pub open spec fn coin_records_binds(asset_filter: AssetFilter, limit: u32, offset: u32) -> Seq<SqlValue> {
    let filtered = match asset_filter {
        AssetFilter::Id(id) => seq![SqlValue::Blob(id@)],
        _ => Seq::empty(),
    };
    filtered.push(SqlValue::Integer(limit as int)).push(SqlValue::Integer(offset as int))
}

/// The statement listing the coin records of the view that the filter mode
/// names, restricted to the asset filter, in the order of the sort mode, a
/// page at a time.
pub fn coin_records_query(
    asset_filter: AssetFilter,
    limit: u32,
    offset: u32,
    sort_mode: CoinSortMode,
    ascending: bool,
    filter_mode: CoinFilterMode,
) -> (query: SqlQuery)
    ensures
        query_sql(query) == coin_records_sql(asset_filter, sort_mode, ascending, filter_mode),
        query_binds(query) == coin_records_binds(asset_filter, limit, offset),
{
    let table = match filter_mode {
        CoinFilterMode::Owned => "owned_coins",
        CoinFilterMode::Spent => "spent_coins",
        CoinFilterMode::All => "wallet_coins",
        CoinFilterMode::Spendable => "spendable_coins",
    };
    let mut query = new_query(COIN_RECORDS_HEAD);
    push_sql(&mut query, table);
    push_sql(&mut query, COIN_RECORDS_OFFER);
    push_sql(&mut query, table);
    push_sql(&mut query, COIN_RECORDS_FROM);
    push_sql(&mut query, table);
    push_sql(&mut query, COIN_RECORDS_CREATED);
    push_sql(&mut query, table);
    push_sql(&mut query, COIN_RECORDS_SPENT);
    push_sql(&mut query, table);
    push_sql(&mut query, COIN_RECORDS_TAIL);
    match asset_filter {
        AssetFilter::Id(asset_id) => {
            push_sql(&mut query, " WHERE asset_hash = ");
            push_bind_blob(&mut query, vstd::slice::slice_to_vec(asset_id.as_slice()));
        },
        AssetFilter::Nfts => {
            push_sql(&mut query, " WHERE asset_kind = 1");
        },
        AssetFilter::Dids => {
            push_sql(&mut query, " WHERE asset_kind = 2");
        },
    }
    push_sql(&mut query, " ORDER BY ");
    let column = match sort_mode {
        CoinSortMode::CoinId => "coin_hash",
        CoinSortMode::Amount => "amount",
        CoinSortMode::CreatedHeight => "created_height",
        CoinSortMode::SpentHeight => "spent_height",
    };
    push_sql(&mut query, column);
    if ascending {
        push_sql(&mut query, " ASC");
    } else {
        push_sql(&mut query, " DESC");
    }
    push_sql(&mut query, " LIMIT ");
    push_bind_i64(&mut query, limit as i64);
    push_sql(&mut query, " OFFSET ");
    push_bind_i64(&mut query, offset as i64);
    proof {
        assert(query_binds(query) =~= coin_records_binds(asset_filter, limit, offset));
    }
    query
}

/// The stored columns of a coin record, as SQLite returns them.
#[derive(Debug, Clone)]
pub struct CoinRecordColumns {
    pub parent_coin_hash: Vec<u8>,
    pub puzzle_hash: Vec<u8>,
    pub amount: Vec<u8>,
    pub p2_puzzle_hash: Vec<u8>,
    pub mempool_item_hash: Option<Vec<u8>>,
    pub offer_hash: Option<Vec<u8>>,
    pub created_height: Option<u32>,
    pub spent_height: Option<u32>,
    pub created_timestamp: Option<i64>,
    pub spent_timestamp: Option<i64>,
    pub total_count: i64,
}

impl RowColumns for CoinRecordColumns {
    type Row = CoinRow;

    open spec fn decodable(&self) -> bool {
        &&& self.parent_coin_hash@.len() == 32
        &&& self.puzzle_hash@.len() == 32
        &&& self.amount@.len() == 8
        &&& self.p2_puzzle_hash@.len() == 32
        &&& opt_hash_ok(self.mempool_item_hash)
        &&& opt_hash_ok(self.offer_hash)
        &&& opt_u32_ok(self.created_timestamp)
        &&& opt_u32_ok(self.spent_timestamp)
    }

    /// A coin record lists a standard coin with no clawback.
    open spec fn decodes_to(&self, row: CoinRow) -> bool {
        &&& row.coin.parent_coin_info@ == self.parent_coin_hash@
        &&& row.coin.puzzle_hash@ == self.puzzle_hash@
        &&& row.coin.amount == be_value(self.amount@)
        &&& row.p2_puzzle_hash@ == self.p2_puzzle_hash@
        &&& row.kind == CoinKind::Xch
        &&& opt_hash(row.mempool_item_hash) == opt_bytes_column(self.mempool_item_hash)
        &&& opt_hash(row.offer_hash) == opt_bytes_column(self.offer_hash)
        &&& row.clawback_timestamp is None
        &&& row.created_height == self.created_height
        &&& row.spent_height == self.spent_height
        &&& opt_u32_int(row.created_timestamp) == opt_int(self.created_timestamp)
        &&& opt_u32_int(row.spent_timestamp) == opt_int(self.spent_timestamp)
    }

    /// `e` is the error of the first column, in the order listed, that does
    /// not convert.
    open spec fn decode_error(&self, e: DatabaseError) -> bool {
        if self.parent_coin_hash@.len() != 32 {
            e == length_error(self.parent_coin_hash@, 32)
        } else if self.puzzle_hash@.len() != 32 {
            e == length_error(self.puzzle_hash@, 32)
        } else if self.amount@.len() != 8 {
            e == length_error(self.amount@, 8)
        } else if self.p2_puzzle_hash@.len() != 32 {
            e == length_error(self.p2_puzzle_hash@, 32)
        } else if !opt_hash_ok(self.mempool_item_hash) {
            opt_length_error(self.mempool_item_hash, e)
        } else if !opt_hash_ok(self.offer_hash) {
            opt_length_error(self.offer_hash, e)
        } else {
            e is PrecisionLost
        }
    }

    fn decode_row(self) -> (r: Result<CoinRow, DatabaseError>) {
        let parent_coin_info: [u8; 32] = match self.parent_coin_hash.convert() {
            Ok(v) => v,
            Err(e) => return Err(e),
        };
        let puzzle_hash: [u8; 32] = match self.puzzle_hash.convert() {
            Ok(v) => v,
            Err(e) => return Err(e),
        };
        let amount: u64 = match self.amount.convert() {
            Ok(v) => v,
            Err(e) => return Err(e),
        };
        let p2_puzzle_hash: [u8; 32] = match self.p2_puzzle_hash.convert() {
            Ok(v) => v,
            Err(e) => return Err(e),
        };
        let mempool_item_hash: Option<[u8; 32]> = match self.mempool_item_hash.convert() {
            Ok(v) => v,
            Err(e) => return Err(e),
        };
        let offer_hash: Option<[u8; 32]> = match self.offer_hash.convert() {
            Ok(v) => v,
            Err(e) => return Err(e),
        };
        let created_timestamp: Option<u32> = match self.created_timestamp.convert() {
            Ok(v) => v,
            Err(e) => return Err(e),
        };
        let spent_timestamp: Option<u32> = match self.spent_timestamp.convert() {
            Ok(v) => v,
            Err(e) => return Err(e),
        };
        Ok(CoinRow {
            coin: Coin { parent_coin_info, puzzle_hash, amount },
            p2_puzzle_hash,
            kind: CoinKind::Xch,
            mempool_item_hash,
            offer_hash,
            clawback_timestamp: None,
            created_height: self.created_height,
            spent_height: self.spent_height,
            created_timestamp,
            spent_timestamp,
        })
    }
}

/// Decodes a page of coin records, with the total count of matching coins
/// that the first row carries (zero for an empty page).
pub fn coin_records_page(rows: Vec<CoinRecordColumns>) -> (r: Result<(Vec<CoinRow>, u32), DatabaseError>)
    ensures
        r is Ok <==> (rows@.len() > 0 ==> 0 <= rows@[0].total_count <= u32::MAX) && forall|i: int|
            0 <= i < rows@.len() ==> #[trigger] rows@[i].decodable(),
        r matches Ok((coins, total)) ==> {
            &&& total == (if rows@.len() == 0 { 0 } else { rows@[0].total_count as int })
            &&& coins@.len() == rows@.len()
            &&& forall|i: int| 0 <= i < rows@.len() ==> #[trigger] rows@[i].decodes_to(coins@[i])
        },
        r matches Err(e) ==> if rows@.len() > 0 && !(0 <= rows@[0].total_count <= u32::MAX) {
            e is PrecisionLost
        } else {
            first_row_error(rows@, e)
        },
{
    let first = if rows.len() > 0 {
        Some(rows[0].total_count)
    } else {
        None
    };
    let total = match page_total(first) {
        Ok(t) => t,
        Err(e) => return Err(e),
    };
    match decode_rows(rows) {
        Ok(coins) => Ok((coins, total)),
        Err(e) => Err(e),
    }
}

/// The kind of a coin whose asset has the row id `asset_id` and the kind
/// `kind`: a token is the chain's own coin for the first asset row and a CAT
/// otherwise; NFTs, DIDs and options are coins of their own kind.
pub open spec fn coin_kind_for(asset_id: int, kind: AssetKind) -> CoinKind {
    match kind {
        AssetKind::Token => if asset_id == 0 {
            CoinKind::Xch
        } else {
            CoinKind::Cat
        },
        AssetKind::Nft => CoinKind::Nft,
        AssetKind::Did => CoinKind::Did,
        AssetKind::Option => CoinKind::Option,
    }
}

/// Reads the kind of a coin from its asset's row id and stored kind; a coin
/// without an asset, or a stored kind that names none, is no variant.
pub fn coin_kind_of_asset(asset_id: Option<i64>, kind: i64) -> (r: Result<CoinKind, DatabaseError>)
    ensures
        match (asset_id, asset_kind_of(kind as int)) {
            (Some(id), Some(k)) => r == Ok::<CoinKind, DatabaseError>(coin_kind_for(id as int, k)),
            _ => r matches Err(DatabaseError::InvalidEnumVariant),
        },
{
    let asset_id = match asset_id {
        Some(id) => id,
        None => return Err(DatabaseError::InvalidEnumVariant),
    };
    let kind: AssetKind = match kind.convert() {
        Ok(k) => k,
        Err(e) => return Err(e),
    };
    Ok(match kind {
        AssetKind::Token => if asset_id == 0 {
            CoinKind::Xch
        } else {
            CoinKind::Cat
        },
        AssetKind::Nft => CoinKind::Nft,
        AssetKind::Did => CoinKind::Did,
        AssetKind::Option => CoinKind::Option,
    })
}

/// A coin whose asset, or whose children once it is spent, are not yet
/// synced.
#[derive(Debug, Clone, Copy)]
pub struct UnsyncedCoin {
    pub coin_state: CoinState,
    pub is_asset_unsynced: bool,
    pub is_children_unsynced: bool,
}

/// The stored columns of an unsynced coin; the two flags are stored as
/// integers.
#[derive(Debug, Clone)]
pub struct UnsyncedCoinColumns {
    pub parent_coin_hash: Vec<u8>,
    pub puzzle_hash: Vec<u8>,
    pub amount: Vec<u8>,
    pub created_height: Option<i64>,
    pub spent_height: Option<i64>,
    pub is_asset_unsynced: i64,
    pub is_children_unsynced: i64,
}

impl RowColumns for UnsyncedCoinColumns {
    type Row = UnsyncedCoin;

    /// The hashes have 32 bytes, the amount 8, the heights fit 32 unsigned
    /// bits.
    open spec fn decodable(&self) -> bool {
        &&& self.parent_coin_hash@.len() == 32
        &&& self.puzzle_hash@.len() == 32
        &&& self.amount@.len() == 8
        &&& opt_u32_ok(self.spent_height)
        &&& opt_u32_ok(self.created_height)
    }

    /// A flag is set where its stored integer is not zero.
    open spec fn decodes_to(&self, row: UnsyncedCoin) -> bool {
        &&& row.coin_state.coin.parent_coin_info@ == self.parent_coin_hash@
        &&& row.coin_state.coin.puzzle_hash@ == self.puzzle_hash@
        &&& row.coin_state.coin.amount == be_value(self.amount@)
        &&& opt_u32_int(row.coin_state.spent_height) == opt_int(self.spent_height)
        &&& opt_u32_int(row.coin_state.created_height) == opt_int(self.created_height)
        &&& row.is_asset_unsynced == (self.is_asset_unsynced != 0)
        &&& row.is_children_unsynced == (self.is_children_unsynced != 0)
    }

    /// `e` is the error of the first column, in the order listed, that does
    /// not convert.
    open spec fn decode_error(&self, e: DatabaseError) -> bool {
        if self.parent_coin_hash@.len() != 32 {
            e == length_error(self.parent_coin_hash@, 32)
        } else if self.puzzle_hash@.len() != 32 {
            e == length_error(self.puzzle_hash@, 32)
        } else if self.amount@.len() != 8 {
            e == length_error(self.amount@, 8)
        } else {
            e is PrecisionLost
        }
    }

    fn decode_row(self) -> (r: Result<UnsyncedCoin, DatabaseError>) {
        let parent_coin_info: [u8; 32] = match self.parent_coin_hash.convert() {
            Ok(v) => v,
            Err(e) => return Err(e),
        };
        let puzzle_hash: [u8; 32] = match self.puzzle_hash.convert() {
            Ok(v) => v,
            Err(e) => return Err(e),
        };
        let amount: u64 = match self.amount.convert() {
            Ok(v) => v,
            Err(e) => return Err(e),
        };
        let spent_height: Option<u32> = match self.spent_height.convert() {
            Ok(v) => v,
            Err(e) => return Err(e),
        };
        let created_height: Option<u32> = match self.created_height.convert() {
            Ok(v) => v,
            Err(e) => return Err(e),
        };
        Ok(UnsyncedCoin {
            coin_state: CoinState {
                coin: Coin { parent_coin_info, puzzle_hash, amount },
                spent_height,
                created_height,
            },
            is_asset_unsynced: self.is_asset_unsynced != 0,
            is_children_unsynced: self.is_children_unsynced != 0,
        })
    }
}

/// Decodes the unsynced coins; fails with the error of the first row that
/// does not decode.
pub fn unsynced_coins_rows(rows: Vec<UnsyncedCoinColumns>) -> (r: Result<Vec<UnsyncedCoin>, DatabaseError>)
    ensures
        r is Ok <==> forall|i: int| 0 <= i < rows@.len() ==> #[trigger] rows@[i].decodable(),
        r matches Ok(coins) ==> coins@.len() == rows@.len() && forall|i: int|
            0 <= i < rows@.len() ==> #[trigger] rows@[i].decodes_to(coins@[i]),
        r matches Err(e) ==> first_row_error(rows@, e),
{
    decode_rows(rows)
}

/// The total of stored amounts, each read big-endian.
pub open spec fn amounts_total(amounts: Seq<Vec<u8>>) -> nat
    decreases amounts.len(),
{
    if amounts.len() == 0 {
        0
    } else {
        amounts_total(amounts.drop_last()) + be_value(amounts.last()@)
    }
}

/// Every stored amount has 8 bytes.
pub open spec fn amounts_sized(amounts: Seq<Vec<u8>>) -> bool {
    forall|i: int| 0 <= i < amounts.len() ==> #[trigger] amounts[i]@.len() == 8
}

/// `e` is the error of the first stored amount that has not 8 bytes.
pub open spec fn first_amount_error(amounts: Seq<Vec<u8>>, e: DatabaseError) -> bool {
    exists|i: int|
        0 <= i < amounts.len() && amounts[i]@.len() != 8 && (forall|j: int| 0 <= j < i ==> #[trigger] amounts[j]@.len() == 8)
            && e == length_error(#[trigger] amounts[i]@, 8)
}

/// The balance of coins from their stored amounts: their total; fails with
/// the error of the first amount that has not 8 bytes.
pub fn balance_of(amounts: Vec<Vec<u8>>) -> (r: Result<u128, DatabaseError>)
    ensures
        r is Ok <==> amounts_sized(amounts@),
        r matches Ok(total) ==> total == amounts_total(amounts@),
        r matches Err(e) ==> first_amount_error(amounts@, e),
{
    let ghost all = amounts@;
    assert(all.len() == amounts.len());
    let mut total: u128 = 0;
    for amount in it: amounts.into_iter()
        invariant
            it.seq() == all,
            all.len() <= usize::MAX,
            amounts_sized(all.take(it.index())),
            total == amounts_total(all.take(it.index())),
            total <= it.index() * (u64::MAX as int),
    {
        let ghost i = it.index();
        proof {
            assert(amount == all[i]);
            assert(all.take(i + 1).drop_last() =~= all.take(i));
        }
        let value: u64 = match amount.convert() {
            Ok(v) => v,
            Err(e) => {
                proof {
                    assert forall|j: int| 0 <= j < i implies #[trigger] all[j]@.len() == 8 by {
                        assert(all.take(i)[j] == all[j]);
                    }
                    assert(e == length_error(all[i]@, 8));
                }
                return Err(e);
            },
        };
        proof {
            assert(total + value <= (i + 1) * (u64::MAX as int)) by (nonlinear_arith)
                requires
                    total <= i * (u64::MAX as int),
                    value <= u64::MAX,
            ;
            assert((i + 1) * (u64::MAX as int) <= (usize::MAX as int) * (u64::MAX as int)) by (nonlinear_arith)
                requires
                    i + 1 <= usize::MAX,
            ;
            assert((usize::MAX as int) * (u64::MAX as int) <= u128::MAX) by (nonlinear_arith)
                requires
                    usize::MAX <= u64::MAX,
            ;
        }
        total = total + value as u128;
        proof {
            assert forall|j: int| 0 <= j < i + 1 implies #[trigger] all.take(i + 1)[j]@.len() == 8 by {
                if j < i {
                    assert(all.take(i + 1)[j] == all.take(i)[j]);
                }
            }
        }
    }
    proof {
        assert(all.take(all.len() as int) =~= all);
    }
    Ok(total)
}

/// The statement that finds coins by id, before the list of ids.
pub const COINS_BY_IDS_SELECT: &'static str = "
       SELECT
            parent_coin_hash, puzzle_hash, amount, spent_height, created_height, p2_puzzles.hash AS p2_puzzle_hash,
            (
                SELECT hash FROM mempool_items
                INNER JOIN mempool_coins ON mempool_coins.mempool_item_id = mempool_items.id
                WHERE mempool_coins.coin_id = coins.id
                AND mempool_coins.is_input = TRUE
                LIMIT 1
            ) AS mempool_item_hash,
            (
                SELECT hash FROM offers
                INNER JOIN offer_coins ON offer_coins.offer_id = offers.id
                WHERE offer_coins.coin_id = coins.id
                AND offers.status <= 1
                LIMIT 1
            ) AS offer_hash,
            created_blocks.timestamp AS created_timestamp,
            spent_blocks.timestamp AS spent_timestamp
        FROM coins
            INNER JOIN p2_puzzles ON p2_puzzles.id = coins.p2_puzzle_id
            LEFT JOIN blocks AS created_blocks ON created_blocks.height = coins.created_height
            LEFT JOIN blocks AS spent_blocks ON spent_blocks.height = coins.spent_height            
        WHERE coins.hash IN (";

/// The statement finding the coins with the listed ids, which are written
/// into it as hexadecimal literals.
pub fn coins_by_ids_query(coin_ids: &[String]) -> (query: SqlQuery)
    ensures
        query_sql(query) == COINS_BY_IDS_SELECT@ + hex_literal_list(texts(coin_ids@)) + ")"@,
        query_binds(query) == Seq::<SqlValue>::empty(),
{
    coin_list_query(COINS_BY_IDS_SELECT, coin_ids)
}

/// Decodes the coins found by id; fails with the error of the first row that
/// does not decode.
pub fn coins_by_ids_rows(rows: Vec<CoinRecordColumns>) -> (r: Result<Vec<CoinRow>, DatabaseError>)
    ensures
        r is Ok <==> forall|i: int| 0 <= i < rows@.len() ==> #[trigger] rows@[i].decodable(),
        r matches Ok(coins) ==> coins@.len() == rows@.len() && forall|i: int|
            0 <= i < rows@.len() ==> #[trigger] rows@[i].decodes_to(coins@[i]),
        r matches Err(e) ==> first_row_error(rows@, e),
{
    decode_rows(rows)
}

} // verus!
