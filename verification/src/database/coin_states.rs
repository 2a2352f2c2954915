//! Coin states as the sync engine records them: their decoding, and the
//! paged listings of standard and CAT coins.

use vstd::prelude::*;

use crate::convert::{be_value, Convert};
use crate::database::coins::{
    coin_list_query, hex_literal_list, length_error, opt_bytes_column, opt_hash, opt_hash_ok,
    opt_int, opt_length_error, opt_u32_int, opt_u32_ok, texts, Coin, CoinSortMode,
};
use crate::database::options::opt_string_view;
use crate::database::sql::{
    contains_text, occurs_at,
    decode_rows, first_row_error, new_query, push_bind_blob, push_bind_u32, push_sql, query_binds,
    query_sql, RowColumns, SqlQuery, SqlValue,
};
use crate::error::DatabaseError;

verus! {

/// The kind of a recorded coin; stored as 1 to 4, anything else is unknown.
#[derive(Debug, Clone, Copy, PartialEq, Eq, Structural, PartialOrd, Ord, Hash)]
pub enum CoinKind {
    Unknown,
    Xch,
    Cat,
    Nft,
    Did,
}

/// The kind stored as `value`.
pub open spec fn coin_kind_of(value: int) -> CoinKind {
    if value == 1 {
        CoinKind::Xch
    } else if value == 2 {
        CoinKind::Cat
    } else if value == 3 {
        CoinKind::Nft
    } else if value == 4 {
        CoinKind::Did
    } else {
        CoinKind::Unknown
    }
}

impl CoinKind {
    /// The kind stored as `value`: 1 standard, 2 CAT, 3 NFT, 4 DID, anything
    /// else unknown.
    pub fn from_i64(value: i64) -> (r: Self)
        ensures
            r == coin_kind_of(value as int),
    {
        match value {
            1 => Self::Xch,
            2 => Self::Cat,
            3 => Self::Nft,
            4 => Self::Did,
            _ => Self::Unknown,
        }
    }
}

impl Default for CoinSortMode {
    /// Coins are listed by their creation height unless asked otherwise.
    fn default() -> (r: Self)
        ensures
            r == CoinSortMode::CreatedHeight,
    {
        CoinSortMode::CreatedHeight
    }
}

/// A coin and the heights at which it was created and spent.
#[derive(Debug, Clone, Copy)]
pub struct CoinState {
    pub coin: Coin,
    pub spent_height: Option<u32>,
    pub created_height: Option<u32>,
}

/// A recorded coin state with the transaction that will spend it, its kind,
/// and the times of its creation and spend.
#[derive(Debug, Clone, Copy)]
pub struct CoinStateRow {
    pub coin_state: CoinState,
    pub transaction_id: Option<[u8; 32]>,
    pub kind: CoinKind,
    pub created_timestamp: Option<u32>,
    pub spent_timestamp: Option<u32>,
}

/// A coin state row with the offer that locks the coin and the transaction
/// that spends it, where the listing found them.
#[derive(Debug, Clone)]
pub struct EnhancedCoinStateRow {
    pub base: CoinStateRow,
    pub offer_id: Option<String>,
    pub spend_transaction_id: Option<String>,
}

impl From<CoinStateRow> for EnhancedCoinStateRow {
    fn from(base: CoinStateRow) -> (r: Self) {
        EnhancedCoinStateRow { base, offer_id: None, spend_transaction_id: None }
    }
}

impl vstd::std_specs::convert::FromSpecImpl<CoinStateRow> for EnhancedCoinStateRow {
    open spec fn obeys_from_spec() -> bool {
        true
    }

    open spec fn from_spec(base: CoinStateRow) -> EnhancedCoinStateRow {
        EnhancedCoinStateRow { base, offer_id: None, spend_transaction_id: None }
    }
}

/// The stored columns of a coin state, as SQLite returns them.
#[derive(Debug, Clone)]
pub struct CoinStateSql {
    pub parent_coin_id: Vec<u8>,
    pub puzzle_hash: Vec<u8>,
    pub amount: Vec<u8>,
    pub spent_height: Option<i64>,
    pub created_height: Option<i64>,
    pub transaction_id: Option<Vec<u8>>,
    pub kind: i64,
    pub created_unixtime: Option<i64>,
    pub spent_unixtime: Option<i64>,
}

/// A stored timestamp, cut to its low 32 bits.
pub open spec fn truncated_timestamp(t: Option<i64>) -> Option<u32> {
    match t {
        Some(v) => Some(v as u32),
        None => None,
    }
}

/// Cuts a stored timestamp to its low 32 bits.
fn truncate_timestamp(t: Option<i64>) -> (r: Option<u32>)
    ensures
        r == truncated_timestamp(t),
{
    match t {
        Some(v) => Some(#[verifier::truncate] (v as u32)),
        None => None,
    }
}

impl CoinStateSql {
    /// The hashes have 32 bytes, the amount 8, the heights fit 32 unsigned
    /// bits.
    pub open spec fn columns_decodable(&self) -> bool {
        &&& self.parent_coin_id@.len() == 32
        &&& self.puzzle_hash@.len() == 32
        &&& self.amount@.len() == 8
        &&& opt_u32_ok(self.spent_height)
        &&& opt_u32_ok(self.created_height)
        &&& opt_hash_ok(self.transaction_id)
    }

    /// Timestamps keep their low 32 bits; the kind is read as `from_i64` reads
    /// it.
    pub open spec fn columns_decode_to(&self, row: CoinStateRow) -> bool {
        &&& row.coin_state.coin.parent_coin_info@ == self.parent_coin_id@
        &&& row.coin_state.coin.puzzle_hash@ == self.puzzle_hash@
        &&& row.coin_state.coin.amount == be_value(self.amount@)
        &&& opt_u32_int(row.coin_state.spent_height) == opt_int(self.spent_height)
        &&& opt_u32_int(row.coin_state.created_height) == opt_int(self.created_height)
        &&& opt_hash(row.transaction_id) == opt_bytes_column(self.transaction_id)
        &&& row.kind == coin_kind_of(self.kind as int)
        &&& row.created_timestamp == truncated_timestamp(self.created_unixtime)
        &&& row.spent_timestamp == truncated_timestamp(self.spent_unixtime)
    }

    /// `e` is the error of the first column, in the order listed, that does
    /// not convert.
    pub open spec fn columns_error(&self, e: DatabaseError) -> bool {
        if self.parent_coin_id@.len() != 32 {
            e == length_error(self.parent_coin_id@, 32)
        } else if self.puzzle_hash@.len() != 32 {
            e == length_error(self.puzzle_hash@, 32)
        } else if self.amount@.len() != 8 {
            e == length_error(self.amount@, 8)
        } else if !opt_u32_ok(self.spent_height) || !opt_u32_ok(self.created_height) {
            e is PrecisionLost
        } else {
            opt_length_error(self.transaction_id, e)
        }
    }

    /// Converts the columns into a coin state row; fails with the error of
    /// the first column that does not convert.
    pub fn decode(self) -> (r: Result<CoinStateRow, DatabaseError>)
        ensures
            r is Ok <==> self.columns_decodable(),
            r matches Ok(row) ==> self.columns_decode_to(row),
            r matches Err(e) ==> self.columns_error(e),
    {
        let parent_coin_info: [u8; 32] = match self.parent_coin_id.convert() {
            Ok(v) => v,
            Err(e) => return Err(e),
        };
        let puzzle_hash: [u8; 32] = match self.puzzle_hash.convert() {
            Ok(v) => v,
            Err(e) => return Err(e),
        };
        let amount: u64 = match self.amount.convert() {
            Ok(v) => v,
            Err(e) => return Err(e),
        };
        let spent_height: Option<u32> = match self.spent_height.convert() {
            Ok(v) => v,
            Err(e) => return Err(e),
        };
        let created_height: Option<u32> = match self.created_height.convert() {
            Ok(v) => v,
            Err(e) => return Err(e),
        };
        let transaction_id: Option<[u8; 32]> = match self.transaction_id.convert() {
            Ok(v) => v,
            Err(e) => return Err(e),
        };
        Ok(CoinStateRow {
            coin_state: CoinState {
                coin: Coin { parent_coin_info, puzzle_hash, amount },
                spent_height,
                created_height,
            },
            transaction_id,
            kind: CoinKind::from_i64(self.kind),
            created_timestamp: truncate_timestamp(self.created_unixtime),
            spent_timestamp: truncate_timestamp(self.spent_unixtime),
        })
    }
}

impl RowColumns for CoinStateSql {
    type Row = CoinStateRow;

    open spec fn decodable(&self) -> bool {
        self.columns_decodable()
    }

    open spec fn decodes_to(&self, row: CoinStateRow) -> bool {
        self.columns_decode_to(row)
    }

    open spec fn decode_error(&self, e: DatabaseError) -> bool {
        self.columns_error(e)
    }

    fn decode_row(self) -> (r: Result<CoinStateRow, DatabaseError>) {
        self.decode()
    }
}

/// The stored columns of a coin: parent id, puzzle hash and amount.
#[derive(Debug, Clone)]
pub struct CoinSql {
    pub parent_coin_id: Vec<u8>,
    pub puzzle_hash: Vec<u8>,
    pub amount: Vec<u8>,
}

impl CoinSql {
    /// The hashes have 32 bytes and the amount 8.
    pub open spec fn coin_decodable(&self) -> bool {
        &&& self.parent_coin_id@.len() == 32
        &&& self.puzzle_hash@.len() == 32
        &&& self.amount@.len() == 8
    }

    /// `coin` holds these columns' values.
    pub open spec fn coin_decodes_to(&self, coin: Coin) -> bool {
        &&& coin.parent_coin_info@ == self.parent_coin_id@
        &&& coin.puzzle_hash@ == self.puzzle_hash@
        &&& coin.amount == be_value(self.amount@)
    }

    /// `e` is the error of the first column, in the order listed, that does
    /// not convert.
    pub open spec fn coin_error(&self, e: DatabaseError) -> bool {
        if self.parent_coin_id@.len() != 32 {
            e == length_error(self.parent_coin_id@, 32)
        } else if self.puzzle_hash@.len() != 32 {
            e == length_error(self.puzzle_hash@, 32)
        } else {
            e == length_error(self.amount@, 8)
        }
    }

    /// Converts the columns into a coin; fails with the error of the first
    /// column that does not convert.
    pub fn decode(self) -> (r: Result<Coin, DatabaseError>)
        ensures
            r is Ok <==> self.coin_decodable(),
            r matches Ok(coin) ==> self.coin_decodes_to(coin),
            r matches Err(e) ==> self.coin_error(e),
    {
        let parent_coin_info: [u8; 32] = match self.parent_coin_id.convert() {
            Ok(v) => v,
            Err(e) => return Err(e),
        };
        let puzzle_hash: [u8; 32] = match self.puzzle_hash.convert() {
            Ok(v) => v,
            Err(e) => return Err(e),
        };
        let amount: u64 = match self.amount.convert() {
            Ok(v) => v,
            Err(e) => return Err(e),
        };
        Ok(Coin { parent_coin_info, puzzle_hash, amount })
    }
}

impl RowColumns for CoinSql {
    type Row = Coin;

    open spec fn decodable(&self) -> bool {
        self.coin_decodable()
    }

    open spec fn decodes_to(&self, coin: Coin) -> bool {
        self.coin_decodes_to(coin)
    }

    open spec fn decode_error(&self, e: DatabaseError) -> bool {
        self.coin_error(e)
    }

    fn decode_row(self) -> (r: Result<Coin, DatabaseError>) {
        self.decode()
    }
}

/// The statement that lists standard coins, before its filters and order.
pub const P2_COIN_STATES_SELECT: &'static str = "
        SELECT 
            `parent_coin_id`, 
            `puzzle_hash`, 
            `amount`, 
            `spent_height`, 
            `created_height`, 
            `transaction_id`, 
            `kind`, 
            `created_unixtime`, 
            `spent_unixtime`,
            COUNT(*) OVER() as total_count
        FROM `coin_states` 
        WHERE `kind` = 1
        ";

/// The statement that lists the coins of a CAT, up to the asset id it binds.
pub const CAT_COIN_STATES_SELECT: &'static str = "
        SELECT `coin_states`.`parent_coin_id`, `coin_states`.`puzzle_hash`, `coin_states`.`amount`, `spent_height`, `created_height`, 
               `coin_states`.`transaction_id`, `kind`, `created_unixtime`, `spent_unixtime`,
               `offered_coins`.offer_id, `transaction_spends`.transaction_id as spend_transaction_id,
                COUNT(*) OVER() as total_count
        FROM `cat_coins` INDEXED BY `cat_asset_id`
        INNER JOIN `coin_states` ON `coin_states`.coin_id = `cat_coins`.coin_id
        LEFT JOIN `offered_coins` ON `coin_states`.coin_id = `offered_coins`.coin_id
        LEFT JOIN `transaction_spends` ON `coin_states`.coin_id = `transaction_spends`.coin_id
        WHERE `asset_id` = ";

/// The column that a sort mode orders the standard coin listing by.
pub open spec fn p2_order_column(sort_mode: CoinSortMode) -> Seq<char> {
    match sort_mode {
        CoinSortMode::CoinId => "`coin_id`"@,
        CoinSortMode::Amount => "`amount`"@,
        CoinSortMode::CreatedHeight => "`created_height`"@,
        CoinSortMode::SpentHeight => "`spent_height`"@,
    }
}

/// The column that a sort mode orders the CAT coin listing by.
pub open spec fn cat_order_column(sort_mode: CoinSortMode) -> Seq<char> {
    match sort_mode {
        CoinSortMode::CoinId => "`coin_states`.`coin_id`"@,
        CoinSortMode::Amount => "`coin_states`.`amount`"@,
        CoinSortMode::CreatedHeight => "`coin_states`.`created_height`"@,
        CoinSortMode::SpentHeight => "`coin_states`.`spent_height`"@,
    }
}

/// `sql` followed by the unspent filter, unless spent coins are listed, the
/// order by `column` and the page bounds.
pub open spec fn coin_listing_tail_sql(sql: Seq<char>, include_spent_coins: bool, column: Seq<char>, ascending: bool) -> Seq<char> {
    let unspent = if include_spent_coins {
        sql
    } else {
        sql + " AND `spent_height` IS NULL"@
    };
    unspent + " ORDER BY "@ + column + (if ascending {
        " ASC"@
    } else {
        " DESC"@
    }) + " LIMIT "@ + "?"@ + " OFFSET "@ + "?"@
}

/// The order of the standard coin listing: by the coin id, the amount, the
/// creation height or the spend height, each its own column, in the asked
/// direction; the page bounds follow.
pub proof fn lemma_p2_coin_states_order(sort_mode: CoinSortMode, ascending: bool, include_spent_coins: bool)
    ensures
        contains_text(
            coin_listing_tail_sql(P2_COIN_STATES_SELECT@, include_spent_coins, p2_order_column(sort_mode), ascending),
            match sort_mode {
                CoinSortMode::CoinId => if ascending {
                    "ORDER BY `coin_id` ASC LIMIT ? OFFSET ?"@
                } else {
                    "ORDER BY `coin_id` DESC LIMIT ? OFFSET ?"@
                },
                CoinSortMode::Amount => if ascending {
                    "ORDER BY `amount` ASC LIMIT ? OFFSET ?"@
                } else {
                    "ORDER BY `amount` DESC LIMIT ? OFFSET ?"@
                },
                CoinSortMode::CreatedHeight => if ascending {
                    "ORDER BY `created_height` ASC LIMIT ? OFFSET ?"@
                } else {
                    "ORDER BY `created_height` DESC LIMIT ? OFFSET ?"@
                },
                CoinSortMode::SpentHeight => if ascending {
                    "ORDER BY `spent_height` ASC LIMIT ? OFFSET ?"@
                } else {
                    "ORDER BY `spent_height` DESC LIMIT ? OFFSET ?"@
                },
            },
        ),
{
    reveal_strlit(" AND `spent_height` IS NULL");
    reveal_strlit(" ASC");
    reveal_strlit(" DESC");
    reveal_strlit(" LIMIT ");
    reveal_strlit(" OFFSET ");
    reveal_strlit(" ORDER BY ");
    reveal_strlit("?");
    reveal_strlit("ORDER BY `amount` ASC LIMIT ? OFFSET ?");
    reveal_strlit("ORDER BY `amount` DESC LIMIT ? OFFSET ?");
    reveal_strlit("ORDER BY `coin_id` ASC LIMIT ? OFFSET ?");
    reveal_strlit("ORDER BY `coin_id` DESC LIMIT ? OFFSET ?");
    reveal_strlit("ORDER BY `created_height` ASC LIMIT ? OFFSET ?");
    reveal_strlit("ORDER BY `created_height` DESC LIMIT ? OFFSET ?");
    reveal_strlit("ORDER BY `spent_height` ASC LIMIT ? OFFSET ?");
    reveal_strlit("ORDER BY `spent_height` DESC LIMIT ? OFFSET ?");
    reveal_strlit("`amount`");
    reveal_strlit("`coin_id`");
    reveal_strlit("`created_height`");
    reveal_strlit("`spent_height`");
    let unspent = if include_spent_coins {
        P2_COIN_STATES_SELECT@
    } else {
        P2_COIN_STATES_SELECT@ + " AND `spent_height` IS NULL"@
    };
    let sql = coin_listing_tail_sql(P2_COIN_STATES_SELECT@, include_spent_coins, p2_order_column(sort_mode), ascending);
    let at = (unspent).len() as int + 1;
    let part = match sort_mode {
        CoinSortMode::CoinId => if ascending {
            "ORDER BY `coin_id` ASC LIMIT ? OFFSET ?"@
        } else {
            "ORDER BY `coin_id` DESC LIMIT ? OFFSET ?"@
        },
        CoinSortMode::Amount => if ascending {
            "ORDER BY `amount` ASC LIMIT ? OFFSET ?"@
        } else {
            "ORDER BY `amount` DESC LIMIT ? OFFSET ?"@
        },
        CoinSortMode::CreatedHeight => if ascending {
            "ORDER BY `created_height` ASC LIMIT ? OFFSET ?"@
        } else {
            "ORDER BY `created_height` DESC LIMIT ? OFFSET ?"@
        },
        CoinSortMode::SpentHeight => if ascending {
            "ORDER BY `spent_height` ASC LIMIT ? OFFSET ?"@
        } else {
            "ORDER BY `spent_height` DESC LIMIT ? OFFSET ?"@
        },
    };
    assert(sql.subrange(at, at + part.len() as int) =~= part);
    assert(occurs_at(sql, part, at));
}

/// The order of a CAT's coin listing: by the coin id, the amount, the
/// creation height or the spend height, each its own column, in the asked
/// direction; the page bounds follow.
pub proof fn lemma_cat_coin_states_order(sort_mode: CoinSortMode, ascending: bool, include_spent_coins: bool)
    ensures
        contains_text(
            coin_listing_tail_sql(CAT_COIN_STATES_SELECT@ + "?"@, include_spent_coins, cat_order_column(sort_mode), ascending),
            match sort_mode {
                CoinSortMode::CoinId => if ascending {
                    "ORDER BY `coin_states`.`coin_id` ASC LIMIT ? OFFSET ?"@
                } else {
                    "ORDER BY `coin_states`.`coin_id` DESC LIMIT ? OFFSET ?"@
                },
                CoinSortMode::Amount => if ascending {
                    "ORDER BY `coin_states`.`amount` ASC LIMIT ? OFFSET ?"@
                } else {
                    "ORDER BY `coin_states`.`amount` DESC LIMIT ? OFFSET ?"@
                },
                CoinSortMode::CreatedHeight => if ascending {
                    "ORDER BY `coin_states`.`created_height` ASC LIMIT ? OFFSET ?"@
                } else {
                    "ORDER BY `coin_states`.`created_height` DESC LIMIT ? OFFSET ?"@
                },
                CoinSortMode::SpentHeight => if ascending {
                    "ORDER BY `coin_states`.`spent_height` ASC LIMIT ? OFFSET ?"@
                } else {
                    "ORDER BY `coin_states`.`spent_height` DESC LIMIT ? OFFSET ?"@
                },
            },
        ),
{
    reveal_strlit(" AND `spent_height` IS NULL");
    reveal_strlit(" ASC");
    reveal_strlit(" DESC");
    reveal_strlit(" LIMIT ");
    reveal_strlit(" OFFSET ");
    reveal_strlit(" ORDER BY ");
    reveal_strlit("?");
    reveal_strlit("ORDER BY `coin_states`.`amount` ASC LIMIT ? OFFSET ?");
    reveal_strlit("ORDER BY `coin_states`.`amount` DESC LIMIT ? OFFSET ?");
    reveal_strlit("ORDER BY `coin_states`.`coin_id` ASC LIMIT ? OFFSET ?");
    reveal_strlit("ORDER BY `coin_states`.`coin_id` DESC LIMIT ? OFFSET ?");
    reveal_strlit("ORDER BY `coin_states`.`created_height` ASC LIMIT ? OFFSET ?");
    reveal_strlit("ORDER BY `coin_states`.`created_height` DESC LIMIT ? OFFSET ?");
    reveal_strlit("ORDER BY `coin_states`.`spent_height` ASC LIMIT ? OFFSET ?");
    reveal_strlit("ORDER BY `coin_states`.`spent_height` DESC LIMIT ? OFFSET ?");
    reveal_strlit("`coin_states`.`amount`");
    reveal_strlit("`coin_states`.`coin_id`");
    reveal_strlit("`coin_states`.`created_height`");
    reveal_strlit("`coin_states`.`spent_height`");
    let unspent = if include_spent_coins {
        CAT_COIN_STATES_SELECT@ + "?"@
    } else {
        CAT_COIN_STATES_SELECT@ + "?"@ + " AND `spent_height` IS NULL"@
    };
    let sql = coin_listing_tail_sql(CAT_COIN_STATES_SELECT@ + "?"@, include_spent_coins, cat_order_column(sort_mode), ascending);
    let at = (unspent).len() as int + 1;
    let part = match sort_mode {
        CoinSortMode::CoinId => if ascending {
            "ORDER BY `coin_states`.`coin_id` ASC LIMIT ? OFFSET ?"@
        } else {
            "ORDER BY `coin_states`.`coin_id` DESC LIMIT ? OFFSET ?"@
        },
        CoinSortMode::Amount => if ascending {
            "ORDER BY `coin_states`.`amount` ASC LIMIT ? OFFSET ?"@
        } else {
            "ORDER BY `coin_states`.`amount` DESC LIMIT ? OFFSET ?"@
        },
        CoinSortMode::CreatedHeight => if ascending {
            "ORDER BY `coin_states`.`created_height` ASC LIMIT ? OFFSET ?"@
        } else {
            "ORDER BY `coin_states`.`created_height` DESC LIMIT ? OFFSET ?"@
        },
        CoinSortMode::SpentHeight => if ascending {
            "ORDER BY `coin_states`.`spent_height` ASC LIMIT ? OFFSET ?"@
        } else {
            "ORDER BY `coin_states`.`spent_height` DESC LIMIT ? OFFSET ?"@
        },
    };
    assert(sql.subrange(at, at + part.len() as int) =~= part);
    assert(occurs_at(sql, part, at));
}

/// Unless spent coins are asked for, a coin listing keeps only the unspent
/// coins, just before its order.
pub proof fn lemma_coin_listing_unspent(head: Seq<char>, column: Seq<char>, ascending: bool)
    ensures
        contains_text(
            coin_listing_tail_sql(head, false, column, ascending),
            "AND `spent_height` IS NULL ORDER BY "@,
        ),
{
    reveal_strlit(" AND `spent_height` IS NULL");
    reveal_strlit(" ORDER BY ");
    reveal_strlit("AND `spent_height` IS NULL ORDER BY ");
    let sql = coin_listing_tail_sql(head, false, column, ascending);
    let at = head.len() as int + 1;
    let part = "AND `spent_height` IS NULL ORDER BY "@;
    assert(sql.subrange(at, at + part.len() as int) =~= part);
    assert(occurs_at(sql, part, at));
}

/// Appends the unspent filter, the order and the page bounds of a coin
/// listing.
fn push_coin_listing_tail(
    query: &mut SqlQuery,
    include_spent_coins: bool,
    column: &str,
    ascending: bool,
    limit: u32,
    offset: u32,
)
    ensures
        query_sql(*final(query)) == coin_listing_tail_sql(query_sql(*old(query)), include_spent_coins, column@, ascending),
        query_binds(*final(query)) == query_binds(*old(query)).push(SqlValue::Integer(limit as int)).push(
            SqlValue::Integer(offset as int),
        ),
{
    if !include_spent_coins {
        push_sql(query, " AND `spent_height` IS NULL");
    }
    push_sql(query, " ORDER BY ");
    push_sql(query, column);
    if ascending {
        push_sql(query, " ASC");
    } else {
        push_sql(query, " DESC");
    }
    push_sql(query, " LIMIT ");
    push_bind_u32(query, limit);
    push_sql(query, " OFFSET ");
    push_bind_u32(query, offset);
}

/// The statement listing standard coins, a page at a time: unspent ones only
/// unless `include_spent_coins`, in the order of `sort_mode`.
pub fn p2_coin_states_query(
    limit: u32,
    offset: u32,
    sort_mode: CoinSortMode,
    ascending: bool,
    include_spent_coins: bool,
) -> (query: SqlQuery)
    ensures
        query_sql(query) == coin_listing_tail_sql(P2_COIN_STATES_SELECT@, include_spent_coins, p2_order_column(sort_mode), ascending),
        query_binds(query) == seq![SqlValue::Integer(limit as int), SqlValue::Integer(offset as int)],
{
    let mut query = new_query(P2_COIN_STATES_SELECT);
    let column = match sort_mode {
        CoinSortMode::CoinId => "`coin_id`",
        CoinSortMode::Amount => "`amount`",
        CoinSortMode::CreatedHeight => "`created_height`",
        CoinSortMode::SpentHeight => "`spent_height`",
    };
    push_coin_listing_tail(&mut query, include_spent_coins, column, ascending, limit, offset);
    query
}

/// The statement listing the coins of the CAT `asset_id`, a page at a time:
/// unspent ones only unless `include_spent_coins`, in the order of
/// `sort_mode`.
pub fn cat_coin_states_query(
    asset_id: [u8; 32],
    limit: u32,
    offset: u32,
    sort_mode: CoinSortMode,
    ascending: bool,
    include_spent_coins: bool,
) -> (query: SqlQuery)
    ensures
        query_sql(query) == coin_listing_tail_sql(CAT_COIN_STATES_SELECT@ + "?"@, include_spent_coins, cat_order_column(sort_mode), ascending),
        query_binds(query) == seq![
            SqlValue::Blob(asset_id@),
            SqlValue::Integer(limit as int),
            SqlValue::Integer(offset as int),
        ],
{
    let mut query = new_query(CAT_COIN_STATES_SELECT);
    push_bind_blob(&mut query, vstd::slice::slice_to_vec(asset_id.as_slice()));
    let column = match sort_mode {
        CoinSortMode::CoinId => "`coin_states`.`coin_id`",
        CoinSortMode::Amount => "`coin_states`.`amount`",
        CoinSortMode::CreatedHeight => "`coin_states`.`created_height`",
        CoinSortMode::SpentHeight => "`coin_states`.`spent_height`",
    };
    push_coin_listing_tail(&mut query, include_spent_coins, column, ascending, limit, offset);
    query
}

/// Decodes a page of standard coins, with the total count that the first row
/// carries (zero for an empty page).
pub fn p2_coin_states_page(rows: Vec<CoinStateSql>, total_count: u32) -> (r: Result<(Vec<CoinStateRow>, u32), DatabaseError>)
    ensures
        r is Ok <==> forall|i: int| 0 <= i < rows@.len() ==> #[trigger] rows@[i].decodable(),
        r matches Ok((coin_states, total)) ==> {
            &&& total == (if rows@.len() == 0 { 0 } else { total_count })
            &&& coin_states@.len() == rows@.len()
            &&& forall|i: int| 0 <= i < rows@.len() ==> #[trigger] rows@[i].decodes_to(coin_states@[i])
        },
        r matches Err(e) ==> first_row_error(rows@, e),
{
    if rows.len() == 0 {
        return Ok((Vec::new(), 0));
    }
    match decode_rows(rows) {
        Ok(coin_states) => Ok((coin_states, total_count)),
        Err(e) => Err(e),
    }
}

/// The stored columns of a CAT coin listing row: the coin state, and the offer
/// and spending transaction where the columns hold text.
#[derive(Debug, Clone)]
pub struct EnhancedCoinStateSql {
    pub coin_state: CoinStateSql,
    pub offer_id: Option<String>,
    pub spend_transaction_id: Option<String>,
}

impl RowColumns for EnhancedCoinStateSql {
    type Row = EnhancedCoinStateRow;

    open spec fn decodable(&self) -> bool {
        self.coin_state.columns_decodable()
    }

    open spec fn decodes_to(&self, row: EnhancedCoinStateRow) -> bool {
        &&& self.coin_state.columns_decode_to(row.base)
        &&& opt_string_view(row.offer_id) == opt_string_view(self.offer_id)
        &&& opt_string_view(row.spend_transaction_id) == opt_string_view(self.spend_transaction_id)
    }

    open spec fn decode_error(&self, e: DatabaseError) -> bool {
        self.coin_state.columns_error(e)
    }

    fn decode_row(self) -> (r: Result<EnhancedCoinStateRow, DatabaseError>) {
        let base = match self.coin_state.decode() {
            Ok(b) => b,
            Err(e) => return Err(e),
        };
        let mut row = EnhancedCoinStateRow::from(base);
        row.offer_id = self.offer_id;
        row.spend_transaction_id = self.spend_transaction_id;
        Ok(row)
    }
}

/// Decodes a page of CAT coins, with the total count that the first row
/// carries (zero for an empty page).
pub fn cat_coin_states_page(rows: Vec<EnhancedCoinStateSql>, total_count: u32) -> (r: Result<(Vec<EnhancedCoinStateRow>, u32), DatabaseError>)
    ensures
        r is Ok <==> forall|i: int| 0 <= i < rows@.len() ==> #[trigger] rows@[i].decodable(),
        r matches Ok((coin_states, total)) ==> {
            &&& total == (if rows@.len() == 0 { 0 } else { total_count })
            &&& coin_states@.len() == rows@.len()
            &&& forall|i: int| 0 <= i < rows@.len() ==> #[trigger] rows@[i].decodes_to(coin_states@[i])
        },
        r matches Err(e) ==> first_row_error(rows@, e),
{
    if rows.len() == 0 {
        return Ok((Vec::new(), 0));
    }
    match decode_rows(rows) {
        Ok(coin_states) => Ok((coin_states, total_count)),
        Err(e) => Err(e),
    }
}

/// The statement that finds coin states by id, before the list of ids.
pub const COIN_STATES_BY_IDS_SELECT: &'static str = "
        SELECT `coin_states`.`parent_coin_id`, `coin_states`.`puzzle_hash`, `coin_states`.`amount`, `spent_height`, `created_height`, 
               `coin_states`.`transaction_id`, `kind`, `created_unixtime`, `spent_unixtime`,
               `offered_coins`.offer_id, `transaction_spends`.transaction_id as spend_transaction_id
        FROM `coin_states` 
        LEFT JOIN `offered_coins` ON `coin_states`.coin_id = `offered_coins`.coin_id
        LEFT JOIN `transaction_spends` ON `coin_states`.coin_id = `transaction_spends`.coin_id
        WHERE 1=1 
        AND coin_states.coin_id IN (";

/// The statement finding the coin states with the listed ids, which are
/// written into it as hexadecimal literals.
pub fn coin_states_by_ids_query(coin_ids: &[String]) -> (query: SqlQuery)
    ensures
        query_sql(query) == COIN_STATES_BY_IDS_SELECT@ + hex_literal_list(texts(coin_ids@)) + ")"@,
        query_binds(query) == Seq::<SqlValue>::empty(),
{
    coin_list_query(COIN_STATES_BY_IDS_SELECT, coin_ids)
}

/// Decodes the coin states found by id; fails where any row does not decode.
pub fn coin_states_by_ids_rows(rows: Vec<EnhancedCoinStateSql>) -> (r: Result<Vec<EnhancedCoinStateRow>, DatabaseError>)
    ensures
        r is Ok <==> forall|i: int| 0 <= i < rows@.len() ==> #[trigger] rows@[i].decodable(),
        r matches Ok(states) ==> states@.len() == rows@.len() && forall|i: int|
            0 <= i < rows@.len() ==> #[trigger] rows@[i].decodes_to(states@[i]),
        r matches Err(e) ==> first_row_error(rows@, e),
{
    decode_rows(rows)
}

} // verus!
