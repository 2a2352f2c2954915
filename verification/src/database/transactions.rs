//! Transactions: the coins created and spent at each block height, the
//! query that pages through them, and their grouping by height.

use vstd::prelude::*;

use crate::convert::{be_value, Convert};
use crate::database::assets::{decode_stored_kind, opt_text, stored_kind, AssetKind};
use crate::database::coins::{
    length_error, opt_bytes_column, opt_hash, opt_hash_ok, opt_length_error, Coin,
};
use crate::database::options::opt_string_view;
use crate::database::sql::{
    contains_text, occurs_at,
    decode_rows, first_row_error, like_pattern, new_query, push_bind_text, push_bind_u32, push_sql,
    query_binds, query_sql, RowColumns, SqlQuery, SqlValue,
};
use crate::database::validation::{
    address_decoded, decimal_value, hex_lower, is_asset_id, is_valid_asset_id, parse_height,
    parses_as_u32, puzzle_hash_from_address, unsigned_digits,
};
use crate::error::DatabaseError;

verus! {

/// An asset as the transaction history shows it.
#[derive(Debug, Clone)]
pub struct HistoryAsset {
    pub hash: [u8; 32],
    pub name: Option<String>,
    pub icon_url: Option<String>,
    pub description: Option<String>,
    pub is_sensitive_content: bool,
    pub is_visible: bool,
    pub created_height: Option<u32>,
    pub kind: AssetKind,
}

/// A coin of a transaction, with its asset.
#[derive(Debug, Clone)]
pub struct TransactionCoin {
    pub coin: Coin,
    pub asset: HistoryAsset,
    pub p2_puzzle_hash: Option<[u8; 32]>,
    pub ticker: Option<String>,
    pub precision: u8,
}

/// The coins spent and created at one block height.
#[derive(Debug, Clone)]
pub struct Transaction {
    pub height: u32,
    pub timestamp: Option<u32>,
    pub spent: Vec<TransactionCoin>,
    pub created: Vec<TransactionCoin>,
}

/// A copy of an optional string.
fn copy_text(s: &Option<String>) -> (r: Option<String>)
    ensures
        r == *s,
{
    match s {
        Some(t) => Some(t.clone()),
        None => None,
    }
}

impl TransactionCoin {
    /// A copy of this coin.
    pub fn duplicate(&self) -> (r: Self)
        ensures
            r == *self,
    {
        TransactionCoin {
            coin: self.coin,
            asset: HistoryAsset {
                hash: self.asset.hash,
                name: copy_text(&self.asset.name),
                icon_url: copy_text(&self.asset.icon_url),
                description: copy_text(&self.asset.description),
                is_sensitive_content: self.asset.is_sensitive_content,
                is_visible: self.asset.is_visible,
                created_height: self.asset.created_height,
                kind: self.asset.kind,
            },
            p2_puzzle_hash: self.p2_puzzle_hash,
            ticker: copy_text(&self.ticker),
            precision: self.precision,
        }
    }
}

/// The stored columns of a coin of the history, as SQLite returns them.
#[derive(Debug, Clone)]
pub struct TransactionRowColumns {
    pub height: u32,
    pub timestamp: Option<i64>,
    pub is_created_in_block: i64,
    pub is_spent_in_block: i64,
    pub parent_coin_hash: Vec<u8>,
    pub puzzle_hash: Vec<u8>,
    pub amount: Vec<u8>,
    pub asset_hash: Vec<u8>,
    pub asset_name: Option<String>,
    pub asset_icon_url: Option<String>,
    pub asset_description: Option<String>,
    pub asset_is_sensitive_content: bool,
    pub asset_is_visible: bool,
    pub asset_created_height: Option<i64>,
    pub asset_kind: Option<i64>,
    pub p2_puzzle_hash: Option<Vec<u8>>,
    pub ticker: Option<String>,
    pub precision: Option<u8>,
    pub total_count: i64,
}

/// A stored value cut to its low 32 bits.
pub open spec fn low_bits(v: Option<i64>) -> Option<u32> {
    match v {
        Some(x) => Some(x as u32),
        None => None,
    }
}

/// Cuts a stored value to its low 32 bits.
fn cut_to_u32(v: Option<i64>) -> (r: Option<u32>)
    ensures
        r == low_bits(v),
{
    match v {
        Some(x) => Some(#[verifier::truncate] (x as u32)),
        None => None,
    }
}

/// A coin of the history, decoded, with where it stands in its block.
#[derive(Debug, Clone)]
pub struct DecodedTransactionRow {
    pub height: u32,
    pub timestamp: Option<u32>,
    pub spent: bool,
    pub created: bool,
    pub coin: TransactionCoin,
}

impl TransactionRowColumns {
    /// `coin` holds these columns' coin and asset: the asset's height keeps
    /// its low 32 bits, a missing kind is a token, a missing precision is 1.
    pub open spec fn coin_decodes_to(&self, coin: TransactionCoin) -> bool {
        &&& coin.coin.parent_coin_info@ == self.parent_coin_hash@
        &&& coin.coin.puzzle_hash@ == self.puzzle_hash@
        &&& coin.coin.amount == be_value(self.amount@)
        &&& coin.asset.hash@ == self.asset_hash@
        &&& opt_text(coin.asset.name) == opt_text(self.asset_name)
        &&& opt_text(coin.asset.icon_url) == opt_text(self.asset_icon_url)
        &&& opt_text(coin.asset.description) == opt_text(self.asset_description)
        &&& coin.asset.is_sensitive_content == self.asset_is_sensitive_content
        &&& coin.asset.is_visible == self.asset_is_visible
        &&& coin.asset.created_height == low_bits(self.asset_created_height)
        &&& Some(coin.asset.kind) == stored_kind(self.asset_kind)
        &&& opt_hash(coin.p2_puzzle_hash) == opt_bytes_column(self.p2_puzzle_hash)
        &&& opt_text(coin.ticker) == opt_text(self.ticker)
        &&& coin.precision == match self.precision {
            Some(p) => p,
            None => 1u8,
        }
    }

    /// Every column of the coin and asset converts.
    pub open spec fn coin_decodable(&self) -> bool {
        &&& self.parent_coin_hash@.len() == 32
        &&& self.puzzle_hash@.len() == 32
        &&& self.amount@.len() == 8
        &&& self.asset_hash@.len() == 32
        &&& stored_kind(self.asset_kind) is Some
        &&& opt_hash_ok(self.p2_puzzle_hash)
    }
}

impl RowColumns for TransactionRowColumns {
    type Row = DecodedTransactionRow;

    open spec fn decodable(&self) -> bool {
        self.coin_decodable()
    }

    /// The row keeps its height, its timestamp's low 32 bits, and whether the
    /// coin was spent or created (a stored 1) in the block.
    open spec fn decodes_to(&self, row: DecodedTransactionRow) -> bool {
        &&& row.height == self.height
        &&& row.timestamp == low_bits(self.timestamp)
        &&& row.spent == (self.is_spent_in_block == 1)
        &&& row.created == (self.is_created_in_block == 1)
        &&& self.coin_decodes_to(row.coin)
    }

    /// `e` is the error of the first column, in the order listed, that does
    /// not convert.
    open spec fn decode_error(&self, e: DatabaseError) -> bool {
        if self.parent_coin_hash@.len() != 32 {
            e == length_error(self.parent_coin_hash@, 32)
        } else if self.puzzle_hash@.len() != 32 {
            e == length_error(self.puzzle_hash@, 32)
        } else if self.amount@.len() != 8 {
            e == length_error(self.amount@, 8)
        } else if self.asset_hash@.len() != 32 {
            e == length_error(self.asset_hash@, 32)
        } else if stored_kind(self.asset_kind) is None {
            e is InvalidEnumVariant
        } else {
            opt_length_error(self.p2_puzzle_hash, e)
        }
    }

    fn decode_row(self) -> (r: Result<DecodedTransactionRow, DatabaseError>) {
        let parent_coin_info: [u8; 32] = match self.parent_coin_hash.convert() {
            Ok(v) => v,
            Err(e) => return Err(e),
        };
        let puzzle_hash: [u8; 32] = match self.puzzle_hash.convert() {
            Ok(v) => v,
            Err(e) => return Err(e),
        };
        let amount: u64 = match self.amount.convert() {
            Ok(v) => v,
            Err(e) => return Err(e),
        };
        let hash: [u8; 32] = match self.asset_hash.convert() {
            Ok(v) => v,
            Err(e) => return Err(e),
        };
        let kind = match decode_stored_kind(self.asset_kind) {
            Ok(k) => k,
            Err(e) => return Err(e),
        };
        let p2_puzzle_hash: Option<[u8; 32]> = match self.p2_puzzle_hash.convert() {
            Ok(v) => v,
            Err(e) => return Err(e),
        };
        let precision: u8 = match self.precision {
            Some(p) => p,
            None => 1,
        };
        Ok(DecodedTransactionRow {
            height: self.height,
            timestamp: cut_to_u32(self.timestamp),
            spent: self.is_spent_in_block == 1,
            created: self.is_created_in_block == 1,
            coin: TransactionCoin {
                coin: Coin { parent_coin_info, puzzle_hash, amount },
                asset: HistoryAsset {
                    hash,
                    name: self.asset_name,
                    icon_url: self.asset_icon_url,
                    description: self.asset_description,
                    is_sensitive_content: self.asset_is_sensitive_content,
                    is_visible: self.asset_is_visible,
                    created_height: cut_to_u32(self.asset_created_height),
                    kind,
                },
                p2_puzzle_hash,
                ticker: self.ticker,
                precision,
            },
        })
    }
}

/// The statement that pages through the history, before its filters and
/// order.
pub const TRANSACTIONS_SELECT: &'static str = "SELECT 	
            height,
            timestamp,
            coin_id,
            puzzle_hash,
            parent_coin_hash,
            amount,
            is_created_in_block,
            is_spent_in_block,
            asset_hash,
            asset_description,
            asset_is_visible,
            asset_is_sensitive_content,
            asset_created_height,
            asset_name,
            asset_icon_url,
            asset_kind,
            p2_puzzle_hash,
            ticker,
            precision,
            COUNT(*) OVER() as total_count
        FROM transaction_coins
        WHERE 1=1";

/// `sql` followed by the search filter: the search text as a pattern against
/// names and tickers; where it is an asset id, or an address, the asset hash
/// it gives, written into the statement; where it is a number, the height.
pub open spec fn transactions_search_sql(sql: Seq<char>, find_value: Option<Seq<char>>) -> Seq<char> {
    match find_value {
        None => sql,
        Some(v) => {
            let likes = sql + " AND (asset_name LIKE "@ + "?"@ + " OR ticker LIKE "@ + "?"@;
            let by_id = if is_asset_id(v) {
                likes + " OR asset_hash = X'"@ + v + "'"@
            } else {
                likes
            };
            let by_address = match address_decoded(v) {
                Some((_, puzzle_hash)) => by_id + " OR asset_hash = X'"@ + hex_lower(puzzle_hash) + "'"@,
                None => by_id,
            };
            let by_height = if parses_as_u32(v) {
                by_address + " OR height = "@ + "?"@
            } else {
                by_address
            };
            by_height + ")"@
        },
    }
}

/// The arguments of the history page: the two patterns and the height, then
/// the limit and the offset.
pub open spec fn transactions_binds(find_value: Option<Seq<char>>, limit: u32, offset: u32) -> Seq<SqlValue> {
    let searched = match find_value {
        None => Seq::empty(),
        Some(v) => {
            let p = SqlValue::Text("%"@ + v + "%"@);
            let likes = seq![p, p];
            if parses_as_u32(v) {
                likes.push(SqlValue::Integer(decimal_value(unsigned_digits(v)) as int))
            } else {
                likes
            }
        },
    };
    searched.push(SqlValue::Integer(limit as int)).push(SqlValue::Integer(offset as int))
}

/// The statement of the history page.
pub open spec fn transactions_sql(find_value: Option<Seq<char>>, sort_ascending: bool) -> Seq<char> {
    transactions_search_sql(TRANSACTIONS_SELECT@, find_value) + (if sort_ascending {
        " ORDER BY height ASC"@
    } else {
        " ORDER BY height DESC"@
    }) + " LIMIT "@ + "?"@ + " OFFSET "@ + "?"@
}

/// The history page goes by height in the asked direction: oldest first when
/// ascending, newest first otherwise, whatever the search; the page bounds
/// follow.
pub proof fn lemma_transactions_direction(find_value: Option<Seq<char>>, sort_ascending: bool)
    ensures
        contains_text(
            transactions_sql(find_value, sort_ascending),
            if sort_ascending {
                "ORDER BY height ASC LIMIT ? OFFSET ?"@
            } else {
                "ORDER BY height DESC LIMIT ? OFFSET ?"@
            },
        ),
{
    reveal_strlit(" ORDER BY height ASC");
    reveal_strlit(" ORDER BY height DESC");
    reveal_strlit(" LIMIT ");
    reveal_strlit("?");
    reveal_strlit(" OFFSET ");
    reveal_strlit("ORDER BY height ASC LIMIT ? OFFSET ?");
    reveal_strlit("ORDER BY height DESC LIMIT ? OFFSET ?");
    let searched = transactions_search_sql(TRANSACTIONS_SELECT@, find_value);
    let sql = transactions_sql(find_value, sort_ascending);
    let part = if sort_ascending {
        "ORDER BY height ASC LIMIT ? OFFSET ?"@
    } else {
        "ORDER BY height DESC LIMIT ? OFFSET ?"@
    };
    let at = searched.len() as int + 1;
    assert(sql.subrange(at, at + part.len() as int) =~= part);
    assert(occurs_at(sql, part, at));
}

/// The statement paging through the coins of the history: those matching
/// `find_value` where given, by height in the order asked for.
pub fn transactions_query(find_value: Option<String>, sort_ascending: bool, limit: u32, offset: u32) -> (query: SqlQuery)
    ensures
        query_sql(query) == transactions_sql(opt_string_view(find_value), sort_ascending),
        query_binds(query) == transactions_binds(opt_string_view(find_value), limit, offset),
{
    let mut query = new_query(TRANSACTIONS_SELECT);
    if let Some(find_value) = find_value {
        let value = find_value.as_str();
        push_sql(&mut query, " AND (asset_name LIKE ");
        push_bind_text(&mut query, like_pattern(value));
        push_sql(&mut query, " OR ticker LIKE ");
        push_bind_text(&mut query, like_pattern(value));
        if is_valid_asset_id(value) {
            push_sql(&mut query, " OR asset_hash = X'");
            push_sql(&mut query, value);
            push_sql(&mut query, "'");
        }
        if let Some(puzzle_hash) = puzzle_hash_from_address(value) {
            push_sql(&mut query, " OR asset_hash = X'");
            push_sql(&mut query, puzzle_hash.as_str());
            push_sql(&mut query, "'");
        }
        if let Some(height) = parse_height(value) {
            push_sql(&mut query, " OR height = ");
            push_bind_u32(&mut query, height);
        }
        push_sql(&mut query, ")");
    }
    if sort_ascending {
        push_sql(&mut query, " ORDER BY height ASC");
    } else {
        push_sql(&mut query, " ORDER BY height DESC");
    }
    push_sql(&mut query, " LIMIT ");
    push_bind_u32(&mut query, limit);
    push_sql(&mut query, " OFFSET ");
    push_bind_u32(&mut query, offset);
    proof {
        assert(query_binds(query) =~= transactions_binds(opt_string_view(find_value), limit, offset));
    }
    query
}

/// What a transaction holds: its height, its timestamp, and its spent and
/// created coins.
pub type TransactionView = (u32, Option<u32>, Seq<TransactionCoin>, Seq<TransactionCoin>);

/// What a transaction holds.
pub open spec fn transaction_view(t: Transaction) -> TransactionView {
    (t.height, t.timestamp, t.spent@, t.created@)
}

/// A transaction with a row's coin added to its spent coins, its created
/// coins, both or neither, as the row says.
pub open spec fn add_coin(t: TransactionView, row: DecodedTransactionRow) -> TransactionView {
    (
        t.0,
        t.1,
        if row.spent {
            t.2.push(row.coin)
        } else {
            t.2
        },
        if row.created {
            t.3.push(row.coin)
        } else {
            t.3
        },
    )
}

/// The position of the transaction at height `h`, the last one there is.
pub open spec fn height_index(groups: Seq<TransactionView>, h: u32) -> Option<int>
    decreases groups.len(),
{
    if groups.len() == 0 {
        None
    } else if groups.last().0 == h {
        Some(groups.len() - 1)
    } else {
        height_index(groups.drop_last(), h)
    }
}

/// The transactions that a sequence of rows makes: each row's coin goes to
/// the transaction of its height, which the first row at that height opens,
/// with that row's timestamp. Transactions stand in the order in which their
/// heights first appear.
pub open spec fn grouped(rows: Seq<DecodedTransactionRow>) -> Seq<TransactionView>
    decreases rows.len(),
{
    if rows.len() == 0 {
        Seq::empty()
    } else {
        let groups = grouped(rows.drop_last());
        let row = rows.last();
        match height_index(groups, row.height) {
            Some(k) => groups.update(k, add_coin(groups[k], row)),
            None => groups.push(add_coin((row.height, row.timestamp, Seq::empty(), Seq::empty()), row)),
        }
    }
}

/// No two transactions stand at one height.
pub open spec fn distinct_heights(groups: Seq<TransactionView>) -> bool {
    forall|i: int, j: int| 0 <= i < j < groups.len() ==> #[trigger] groups[i].0 != #[trigger] groups[j].0
}

/// With distinct heights, the transaction at a height is the one found there.
proof fn lemma_height_index(groups: Seq<TransactionView>, h: u32)
    requires
        distinct_heights(groups),
    ensures
        match height_index(groups, h) {
            Some(k) => 0 <= k < groups.len() && groups[k].0 == h,
            None => forall|i: int| 0 <= i < groups.len() ==> #[trigger] groups[i].0 != h,
        },
        forall|k: int| 0 <= k < groups.len() && #[trigger] groups[k].0 == h ==> height_index(groups, h) == Some(k),
    decreases groups.len(),
{
    if groups.len() > 0 {
        let rest = groups.drop_last();
        assert(distinct_heights(rest)) by {
            assert forall|i: int, j: int| 0 <= i < j < rest.len() implies #[trigger] rest[i].0 != #[trigger] rest[j].0 by {
                assert(groups[i].0 != groups[j].0);
            }
        }
        lemma_height_index(rest, h);
        assert forall|k: int| 0 <= k < groups.len() && #[trigger] groups[k].0 == h implies height_index(groups, h) == Some(k) by {
            if k < groups.len() - 1 {
                assert(groups[k].0 != groups[groups.len() - 1].0);
                assert(rest[k] == groups[k]);
            }
        }
    }
}

/// The transactions that rows make have distinct heights.
pub proof fn lemma_grouped_distinct_heights(rows: Seq<DecodedTransactionRow>)
    ensures
        distinct_heights(grouped(rows)),
    decreases rows.len(),
{
    if rows.len() > 0 {
        let groups = grouped(rows.drop_last());
        lemma_grouped_distinct_heights(rows.drop_last());
        lemma_height_index(groups, rows.last().height);
        let next = grouped(rows);
        assert forall|i: int, j: int| 0 <= i < j < next.len() implies #[trigger] next[i].0 != #[trigger] next[j].0 by {
            if j < groups.len() {
                assert(groups[i].0 != groups[j].0);
            }
        }
    }
}

/// Every row's height is the height of a transaction that the rows make.
pub proof fn lemma_grouped_covers_rows(rows: Seq<DecodedTransactionRow>, i: int)
    requires
        0 <= i < rows.len(),
    ensures
        exists|k: int| 0 <= k < grouped(rows).len() && #[trigger] grouped(rows)[k].0 == rows[i].height,
    decreases rows.len(),
{
    let groups = grouped(rows.drop_last());
    lemma_grouped_distinct_heights(rows.drop_last());
    lemma_height_index(groups, rows.last().height);
    let next = grouped(rows);
    if i < rows.len() - 1 {
        lemma_grouped_covers_rows(rows.drop_last(), i);
        let k = choose|k: int| 0 <= k < groups.len() && #[trigger] groups[k].0 == rows.drop_last()[i].height;
        assert(next[k].0 == rows[i].height);
    } else {
        match height_index(groups, rows.last().height) {
            Some(k) => {
                assert(next[k].0 == rows[i].height);
            },
            None => {
                assert(next[groups.len() as int].0 == rows[i].height);
            },
        }
    }
}

/// Groups decoded rows into transactions by height: each row's coin goes to
/// the transaction of its height, which the first row at that height opens.
pub fn group_transactions(rows: Vec<DecodedTransactionRow>) -> (r: Vec<Transaction>)
    ensures
        r@.map_values(|t: Transaction| transaction_view(t)) == grouped(rows@),
{
    let ghost all = rows@;
    let mut transactions: Vec<Transaction> = Vec::new();
    for row in it: rows.into_iter()
        invariant
            it.seq() == all,
            transactions@.map_values(|t: Transaction| transaction_view(t)) == grouped(all.take(it.index())),
    {
        let ghost before = transactions@.map_values(|t: Transaction| transaction_view(t));
        proof {
            assert(all.take(it.index() + 1).drop_last() =~= all.take(it.index()));
            assert(all.take(it.index() + 1).last() == row);
            lemma_grouped_distinct_heights(all.take(it.index()));
            lemma_height_index(before, row.height);
        }
        let mut found: Option<usize> = None;
        let mut k: usize = 0;
        while k < transactions.len()
            invariant
                k <= transactions@.len(),
                before == transactions@.map_values(|t: Transaction| transaction_view(t)),
                found matches Some(f) ==> f < transactions@.len() && transactions@[f as int].height == row.height,
                found is None ==> forall|j: int| 0 <= j < k ==> #[trigger] transactions@[j].height != row.height,
            decreases transactions@.len() - k,
        {
            if found.is_none() && transactions[k].height == row.height {
                found = Some(k);
            }
            k = k + 1;
        }
        let spent = row.spent;
        let created = row.created;
        match found {
            Some(f) => {
                proof {
                    assert(before[f as int].0 == row.height);
                }
                let mut t = transactions.remove(f);
                if spent && created {
                    t.spent.push(row.coin.duplicate());
                    t.created.push(row.coin);
                } else if spent {
                    t.spent.push(row.coin);
                } else if created {
                    t.created.push(row.coin);
                }
                transactions.insert(f, t);
                proof {
                    assert(transactions@.map_values(|t: Transaction| transaction_view(t)) =~= before.update(f as int, add_coin(before[f as int], row)));
                }
            },
            None => {
                proof {
                    assert forall|j: int| 0 <= j < before.len() implies #[trigger] before[j].0 != row.height by {
                        assert(transactions@[j].height != row.height);
                    }
                }
                let mut t = Transaction { height: row.height, timestamp: row.timestamp, spent: Vec::new(), created: Vec::new() };
                if spent && created {
                    t.spent.push(row.coin.duplicate());
                    t.created.push(row.coin);
                } else if spent {
                    t.spent.push(row.coin);
                } else if created {
                    t.created.push(row.coin);
                }
                transactions.push(t);
                proof {
                    assert(transactions@.map_values(|t: Transaction| transaction_view(t)) =~= before.push(add_coin((row.height, row.timestamp, Seq::empty(), Seq::empty()), row)));
                }
            },
        }
    }
    proof {
        assert(all.take(all.len() as int) =~= all);
    }
    transactions
}

/// Decodes the rows of a history page and groups them into transactions by
/// height; fails where any row does not decode.
pub fn group_rows_into_transactions(rows: Vec<TransactionRowColumns>) -> (r: Result<Vec<Transaction>, DatabaseError>)
    ensures
        r is Ok <==> forall|i: int| 0 <= i < rows@.len() ==> #[trigger] rows@[i].decodable(),
        r matches Ok(transactions) ==> exists|decoded: Seq<DecodedTransactionRow>|
            {
                &&& decoded.len() == rows@.len()
                &&& forall|i: int| 0 <= i < rows@.len() ==> #[trigger] rows@[i].decodes_to(decoded[i])
                &&& transactions@.map_values(|t: Transaction| transaction_view(t)) == grouped(decoded)
            },
        r matches Err(e) ==> first_row_error(rows@, e),
{
    match decode_rows(rows) {
        Ok(decoded) => {
            let ghost d = decoded@;
            let transactions = group_transactions(decoded);
            proof {
                assert(d.len() == rows@.len());
            }
            Ok(transactions)
        },
        Err(e) => Err(e),
    }
}

/// Decodes and groups a page of the history, with the total count of
/// matching coins that the first row carries (zero for an empty page).
pub fn transactions_page(rows: Vec<TransactionRowColumns>) -> (r: Result<(Vec<Transaction>, u32), DatabaseError>)
    ensures
        r is Ok <==> (rows@.len() > 0 ==> 0 <= rows@[0].total_count <= u32::MAX) && forall|i: int|
            0 <= i < rows@.len() ==> #[trigger] rows@[i].decodable(),
        r matches Ok((transactions, total)) ==> {
            &&& total == (if rows@.len() == 0 { 0 } else { rows@[0].total_count as int })
            &&& exists|decoded: Seq<DecodedTransactionRow>|
                {
                    &&& decoded.len() == rows@.len()
                    &&& forall|i: int| 0 <= i < rows@.len() ==> #[trigger] rows@[i].decodes_to(decoded[i])
                    &&& transactions@.map_values(|t: Transaction| transaction_view(t)) == grouped(decoded)
                }
        },
        r matches Err(e) ==> if rows@.len() > 0 && !(0 <= rows@[0].total_count <= u32::MAX) {
            e is PrecisionLost
        } else {
            first_row_error(rows@, e)
        },
{
    let first = if rows.len() > 0 {
        Some(rows[0].total_count)
    } else {
        None
    };
    let total = match crate::database::sql::page_total(first) {
        Ok(t) => t,
        Err(e) => return Err(e),
    };
    match group_rows_into_transactions(rows) {
        Ok(transactions) => Ok((transactions, total)),
        Err(e) => Err(e),
    }
}

/// The first timestamp that any of the rows carries.
pub open spec fn first_timestamp(rows: Seq<DecodedTransactionRow>) -> Option<u32>
    decreases rows.len(),
{
    if rows.len() == 0 {
        None
    } else if rows[0].timestamp is Some {
        rows[0].timestamp
    } else {
        first_timestamp(rows.drop_first())
    }
}

/// The coins of the rows that were spent in the block, in order.
pub open spec fn spent_coins(rows: Seq<DecodedTransactionRow>) -> Seq<TransactionCoin>
    decreases rows.len(),
{
    if rows.len() == 0 {
        Seq::empty()
    } else if rows.last().spent {
        spent_coins(rows.drop_last()).push(rows.last().coin)
    } else {
        spent_coins(rows.drop_last())
    }
}

/// The coins of the rows that were created in the block, in order.
pub open spec fn created_coins(rows: Seq<DecodedTransactionRow>) -> Seq<TransactionCoin>
    decreases rows.len(),
{
    if rows.len() == 0 {
        Seq::empty()
    } else if rows.last().created {
        created_coins(rows.drop_last()).push(rows.last().coin)
    } else {
        created_coins(rows.drop_last())
    }
}

/// The first timestamp of a prefix, once found, stays the first timestamp.
proof fn lemma_first_timestamp_prefix(rows: Seq<DecodedTransactionRow>, i: int)
    requires
        0 <= i < rows.len(),
    ensures
        first_timestamp(rows.take(i + 1)) == (if first_timestamp(rows.take(i)) is Some {
            first_timestamp(rows.take(i))
        } else {
            rows[i].timestamp
        }),
    decreases i,
{
    if i > 0 {
        lemma_first_timestamp_prefix(rows.drop_first(), i - 1);
        assert(rows.take(i + 1).drop_first() =~= rows.drop_first().take(i));
        assert(rows.take(i).drop_first() =~= rows.drop_first().take(i - 1));
        assert(rows.take(i + 1)[0] == rows[0]);
        assert(rows.take(i)[0] == rows[0]);
        assert(rows.drop_first()[i - 1] == rows[i]);
        let a = rows.take(i + 1);
        let b = rows.take(i);
        assert(first_timestamp(a) == if a[0].timestamp is Some {
            a[0].timestamp
        } else {
            first_timestamp(a.drop_first())
        });
        assert(first_timestamp(b) == if b[0].timestamp is Some {
            b[0].timestamp
        } else {
            first_timestamp(b.drop_first())
        });
    } else {
        assert(rows.take(1).drop_first() =~= Seq::<DecodedTransactionRow>::empty());
        assert(rows.take(1)[0] == rows[0]);
        assert(rows.take(0).len() == 0);
        assert(first_timestamp(rows.take(0)) is None);
        assert(first_timestamp(rows.take(1).drop_first()) is None);
        let a = rows.take(1);
        assert(first_timestamp(a) == if a[0].timestamp is Some {
            a[0].timestamp
        } else {
            first_timestamp(a.drop_first())
        });
    }
}

/// The transaction of one block from its decoded rows: none for no rows;
/// otherwise the first timestamp any row carries and the spent and created
/// coins in order.
pub fn transaction_from_rows(height: u32, rows: Vec<DecodedTransactionRow>) -> (r: Option<Transaction>)
    ensures
        rows@.len() == 0 ==> r is None,
        rows@.len() > 0 ==> (r matches Some(t) && transaction_view(t) == (
            height,
            first_timestamp(rows@),
            spent_coins(rows@),
            created_coins(rows@),
        )),
{
    if rows.len() == 0 {
        return None;
    }
    let ghost all = rows@;
    let mut spent: Vec<TransactionCoin> = Vec::new();
    let mut created: Vec<TransactionCoin> = Vec::new();
    let mut timestamp: Option<u32> = None;
    for row in it: rows.into_iter()
        invariant
            it.seq() == all,
            timestamp == first_timestamp(all.take(it.index())),
            spent@ == spent_coins(all.take(it.index())),
            created@ == created_coins(all.take(it.index())),
    {
        proof {
            let next = all.take(it.index() + 1);
            assert(next.drop_last() =~= all.take(it.index()));
            assert(next.last() == row);
            lemma_first_timestamp_prefix(all, it.index());
        }
        if timestamp.is_none() {
            timestamp = row.timestamp;
        }
        if row.spent && row.created {
            spent.push(row.coin.duplicate());
            created.push(row.coin);
        } else if row.spent {
            spent.push(row.coin);
        } else if row.created {
            created.push(row.coin);
        }
    }
    proof {
        assert(all.take(all.len() as int) =~= all);
    }
    Some(Transaction { height, timestamp, spent, created })
}

/// A transaction the wallet submitted: its id, fee, and when it was last
/// submitted to the mempool.
#[derive(Debug, Clone, Copy)]
pub struct TransactionRow {
    pub transaction_id: [u8; 32],
    pub fee: u64,
    pub submitted_at: Option<i64>,
}

} // verus!
