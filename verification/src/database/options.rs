//! Options contracts the wallet owns: the listing query and the decoding of
//! its rows.

use vstd::prelude::*;

use crate::database::assets::{decode_stored_kind, stored_kind, Asset, AssetColumns, AssetKind};
use crate::database::coins::{length_error, opt_hash_ok, CoinColumns, CoinKind, CoinRow};
use crate::database::sql::{
    contains_text, occurs_at,
    decode_rows, first_row_error, like_pattern, new_query, page_total, push_bind_text,
    push_bind_u32, push_sql, query_binds, query_sql, RowColumns, SqlQuery, SqlValue,
};
use crate::database::validation::{is_asset_id, is_valid_asset_id};
use crate::convert::{be_value, Convert};
use crate::error::DatabaseError;

verus! {

/// The order of an options listing.
#[derive(Debug, Clone, Copy, PartialEq, Eq, Structural, Hash)]
pub enum OptionSortMode {
    Name,
    CreatedHeight,
    ExpirationSeconds,
}

/// The statement that lists owned options, before its filters and order.
pub const OWNED_OPTIONS_SELECT: &'static str = "SELECT
            asset_hash, asset_name, asset_ticker, asset_precision, asset_icon_url,
            asset_description, asset_is_visible, asset_is_sensitive_content,
            asset_hidden_puzzle_hash, owned_coins.created_height, owned_coins.spent_height,
            owned_coins.parent_coin_hash, owned_coins.puzzle_hash, owned_coins.amount, owned_coins.p2_puzzle_hash,
            offer_hash, created_timestamp, spent_timestamp,
            clawback_expiration_seconds AS clawback_timestamp,
            p2_options.expiration_seconds AS option_expiration_seconds,

            strike_asset.hash AS strike_asset_hash, strike_asset.name AS strike_asset_name,
            strike_asset.ticker AS strike_asset_ticker, strike_asset.precision AS strike_asset_precision,
            strike_asset.icon_url AS strike_asset_icon_url, strike_asset.description AS strike_asset_description,
            strike_asset.is_visible AS strike_asset_is_visible, strike_asset.is_sensitive_content AS strike_asset_is_sensitive_content,
            strike_asset.hidden_puzzle_hash AS strike_asset_hidden_puzzle_hash, strike_asset.kind AS strike_asset_kind,

            underlying_asset.hash AS underlying_asset_hash, underlying_asset.name AS underlying_asset_name,
            underlying_asset.ticker AS underlying_asset_ticker, underlying_asset.precision AS underlying_asset_precision,
            underlying_asset.icon_url AS underlying_asset_icon_url, underlying_asset.description AS underlying_asset_description,
            underlying_asset.is_visible AS underlying_asset_is_visible, underlying_asset.is_sensitive_content AS underlying_asset_is_sensitive_content,
            underlying_asset.hidden_puzzle_hash AS underlying_asset_hidden_puzzle_hash, underlying_asset.kind AS underlying_asset_kind,

            strike_amount, underlying_coin.amount AS underlying_amount, underlying_coin.hash AS underlying_coin_id,

            COUNT(*) OVER() as total_count
        FROM owned_coins
        INNER JOIN options ON options.asset_id = owned_coins.asset_id
        INNER JOIN p2_options ON p2_options.option_asset_id = options.asset_id
        INNER JOIN coins AS underlying_coin ON underlying_coin.id = options.underlying_coin_id
        INNER JOIN assets AS strike_asset ON strike_asset.id = options.strike_asset_id
        INNER JOIN assets AS underlying_asset ON underlying_asset.id = underlying_coin.asset_id
        WHERE 1=1";

/// The column that a sort mode orders options by.
pub open spec fn option_order_column(sort_mode: OptionSortMode) -> Seq<char> {
    match sort_mode {
        OptionSortMode::Name => "asset_name"@,
        OptionSortMode::CreatedHeight => "owned_coins.created_height"@,
        OptionSortMode::ExpirationSeconds => "p2_options.expiration_seconds"@,
    }
}

/// `sql` followed by the visibility filter, unless hidden options are listed.
pub open spec fn option_visibility_sql(sql: Seq<char>, include_hidden: bool) -> Seq<char> {
    if include_hidden {
        sql
    } else {
        sql + " AND asset_is_visible = 1"@
    }
}

/// `sql` followed by the search filter: the search text, as a bound `LIKE`
/// pattern, against the names and tickers of the option and of its underlying
/// and strike assets; and, where the text is an asset id, written into the
/// statement as a hash literal against the three assets' hashes.
pub open spec fn option_search_sql(sql: Seq<char>, find_value: Option<Seq<char>>) -> Seq<char> {
    match find_value {
        None => sql,
        Some(v) => {
            let likes = sql + " AND (asset_name LIKE "@ + "?"@ + " OR asset_ticker LIKE "@ + "?"@
                + " OR underlying_asset.name LIKE "@ + "?"@ + " OR underlying_asset.ticker LIKE "@
                + "?"@ + " OR strike_asset.name LIKE "@ + "?"@ + " OR strike_asset.ticker LIKE "@
                + "?"@;
            let ids = if is_asset_id(v) {
                likes + " OR asset_hash = X'"@ + v + "' OR underlying_asset.hash = X'"@ + v
                    + "' OR strike_asset.hash = X'"@ + v + "'"@
            } else {
                likes
            };
            ids + ")"@
        },
    }
}

/// The six `LIKE` patterns that the search filter binds.
pub open spec fn option_search_binds(binds: Seq<SqlValue>, find_value: Option<Seq<char>>) -> Seq<SqlValue> {
    match find_value {
        None => binds,
        Some(v) => {
            let p = SqlValue::Text("%"@ + v + "%"@);
            binds.push(p).push(p).push(p).push(p).push(p).push(p)
        },
    }
}

/// `sql` followed by the order and the page bounds.
pub open spec fn option_order_sql(sql: Seq<char>, sort_mode: OptionSortMode, ascending: bool) -> Seq<char> {
    sql + " ORDER BY "@ + option_order_column(sort_mode) + (if ascending {
        " ASC"@
    } else {
        " DESC"@
    }) + " LIMIT "@ + "?"@ + " OFFSET "@ + "?"@
}

/// The statement that lists owned options.
pub open spec fn owned_options_sql(
    sort_mode: OptionSortMode,
    ascending: bool,
    find_value: Option<Seq<char>>,
    include_hidden: bool,
) -> Seq<char> {
    option_order_sql(
        option_search_sql(option_visibility_sql(OWNED_OPTIONS_SELECT@, include_hidden), find_value),
        sort_mode,
        ascending,
    )
}

/// The order of the owned option listing: by name, by the creation height of
/// the option's coin, or by the option's expiration, each a different
/// column, in the asked direction; the page bounds follow.
pub proof fn lemma_owned_options_order(
    sort_mode: OptionSortMode,
    ascending: bool,
    find_value: Option<Seq<char>>,
    include_hidden: bool,
)
    ensures
        contains_text(
            owned_options_sql(sort_mode, ascending, find_value, include_hidden),
            match sort_mode {
                OptionSortMode::Name => if ascending {
                    "ORDER BY asset_name ASC LIMIT ? OFFSET ?"@
                } else {
                    "ORDER BY asset_name DESC LIMIT ? OFFSET ?"@
                },
                OptionSortMode::CreatedHeight => if ascending {
                    "ORDER BY owned_coins.created_height ASC LIMIT ? OFFSET ?"@
                } else {
                    "ORDER BY owned_coins.created_height DESC LIMIT ? OFFSET ?"@
                },
                OptionSortMode::ExpirationSeconds => if ascending {
                    "ORDER BY p2_options.expiration_seconds ASC LIMIT ? OFFSET ?"@
                } else {
                    "ORDER BY p2_options.expiration_seconds DESC LIMIT ? OFFSET ?"@
                },
            },
        ),
{
    reveal_strlit(" ORDER BY ");
    reveal_strlit(" ASC");
    reveal_strlit(" DESC");
    reveal_strlit(" LIMIT ");
    reveal_strlit("?");
    reveal_strlit(" OFFSET ");
    reveal_strlit("asset_name");
    reveal_strlit("owned_coins.created_height");
    reveal_strlit("p2_options.expiration_seconds");
    reveal_strlit("ORDER BY asset_name ASC LIMIT ? OFFSET ?");
    reveal_strlit("ORDER BY asset_name DESC LIMIT ? OFFSET ?");
    reveal_strlit("ORDER BY owned_coins.created_height ASC LIMIT ? OFFSET ?");
    reveal_strlit("ORDER BY owned_coins.created_height DESC LIMIT ? OFFSET ?");
    reveal_strlit("ORDER BY p2_options.expiration_seconds ASC LIMIT ? OFFSET ?");
    reveal_strlit("ORDER BY p2_options.expiration_seconds DESC LIMIT ? OFFSET ?");
    let filtered = option_search_sql(option_visibility_sql(OWNED_OPTIONS_SELECT@, include_hidden), find_value);
    let sql = owned_options_sql(sort_mode, ascending, find_value, include_hidden);
    let at = filtered.len() as int + 1;
    let part = match sort_mode {
        OptionSortMode::Name => if ascending {
            "ORDER BY asset_name ASC LIMIT ? OFFSET ?"@
        } else {
            "ORDER BY asset_name DESC LIMIT ? OFFSET ?"@
        },
        OptionSortMode::CreatedHeight => if ascending {
            "ORDER BY owned_coins.created_height ASC LIMIT ? OFFSET ?"@
        } else {
            "ORDER BY owned_coins.created_height DESC LIMIT ? OFFSET ?"@
        },
        OptionSortMode::ExpirationSeconds => if ascending {
            "ORDER BY p2_options.expiration_seconds ASC LIMIT ? OFFSET ?"@
        } else {
            "ORDER BY p2_options.expiration_seconds DESC LIMIT ? OFFSET ?"@
        },
    };
    assert(sql.subrange(at, at + part.len() as int) =~= part);
    assert(occurs_at(sql, part, at));
}

/// Hidden options stay out of the listing unless they are asked for: without
/// `include_hidden`, the statement keeps only visible assets, whatever the
/// search, sort and direction.
pub proof fn lemma_owned_options_hide(
    sort_mode: OptionSortMode,
    ascending: bool,
    find_value: Option<Seq<char>>,
)
    ensures
        contains_text(owned_options_sql(sort_mode, ascending, find_value, false), "AND asset_is_visible = 1"@),
{
    reveal_strlit(" AND asset_is_visible = 1");
    reveal_strlit("AND asset_is_visible = 1");
    let sql = owned_options_sql(sort_mode, ascending, find_value, false);
    let at = OWNED_OPTIONS_SELECT@.len() as int + 1;
    let part = "AND asset_is_visible = 1"@;
    assert(sql.subrange(at, at + part.len() as int) =~= part);
    assert(occurs_at(sql, part, at));
}

/// The arguments that the statement listing owned options binds: the search
/// patterns, then the limit and the offset.
pub open spec fn owned_options_binds(limit: u32, offset: u32, find_value: Option<Seq<char>>) -> Seq<SqlValue> {
    option_search_binds(Seq::empty(), find_value).push(SqlValue::Integer(limit as int)).push(
        SqlValue::Integer(offset as int),
    )
}

/// The text of an optional string.
pub open spec fn opt_string_view(s: Option<String>) -> Option<Seq<char>> {
    match s {
        Some(t) => Some(t@),
        None => None,
    }
}

/// The statement listing the owned options, a page at a time: visible ones
/// only unless `include_hidden`; those matching `find_value`, where given; in
/// the order of `sort_mode`.
pub fn owned_options_query(
    limit: u32,
    offset: u32,
    sort_mode: OptionSortMode,
    ascending: bool,
    find_value: Option<String>,
    include_hidden: bool,
) -> (query: SqlQuery)
    ensures
        query_sql(query) == owned_options_sql(sort_mode, ascending, opt_string_view(find_value), include_hidden),
        query_binds(query) == owned_options_binds(limit, offset, opt_string_view(find_value)),
{
    let mut query = new_query(OWNED_OPTIONS_SELECT);
    if !include_hidden {
        push_sql(&mut query, " AND asset_is_visible = 1");
    }
    let ghost before_search = query_sql(query);
    if let Some(find_value) = find_value {
        let value = find_value.as_str();
        push_sql(&mut query, " AND (asset_name LIKE ");
        push_bind_text(&mut query, like_pattern(value));
        push_sql(&mut query, " OR asset_ticker LIKE ");
        push_bind_text(&mut query, like_pattern(value));
        push_sql(&mut query, " OR underlying_asset.name LIKE ");
        push_bind_text(&mut query, like_pattern(value));
        push_sql(&mut query, " OR underlying_asset.ticker LIKE ");
        push_bind_text(&mut query, like_pattern(value));
        push_sql(&mut query, " OR strike_asset.name LIKE ");
        push_bind_text(&mut query, like_pattern(value));
        push_sql(&mut query, " OR strike_asset.ticker LIKE ");
        push_bind_text(&mut query, like_pattern(value));
        if is_valid_asset_id(value) {
            push_sql(&mut query, " OR asset_hash = X'");
            push_sql(&mut query, value);
            push_sql(&mut query, "' OR underlying_asset.hash = X'");
            push_sql(&mut query, value);
            push_sql(&mut query, "' OR strike_asset.hash = X'");
            push_sql(&mut query, value);
            push_sql(&mut query, "'");
        }
        push_sql(&mut query, ")");
    }
    push_sql(&mut query, " ORDER BY ");
    let order_column = match sort_mode {
        OptionSortMode::Name => "asset_name",
        OptionSortMode::CreatedHeight => "owned_coins.created_height",
        OptionSortMode::ExpirationSeconds => "p2_options.expiration_seconds",
    };
    push_sql(&mut query, order_column);
    if ascending {
        push_sql(&mut query, " ASC");
    } else {
        push_sql(&mut query, " DESC");
    }
    push_sql(&mut query, " LIMIT ");
    push_bind_u32(&mut query, limit);
    push_sql(&mut query, " OFFSET ");
    push_bind_u32(&mut query, offset);
    query
}

/// Search text that is not an asset id never enters the statement's text: it
/// is only bound as a pattern, so any two such texts give the same statement.
/// Text that does enter it is hexadecimal, with no quote to end the literal.
pub proof fn lemma_option_search_text_is_bound(
    sort_mode: OptionSortMode,
    ascending: bool,
    include_hidden: bool,
    a: Seq<char>,
    b: Seq<char>,
)
    ensures
        !is_asset_id(a) && !is_asset_id(b) ==> owned_options_sql(sort_mode, ascending, Some(a), include_hidden)
            == owned_options_sql(sort_mode, ascending, Some(b), include_hidden),
        is_asset_id(a) ==> forall|i: int| 0 <= i < a.len() ==> #[trigger] a[i] != '\'',
{
    if is_asset_id(a) {
        assert forall|i: int| 0 <= i < a.len() implies #[trigger] a[i] != '\'' by {
            assert(crate::database::validation::is_hex_digit(a[i]));
        }
    }
}

/// An option contract the wallet owns: the option asset, its underlying and
/// strike assets and amounts, its expiration, and the coin that holds it.
#[derive(Debug, Clone)]
pub struct OptionRow {
    pub asset: Asset,
    pub underlying_asset: Asset,
    pub underlying_amount: u64,
    pub strike_asset: Asset,
    pub strike_amount: u64,
    pub expiration_seconds: u64,
    pub coin_row: CoinRow,
    pub underlying_coin_id: [u8; 32],
}

/// The stored columns of an owned option, as SQLite returns them.
#[derive(Debug, Clone)]
pub struct OptionRowColumns {
    pub asset: AssetColumns,
    pub underlying_asset: AssetColumns,
    pub underlying_asset_kind: Option<i64>,
    pub underlying_amount: Vec<u8>,
    pub strike_asset: AssetColumns,
    pub strike_asset_kind: Option<i64>,
    pub strike_amount: Vec<u8>,
    pub expiration_seconds: i64,
    pub coin: CoinColumns,
    pub underlying_coin_id: Vec<u8>,
    pub total_count: i64,
}

impl RowColumns for OptionRowColumns {
    type Row = OptionRow;

    /// Every column converts: both stored kinds name a kind, the amounts have
    /// 8 bytes, the expiration is not negative, the coin id has 32 bytes.
    open spec fn decodable(&self) -> bool {
        &&& self.asset.decodable()
        &&& self.underlying_asset.decodable()
        &&& stored_kind(self.underlying_asset_kind) is Some
        &&& self.underlying_amount@.len() == 8
        &&& self.strike_asset.decodable()
        &&& stored_kind(self.strike_asset_kind) is Some
        &&& self.strike_amount@.len() == 8
        &&& 0 <= self.expiration_seconds
        &&& self.coin.decodable()
        &&& self.underlying_coin_id@.len() == 32
    }

    /// The option is an asset of kind option held by a coin of kind option; a
    /// missing stored kind is a token.
    open spec fn decodes_to(&self, row: OptionRow) -> bool {
        &&& self.asset.decodes_to(AssetKind::Option, row.asset)
        &&& self.underlying_asset.decodes_to(stored_kind(self.underlying_asset_kind)->0, row.underlying_asset)
        &&& row.underlying_amount == be_value(self.underlying_amount@)
        &&& self.strike_asset.decodes_to(stored_kind(self.strike_asset_kind)->0, row.strike_asset)
        &&& row.strike_amount == be_value(self.strike_amount@)
        &&& row.expiration_seconds == self.expiration_seconds
        &&& self.coin.decodes_to(CoinKind::Option, row.coin_row)
        &&& row.underlying_coin_id@ == self.underlying_coin_id@
    }

    /// `e` is the error of the first column that does not convert, in the
    /// order: the option asset, the underlying amount and coin id, the
    /// underlying kind and asset, the strike amount, kind and asset, the
    /// expiration, the coin.
    open spec fn decode_error(&self, e: DatabaseError) -> bool {
        if !self.asset.decodable() {
            self.asset.decode_error(e)
        } else if self.underlying_amount@.len() != 8 {
            e == length_error(self.underlying_amount@, 8)
        } else if self.underlying_coin_id@.len() != 32 {
            e == length_error(self.underlying_coin_id@, 32)
        } else if stored_kind(self.underlying_asset_kind) is None {
            e is InvalidEnumVariant
        } else if !self.underlying_asset.decodable() {
            self.underlying_asset.decode_error(e)
        } else if self.strike_amount@.len() != 8 {
            e == length_error(self.strike_amount@, 8)
        } else if stored_kind(self.strike_asset_kind) is None {
            e is InvalidEnumVariant
        } else if !self.strike_asset.decodable() {
            self.strike_asset.decode_error(e)
        } else if self.expiration_seconds < 0 {
            e is PrecisionLost
        } else {
            self.coin.decode_error(e)
        }
    }

    fn decode_row(self) -> (r: Result<OptionRow, DatabaseError>) {
        let asset = match self.asset.decode(AssetKind::Option) {
            Ok(v) => v,
            Err(e) => return Err(e),
        };
        let underlying_amount: u64 = match self.underlying_amount.convert() {
            Ok(v) => v,
            Err(e) => return Err(e),
        };
        let underlying_coin_id: [u8; 32] = match self.underlying_coin_id.convert() {
            Ok(v) => v,
            Err(e) => return Err(e),
        };
        let underlying_kind = match decode_stored_kind(self.underlying_asset_kind) {
            Ok(k) => k,
            Err(e) => return Err(e),
        };
        let underlying_asset = match self.underlying_asset.decode(underlying_kind) {
            Ok(v) => v,
            Err(e) => return Err(e),
        };
        let strike_amount: u64 = match self.strike_amount.convert() {
            Ok(v) => v,
            Err(e) => return Err(e),
        };
        let strike_kind = match decode_stored_kind(self.strike_asset_kind) {
            Ok(k) => k,
            Err(e) => return Err(e),
        };
        let strike_asset = match self.strike_asset.decode(strike_kind) {
            Ok(v) => v,
            Err(e) => return Err(e),
        };
        let expiration_seconds: u64 = match self.expiration_seconds.convert() {
            Ok(v) => v,
            Err(e) => return Err(e),
        };
        let coin_row = match self.coin.decode(CoinKind::Option) {
            Ok(v) => v,
            Err(e) => return Err(e),
        };
        Ok(OptionRow {
            asset,
            underlying_asset,
            underlying_amount,
            strike_asset,
            strike_amount,
            expiration_seconds,
            coin_row,
            underlying_coin_id,
        })
    }
}

/// Decodes a page of owned options: the rows, and the total count of matching
/// options that the first row carries (zero for an empty page).
pub fn owned_options_page(rows: Vec<OptionRowColumns>) -> (r: Result<(Vec<OptionRow>, u32), DatabaseError>)
    ensures
        r is Ok <==> (rows@.len() > 0 ==> 0 <= rows@[0].total_count <= u32::MAX) && forall|i: int|
            0 <= i < rows@.len() ==> #[trigger] rows@[i].decodable(),
        r matches Ok((options, total)) ==> {
            &&& total == (if rows@.len() == 0 { 0 } else { rows@[0].total_count as int })
            &&& options@.len() == rows@.len()
            &&& forall|i: int| 0 <= i < rows@.len() ==> #[trigger] rows@[i].decodes_to(options@[i])
        },
        r matches Err(e) ==> if rows@.len() > 0 && !(0 <= rows@[0].total_count <= u32::MAX) {
            e is PrecisionLost
        } else {
            first_row_error(rows@, e)
        },
{
    let first = if rows.len() > 0 {
        Some(rows[0].total_count)
    } else {
        None
    };
    let total = match page_total(first) {
        Ok(t) => t,
        Err(e) => return Err(e),
    };
    match decode_rows(rows) {
        Ok(options) => Ok((options, total)),
        Err(e) => Err(e),
    }
}

/// What the strike of an option is paid in: the chain's own coin, a CAT, or a
/// revocable CAT with its hidden puzzle hash.
#[derive(Debug, Clone, Copy, PartialEq, Eq)]
pub enum OptionType {
    Xch { amount: u64 },
    Cat { asset_id: [u8; 32], amount: u64 },
    RevocableCat { asset_id: [u8; 32], hidden_puzzle_hash: [u8; 32], amount: u64 },
}

/// The terms an option contract locks its underlying coin under.
#[derive(Debug, Clone, Copy, PartialEq, Eq)]
pub struct OptionUnderlying {
    pub launcher_id: [u8; 32],
    pub creator_puzzle_hash: [u8; 32],
    pub seconds: u64,
    pub amount: u64,
    pub strike_type: OptionType,
}

/// The stored columns of an option's terms, as SQLite returns them.
#[derive(Debug, Clone)]
pub struct OptionUnderlyingColumns {
    pub creator_puzzle_hash: Vec<u8>,
    pub expiration_seconds: i64,
    pub underlying_amount: Vec<u8>,
    pub strike_asset_hash: Vec<u8>,
    pub strike_amount: Vec<u8>,
    pub strike_hidden_puzzle_hash: Option<Vec<u8>>,
}

impl OptionUnderlyingColumns {
    /// Every column converts.
    pub open spec fn decodable(&self) -> bool {
        &&& self.strike_asset_hash@.len() == 32
        &&& self.strike_amount@.len() == 8
        &&& opt_hash_ok(self.strike_hidden_puzzle_hash)
        &&& self.creator_puzzle_hash@.len() == 32
        &&& 0 <= self.expiration_seconds
        &&& self.underlying_amount@.len() == 8
    }
}

/// `t` is the strike type that the stored strike asset gives: the chain's own
/// coin for the all-zero hash, a revocable CAT where a hidden puzzle hash is
/// stored, a CAT otherwise.
pub open spec fn is_strike_type(t: OptionType, asset_hash: Seq<u8>, hidden: Option<Vec<u8>>, amount: u64) -> bool {
    if asset_hash == Seq::new(32, |i: int| 0u8) {
        t == OptionType::Xch { amount }
    } else {
        match hidden {
            Some(h) => t matches OptionType::RevocableCat { asset_id, hidden_puzzle_hash, amount: a }
                && asset_id@ == asset_hash && hidden_puzzle_hash@ == h@ && a == amount,
            None => t matches OptionType::Cat { asset_id, amount: a } && asset_id@ == asset_hash && a == amount,
        }
    }
}

/// Whether all 32 bytes of a hash are zero.
fn is_zero_hash(hash: &[u8; 32]) -> (r: bool)
    ensures
        r == (hash@ == Seq::new(32, |i: int| 0u8)),
{
    let mut i: usize = 0;
    while i < 32
        invariant
            i <= 32,
            forall|j: int| 0 <= j < i ==> hash@[j] == 0,
        decreases 32 - i,
    {
        if hash[i] != 0 {
            proof {
                assert(hash@[i as int] != Seq::new(32, |i: int| 0u8)[i as int]);
            }
            return false;
        }
        i = i + 1;
    }
    proof {
        assert(hash@ =~= Seq::new(32, |i: int| 0u8));
    }
    true
}

/// The terms of the option launched as `launcher_id`, from its stored
/// columns: the strike is in the chain's own coin for the all-zero asset hash,
/// in a revocable CAT where a hidden puzzle hash is stored, and in a CAT
/// otherwise.
pub fn option_underlying_of(launcher_id: [u8; 32], columns: OptionUnderlyingColumns) -> (r: Result<OptionUnderlying, DatabaseError>)
    ensures
        r is Ok <==> columns.decodable(),
        r matches Ok(u) ==> {
            &&& u.launcher_id == launcher_id
            &&& u.creator_puzzle_hash@ == columns.creator_puzzle_hash@
            &&& u.seconds == columns.expiration_seconds
            &&& u.amount == be_value(columns.underlying_amount@)
            &&& is_strike_type(
                u.strike_type,
                columns.strike_asset_hash@,
                columns.strike_hidden_puzzle_hash,
                be_value(columns.strike_amount@) as u64,
            )
        },
{
    let asset_hash: [u8; 32] = match columns.strike_asset_hash.convert() {
        Ok(v) => v,
        Err(e) => return Err(e),
    };
    let amount: u64 = match columns.strike_amount.convert() {
        Ok(v) => v,
        Err(e) => return Err(e),
    };
    let hidden_puzzle_hash: Option<[u8; 32]> = match columns.strike_hidden_puzzle_hash.convert() {
        Ok(v) => v,
        Err(e) => return Err(e),
    };
    let creator_puzzle_hash: [u8; 32] = match columns.creator_puzzle_hash.convert() {
        Ok(v) => v,
        Err(e) => return Err(e),
    };
    let seconds: u64 = match columns.expiration_seconds.convert() {
        Ok(v) => v,
        Err(e) => return Err(e),
    };
    let underlying_amount: u64 = match columns.underlying_amount.convert() {
        Ok(v) => v,
        Err(e) => return Err(e),
    };
    let strike_type = if is_zero_hash(&asset_hash) {
        OptionType::Xch { amount }
    } else {
        match hidden_puzzle_hash {
            Some(hidden_puzzle_hash) => OptionType::RevocableCat { asset_id: asset_hash, hidden_puzzle_hash, amount },
            None => OptionType::Cat { asset_id: asset_hash, amount },
        }
    };
    Ok(OptionUnderlying { launcher_id, creator_puzzle_hash, seconds, amount: underlying_amount, strike_type })
}

/// What the wallet stores of an option contract's coin: its underlying coin
/// and delegated puzzle, and its strike.
#[derive(Debug, Clone, Copy)]
pub struct OptionCoinInfo {
    pub underlying_coin_hash: [u8; 32],
    pub underlying_delegated_puzzle_hash: [u8; 32],
    pub strike_asset_hash: [u8; 32],
    pub strike_amount: u64,
}

/// What an offer needs to know of an option contract: its underlying coin and
/// delegated puzzle.
#[derive(Debug, Clone, Copy)]
pub struct OptionOfferInfo {
    pub underlying_coin_hash: [u8; 32],
    pub underlying_delegated_puzzle_hash: [u8; 32],
}

/// The stored columns of an option's offer terms.
#[derive(Debug, Clone)]
pub struct OptionOfferInfoColumns {
    pub underlying_coin_hash: Vec<u8>,
    pub underlying_delegated_puzzle_hash: Vec<u8>,
}

impl RowColumns for OptionOfferInfoColumns {
    type Row = OptionOfferInfo;

    open spec fn decodable(&self) -> bool {
        &&& self.underlying_coin_hash@.len() == 32
        &&& self.underlying_delegated_puzzle_hash@.len() == 32
    }

    open spec fn decodes_to(&self, info: OptionOfferInfo) -> bool {
        &&& info.underlying_coin_hash@ == self.underlying_coin_hash@
        &&& info.underlying_delegated_puzzle_hash@ == self.underlying_delegated_puzzle_hash@
    }

    /// `e` is the error of the first hash, in the order listed, that has not
    /// 32 bytes.
    open spec fn decode_error(&self, e: DatabaseError) -> bool {
        if self.underlying_coin_hash@.len() != 32 {
            e == length_error(self.underlying_coin_hash@, 32)
        } else {
            e == length_error(self.underlying_delegated_puzzle_hash@, 32)
        }
    }

    fn decode_row(self) -> (r: Result<OptionOfferInfo, DatabaseError>) {
        let underlying_coin_hash: [u8; 32] = match self.underlying_coin_hash.convert() {
            Ok(v) => v,
            Err(e) => return Err(e),
        };
        let underlying_delegated_puzzle_hash: [u8; 32] = match self.underlying_delegated_puzzle_hash.convert() {
            Ok(v) => v,
            Err(e) => return Err(e),
        };
        Ok(OptionOfferInfo { underlying_coin_hash, underlying_delegated_puzzle_hash })
    }
}

} // verus!
