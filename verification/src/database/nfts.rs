//! NFTs the wallet owns: the listing query and the decoding of its rows.

use vstd::prelude::*;

use crate::convert::Convert;
use crate::database::assets::{opt_text, Asset, AssetColumns, AssetKind};
use crate::database::coins::{
    length_error, opt_bytes_column, opt_hash, opt_hash_ok, opt_int, opt_length_error, opt_u64_int,
    opt_u64_ok, CoinColumns, CoinKind, CoinRow,
};
use crate::database::options::opt_string_view;
use crate::database::sql::{
    contains_text, lemma_occurs_extended, occurs_at,
    decode_rows, first_row_error, like_pattern, new_query, page_total, push_bind_blob,
    push_bind_text, push_bind_u32, push_sql, query_binds, query_sql, RowColumns, SqlQuery,
    SqlValue,
};
use crate::error::DatabaseError;

verus! {

/// The order of an NFT listing.
#[derive(Debug, Clone, Copy, PartialEq, Eq, Structural, Hash)]
pub enum NftSortMode {
    Recent,
    Name,
}

/// A group of NFTs to list: by collection, minter DID or owner DID, or those
/// without one.
#[derive(Debug, Clone, Copy, PartialEq, Eq, Hash)]
pub enum NftGroupSearch {
    Collection([u8; 32]),
    NoCollection,
    MinterDid([u8; 32]),
    NoMinterDid,
    OwnerDid([u8; 32]),
    NoOwnerDid,
}

/// What the wallet knows of an NFT's coin: its collection, DIDs, metadata and
/// royalty terms.
#[derive(Debug, Clone)]
pub struct NftCoinInfo {
    pub collection_hash: [u8; 32],
    pub collection_name: Option<String>,
    pub minter_hash: Option<[u8; 32]>,
    pub owner_hash: Option<[u8; 32]>,
    pub metadata: Vec<u8>,
    pub metadata_updater_puzzle_hash: [u8; 32],
    pub royalty_puzzle_hash: [u8; 32],
    pub royalty_basis_points: u16,
    pub data_hash: Option<[u8; 32]>,
    pub metadata_hash: Option<[u8; 32]>,
    pub license_hash: Option<[u8; 32]>,
    pub edition_number: Option<u64>,
    pub edition_total: Option<u64>,
}

/// An NFT the wallet owns: the asset, its NFT data and its coin.
#[derive(Debug, Clone)]
pub struct NftRow {
    pub asset: Asset,
    pub nft_info: NftCoinInfo,
    pub coin_row: CoinRow,
}

/// The statement that lists owned NFTs, before its filters and order.
pub const OWNED_NFTS_SELECT: &'static str = "
            SELECT        
                asset_hash, asset_name, asset_ticker, asset_precision, asset_icon_url,
                asset_description, asset_is_sensitive_content, asset_is_visible,
                collections.hash AS collection_hash, collections.name AS collection_name, 
                owned_nfts.minter_hash, owner_hash, metadata, metadata_updater_puzzle_hash,
                royalty_puzzle_hash, royalty_basis_points, data_hash, metadata_hash, license_hash,
                edition_number, edition_total,
                parent_coin_hash, puzzle_hash, amount, p2_puzzle_hash, created_height, spent_height,
                offer_hash,created_timestamp, spent_timestamp,
                COUNT(*) OVER() as total_count	
            FROM owned_nfts
            LEFT JOIN collections ON collections.id = owned_nfts.collection_id
            WHERE 1=1
            ";

/// `sql` followed by the name filter, where a name is searched for.
pub open spec fn nft_name_sql(sql: Seq<char>, name_search: Option<Seq<char>>) -> Seq<char> {
    match name_search {
        None => sql,
        Some(_) => sql + "AND asset_name LIKE "@ + "?"@,
    }
}

/// The pattern that the name filter binds.
pub open spec fn nft_name_binds(binds: Seq<SqlValue>, name_search: Option<Seq<char>>) -> Seq<SqlValue> {
    match name_search {
        None => binds,
        Some(v) => binds.push(SqlValue::Text("%"@ + v + "%"@)),
    }
}

/// `sql` followed by the group filter of the owned NFTs listing.
pub open spec fn owned_nfts_group_sql(sql: Seq<char>, group: Option<NftGroupSearch>) -> Seq<char> {
    match group {
        None => sql,
        Some(NftGroupSearch::Collection(_)) => sql + " AND collections.hash = "@ + "?"@,
        Some(NftGroupSearch::NoCollection) => sql + " AND collections.hash IS NULL"@,
        Some(NftGroupSearch::MinterDid(_)) => sql + " AND owned_nfts.minter_hash = "@ + "?"@,
        Some(NftGroupSearch::NoMinterDid) => sql + " AND owned_nfts.minter_hash IS NULL"@,
        Some(NftGroupSearch::OwnerDid(_)) => sql + " AND owned_nfts.owner_hash = "@ + "?"@,
        Some(NftGroupSearch::NoOwnerDid) => sql + " AND owner_hash IS NULL"@,
    }
}

/// The hash that a group filter binds, if any.
pub open spec fn nft_group_binds(binds: Seq<SqlValue>, group: Option<NftGroupSearch>) -> Seq<SqlValue> {
    match group {
        Some(NftGroupSearch::Collection(id)) => binds.push(SqlValue::Blob(id@)),
        Some(NftGroupSearch::MinterDid(id)) => binds.push(SqlValue::Blob(id@)),
        Some(NftGroupSearch::OwnerDid(id)) => binds.push(SqlValue::Blob(id@)),
        _ => binds,
    }
}

/// `sql` followed by the order of the owned NFTs listing and the page bounds:
/// visible ones first where hidden ones are listed too.
pub open spec fn owned_nfts_order_sql(sql: Seq<char>, sort_mode: NftSortMode, include_hidden: bool) -> Seq<char> {
    let head = sql + " ORDER BY "@;
    let visible = if include_hidden {
        head + "asset_is_visible DESC, "@
    } else {
        head
    };
    let ordered = match sort_mode {
        NftSortMode::Recent => visible + "(created_height IS NULL) DESC, created_height DESC"@,
        NftSortMode::Name => visible + "asset_name ASC, edition_number ASC"@,
    };
    ordered + " LIMIT "@ + "?"@ + " OFFSET "@ + "?"@
}

/// The statement that lists owned NFTs.
pub open spec fn owned_nfts_sql(
    name_search: Option<Seq<char>>,
    group: Option<NftGroupSearch>,
    sort_mode: NftSortMode,
    include_hidden: bool,
) -> Seq<char> {
    owned_nfts_order_sql(
        owned_nfts_group_sql(nft_name_sql(OWNED_NFTS_SELECT@, name_search), group),
        sort_mode,
        include_hidden,
    )
}

/// The order of the owned NFT listing: visible NFTs first where hidden ones
/// are listed too; then, by recency, pending NFTs (no creation height) first
/// and the others newest first, by creation height descending; by name,
/// alphabetically and then by edition number. The page bounds follow.
pub proof fn lemma_owned_nfts_order(
    name_search: Option<Seq<char>>,
    group: Option<NftGroupSearch>,
    sort_mode: NftSortMode,
    include_hidden: bool,
)
    ensures
        contains_text(
            owned_nfts_sql(name_search, group, sort_mode, include_hidden),
            match sort_mode {
                NftSortMode::Recent => if include_hidden {
                    "ORDER BY asset_is_visible DESC, (created_height IS NULL) DESC, created_height DESC LIMIT ? OFFSET ?"@
                } else {
                    "ORDER BY (created_height IS NULL) DESC, created_height DESC LIMIT ? OFFSET ?"@
                },
                NftSortMode::Name => if include_hidden {
                    "ORDER BY asset_is_visible DESC, asset_name ASC, edition_number ASC LIMIT ? OFFSET ?"@
                } else {
                    "ORDER BY asset_name ASC, edition_number ASC LIMIT ? OFFSET ?"@
                },
            },
        ),
{
    reveal_strlit(" ORDER BY ");
    reveal_strlit("asset_is_visible DESC, ");
    reveal_strlit("(created_height IS NULL) DESC, created_height DESC");
    reveal_strlit("asset_name ASC, edition_number ASC");
    reveal_strlit(" LIMIT ");
    reveal_strlit("?");
    reveal_strlit(" OFFSET ");
    reveal_strlit("ORDER BY asset_is_visible DESC, (created_height IS NULL) DESC, created_height DESC LIMIT ? OFFSET ?");
    reveal_strlit("ORDER BY (created_height IS NULL) DESC, created_height DESC LIMIT ? OFFSET ?");
    reveal_strlit("ORDER BY asset_is_visible DESC, asset_name ASC, edition_number ASC LIMIT ? OFFSET ?");
    reveal_strlit("ORDER BY asset_name ASC, edition_number ASC LIMIT ? OFFSET ?");
    let filtered = owned_nfts_group_sql(nft_name_sql(OWNED_NFTS_SELECT@, name_search), group);
    let sql = owned_nfts_sql(name_search, group, sort_mode, include_hidden);
    let at = filtered.len() as int + 1;
    let part = match sort_mode {
        NftSortMode::Recent => if include_hidden {
            "ORDER BY asset_is_visible DESC, (created_height IS NULL) DESC, created_height DESC LIMIT ? OFFSET ?"@
        } else {
            "ORDER BY (created_height IS NULL) DESC, created_height DESC LIMIT ? OFFSET ?"@
        },
        NftSortMode::Name => if include_hidden {
            "ORDER BY asset_is_visible DESC, asset_name ASC, edition_number ASC LIMIT ? OFFSET ?"@
        } else {
            "ORDER BY asset_name ASC, edition_number ASC LIMIT ? OFFSET ?"@
        },
    };
    assert(sql.subrange(at, at + part.len() as int) =~= part);
    assert(occurs_at(sql, part, at));
}

/// The owned NFT listing keeps only the asked group: NFTs of the given
/// collection, minter or owner, or those with none, each by its own
/// condition; and, where a name is searched for, only NFTs whose name matches
/// the bound pattern. Sort and visibility do not change the filters.
pub proof fn lemma_owned_nfts_filters(
    name_search: Option<Seq<char>>,
    group: Option<NftGroupSearch>,
    sort_mode: NftSortMode,
    include_hidden: bool,
)
    ensures
        group is Some ==> contains_text(
            owned_nfts_sql(name_search, group, sort_mode, include_hidden),
            match group {
                Some(NftGroupSearch::Collection(_)) => "AND collections.hash = ?"@,
                Some(NftGroupSearch::NoCollection) => "AND collections.hash IS NULL"@,
                Some(NftGroupSearch::MinterDid(_)) => "AND owned_nfts.minter_hash = ?"@,
                Some(NftGroupSearch::NoMinterDid) => "AND owned_nfts.minter_hash IS NULL"@,
                Some(NftGroupSearch::OwnerDid(_)) => "AND owned_nfts.owner_hash = ?"@,
                Some(NftGroupSearch::NoOwnerDid) => "AND owner_hash IS NULL"@,
                None => ""@,
            },
        ),
        name_search is Some ==> contains_text(
            owned_nfts_sql(name_search, group, sort_mode, include_hidden),
            "AND asset_name LIKE ?"@,
        ),
{
    reveal_strlit("AND collections.hash = ?");
    reveal_strlit("AND collections.hash IS NULL");
    reveal_strlit("AND owned_nfts.minter_hash = ?");
    reveal_strlit("AND owned_nfts.minter_hash IS NULL");
    reveal_strlit("AND owned_nfts.owner_hash = ?");
    reveal_strlit("AND owner_hash IS NULL");
    reveal_strlit(" AND collections.hash = ");
    reveal_strlit(" AND collections.hash IS NULL");
    reveal_strlit(" AND owned_nfts.minter_hash = ");
    reveal_strlit(" AND owned_nfts.minter_hash IS NULL");
    reveal_strlit(" AND owned_nfts.owner_hash = ");
    reveal_strlit(" AND owner_hash IS NULL");
    reveal_strlit("AND asset_name LIKE ");
    reveal_strlit("AND asset_name LIKE ?");
    reveal_strlit("?");
    reveal_strlit("");
    let named = nft_name_sql(OWNED_NFTS_SELECT@, name_search);
    let grouped = owned_nfts_group_sql(named, group);
    let sql = owned_nfts_sql(name_search, group, sort_mode, include_hidden);
    let tail = sql.subrange(grouped.len() as int, sql.len() as int);
    assert(sql =~= grouped + tail);
    if group is Some {
        let part = match group {
            Some(NftGroupSearch::Collection(_)) => "AND collections.hash = ?"@,
            Some(NftGroupSearch::NoCollection) => "AND collections.hash IS NULL"@,
            Some(NftGroupSearch::MinterDid(_)) => "AND owned_nfts.minter_hash = ?"@,
            Some(NftGroupSearch::NoMinterDid) => "AND owned_nfts.minter_hash IS NULL"@,
            Some(NftGroupSearch::OwnerDid(_)) => "AND owned_nfts.owner_hash = ?"@,
            Some(NftGroupSearch::NoOwnerDid) => "AND owner_hash IS NULL"@,
            None => ""@,
        };
        let at = named.len() as int + 1;
        assert(grouped.subrange(at, at + part.len() as int) =~= part);
        lemma_occurs_extended(grouped, tail, part, at);
        assert(occurs_at(sql, part, at));
    }
    if name_search is Some {
        let part = "AND asset_name LIKE ?"@;
        let at = OWNED_NFTS_SELECT@.len() as int;
        assert(named.subrange(at, at + part.len() as int) =~= part);
        assert(grouped =~= named + grouped.subrange(named.len() as int, grouped.len() as int));
        lemma_occurs_extended(named, grouped.subrange(named.len() as int, grouped.len() as int), part, at);
        lemma_occurs_extended(grouped, tail, part, at);
        assert(occurs_at(sql, part, at));
    }
}

/// The arguments of the statement listing owned NFTs: the name pattern, the
/// group's hash, then the limit and the offset.
pub open spec fn nft_listing_binds(
    name_search: Option<Seq<char>>,
    group: Option<NftGroupSearch>,
    limit: u32,
    offset: u32,
) -> Seq<SqlValue> {
    nft_group_binds(nft_name_binds(Seq::empty(), name_search), group).push(
        SqlValue::Integer(limit as int),
    ).push(SqlValue::Integer(offset as int))
}

/// The statement listing the owned NFTs, a page at a time: those whose name
/// matches `name_search` and that are in `group`, where given; in the order of
/// `sort_mode`, visible ones first where hidden ones are listed too. The limit
/// and offset are bound to the closing `LIMIT ? OFFSET ?`.
pub fn owned_nfts_query(
    name_search: Option<String>,
    group_search: Option<NftGroupSearch>,
    sort_mode: NftSortMode,
    include_hidden: bool,
    limit: u32,
    offset: u32,
) -> (query: SqlQuery)
    ensures
        query_sql(query) == owned_nfts_sql(opt_string_view(name_search), group_search, sort_mode, include_hidden),
        query_binds(query) == nft_listing_binds(opt_string_view(name_search), group_search, limit, offset),
{
    let mut query = new_query(OWNED_NFTS_SELECT);
    if let Some(name_search) = name_search {
        push_sql(&mut query, "AND asset_name LIKE ");
        push_bind_text(&mut query, like_pattern(name_search.as_str()));
    }
    if let Some(group) = group_search {
        match group {
            NftGroupSearch::Collection(id) => {
                push_sql(&mut query, " AND collections.hash = ");
                push_bind_blob(&mut query, vstd::slice::slice_to_vec(id.as_slice()));
            },
            NftGroupSearch::NoCollection => {
                push_sql(&mut query, " AND collections.hash IS NULL");
            },
            NftGroupSearch::MinterDid(id) => {
                push_sql(&mut query, " AND owned_nfts.minter_hash = ");
                push_bind_blob(&mut query, vstd::slice::slice_to_vec(id.as_slice()));
            },
            NftGroupSearch::NoMinterDid => {
                push_sql(&mut query, " AND owned_nfts.minter_hash IS NULL");
            },
            NftGroupSearch::OwnerDid(id) => {
                push_sql(&mut query, " AND owned_nfts.owner_hash = ");
                push_bind_blob(&mut query, vstd::slice::slice_to_vec(id.as_slice()));
            },
            NftGroupSearch::NoOwnerDid => {
                push_sql(&mut query, " AND owner_hash IS NULL");
            },
        }
    }
    push_sql(&mut query, " ORDER BY ");
    if include_hidden {
        push_sql(&mut query, "asset_is_visible DESC, ");
    }
    match sort_mode {
        NftSortMode::Recent => {
            push_sql(&mut query, "(created_height IS NULL) DESC, created_height DESC");
        },
        NftSortMode::Name => {
            push_sql(&mut query, "asset_name ASC, edition_number ASC");
        },
    }
    push_sql(&mut query, " LIMIT ");
    push_bind_u32(&mut query, limit);
    push_sql(&mut query, " OFFSET ");
    push_bind_u32(&mut query, offset);
    query
}

/// The stored columns of an owned NFT, as SQLite returns them.
#[derive(Debug, Clone)]
pub struct NftRowColumns {
    pub asset: AssetColumns,
    pub collection_hash: Option<Vec<u8>>,
    pub collection_name: Option<String>,
    pub minter_hash: Option<Vec<u8>>,
    pub owner_hash: Option<Vec<u8>>,
    pub metadata: Vec<u8>,
    pub metadata_updater_puzzle_hash: Vec<u8>,
    pub royalty_puzzle_hash: Vec<u8>,
    pub royalty_basis_points: i64,
    pub data_hash: Option<Vec<u8>>,
    pub metadata_hash: Option<Vec<u8>>,
    pub license_hash: Option<Vec<u8>>,
    pub edition_number: Option<i64>,
    pub edition_total: Option<i64>,
    pub coin: CoinColumns,
    pub total_count: i64,
}

/// The collection hash of an NFT: the stored one, or all zeroes for none.
pub open spec fn collection_hash_or_default(stored: Option<Vec<u8>>) -> Seq<u8> {
    match stored {
        Some(h) => h@,
        None => Seq::new(32, |i: int| 0u8),
    }
}

impl RowColumns for NftRowColumns {
    type Row = NftRow;

    /// Every column converts: hashes have 32 bytes, the royalty fits 16
    /// unsigned bits, edition numbers are not negative.
    open spec fn decodable(&self) -> bool {
        &&& self.asset.decodable()
        &&& opt_hash_ok(self.collection_hash)
        &&& opt_hash_ok(self.minter_hash)
        &&& opt_hash_ok(self.owner_hash)
        &&& self.metadata_updater_puzzle_hash@.len() == 32
        &&& self.royalty_puzzle_hash@.len() == 32
        &&& 0 <= self.royalty_basis_points <= u16::MAX
        &&& opt_hash_ok(self.data_hash)
        &&& opt_hash_ok(self.metadata_hash)
        &&& opt_hash_ok(self.license_hash)
        &&& opt_u64_ok(self.edition_number)
        &&& opt_u64_ok(self.edition_total)
        &&& self.coin.decodable()
    }

    /// The NFT is an asset of kind NFT held by a coin of kind NFT; a missing
    /// collection hash is all zeroes.
    open spec fn decodes_to(&self, row: NftRow) -> bool {
        &&& self.asset.decodes_to(AssetKind::Nft, row.asset)
        &&& row.nft_info.collection_hash@ == collection_hash_or_default(self.collection_hash)
        &&& opt_text(row.nft_info.collection_name) == opt_text(self.collection_name)
        &&& opt_hash(row.nft_info.minter_hash) == opt_bytes_column(self.minter_hash)
        &&& opt_hash(row.nft_info.owner_hash) == opt_bytes_column(self.owner_hash)
        &&& row.nft_info.metadata@ == self.metadata@
        &&& row.nft_info.metadata_updater_puzzle_hash@ == self.metadata_updater_puzzle_hash@
        &&& row.nft_info.royalty_puzzle_hash@ == self.royalty_puzzle_hash@
        &&& row.nft_info.royalty_basis_points == self.royalty_basis_points
        &&& opt_hash(row.nft_info.data_hash) == opt_bytes_column(self.data_hash)
        &&& opt_hash(row.nft_info.metadata_hash) == opt_bytes_column(self.metadata_hash)
        &&& opt_hash(row.nft_info.license_hash) == opt_bytes_column(self.license_hash)
        &&& opt_u64_int(row.nft_info.edition_number) == opt_int(self.edition_number)
        &&& opt_u64_int(row.nft_info.edition_total) == opt_int(self.edition_total)
        &&& self.coin.decodes_to(CoinKind::Nft, row.coin_row)
    }

    /// `e` is the error of the first column, in the order listed, that does
    /// not convert.
    open spec fn decode_error(&self, e: DatabaseError) -> bool {
        if !self.asset.decodable() {
            self.asset.decode_error(e)
        } else if !opt_hash_ok(self.collection_hash) {
            opt_length_error(self.collection_hash, e)
        } else if !opt_hash_ok(self.minter_hash) {
            opt_length_error(self.minter_hash, e)
        } else if !opt_hash_ok(self.owner_hash) {
            opt_length_error(self.owner_hash, e)
        } else if self.metadata_updater_puzzle_hash@.len() != 32 {
            e == length_error(self.metadata_updater_puzzle_hash@, 32)
        } else if self.royalty_puzzle_hash@.len() != 32 {
            e == length_error(self.royalty_puzzle_hash@, 32)
        } else if !(0 <= self.royalty_basis_points <= u16::MAX) {
            e is PrecisionLost
        } else if !opt_hash_ok(self.data_hash) {
            opt_length_error(self.data_hash, e)
        } else if !opt_hash_ok(self.metadata_hash) {
            opt_length_error(self.metadata_hash, e)
        } else if !opt_hash_ok(self.license_hash) {
            opt_length_error(self.license_hash, e)
        } else if !opt_u64_ok(self.edition_number) {
            e is PrecisionLost
        } else if !opt_u64_ok(self.edition_total) {
            e is PrecisionLost
        } else {
            self.coin.decode_error(e)
        }
    }

    fn decode_row(self) -> (r: Result<NftRow, DatabaseError>) {
        let asset = match self.asset.decode(AssetKind::Nft) {
            Ok(v) => v,
            Err(e) => return Err(e),
        };
        let collection: Option<[u8; 32]> = match self.collection_hash.convert() {
            Ok(v) => v,
            Err(e) => return Err(e),
        };
        let collection_hash: [u8; 32] = match collection {
            Some(h) => h,
            None => [0u8; 32],
        };
        let minter_hash: Option<[u8; 32]> = match self.minter_hash.convert() {
            Ok(v) => v,
            Err(e) => return Err(e),
        };
        let owner_hash: Option<[u8; 32]> = match self.owner_hash.convert() {
            Ok(v) => v,
            Err(e) => return Err(e),
        };
        let metadata_updater_puzzle_hash: [u8; 32] = match self.metadata_updater_puzzle_hash.convert() {
            Ok(v) => v,
            Err(e) => return Err(e),
        };
        let royalty_puzzle_hash: [u8; 32] = match self.royalty_puzzle_hash.convert() {
            Ok(v) => v,
            Err(e) => return Err(e),
        };
        let royalty_basis_points: u16 = match self.royalty_basis_points.convert() {
            Ok(v) => v,
            Err(e) => return Err(e),
        };
        let data_hash: Option<[u8; 32]> = match self.data_hash.convert() {
            Ok(v) => v,
            Err(e) => return Err(e),
        };
        let metadata_hash: Option<[u8; 32]> = match self.metadata_hash.convert() {
            Ok(v) => v,
            Err(e) => return Err(e),
        };
        let license_hash: Option<[u8; 32]> = match self.license_hash.convert() {
            Ok(v) => v,
            Err(e) => return Err(e),
        };
        let edition_number: Option<u64> = match self.edition_number.convert() {
            Ok(v) => v,
            Err(e) => return Err(e),
        };
        let edition_total: Option<u64> = match self.edition_total.convert() {
            Ok(v) => v,
            Err(e) => return Err(e),
        };
        let coin_row = match self.coin.decode(CoinKind::Nft) {
            Ok(v) => v,
            Err(e) => return Err(e),
        };
        proof {
            if self.collection_hash is None {
                assert(collection_hash@ =~= collection_hash_or_default(self.collection_hash));
            }
        }
        Ok(NftRow {
            asset,
            nft_info: NftCoinInfo {
                collection_hash,
                collection_name: self.collection_name,
                minter_hash,
                owner_hash,
                metadata: self.metadata,
                metadata_updater_puzzle_hash,
                royalty_puzzle_hash,
                royalty_basis_points,
                data_hash,
                metadata_hash,
                license_hash,
                edition_number,
                edition_total,
            },
            coin_row,
        })
    }
}

/// Decodes a page of owned NFTs: the rows, and the total count of matching
/// NFTs that the first row carries (zero for an empty page).
pub fn owned_nfts_page(rows: Vec<NftRowColumns>) -> (r: Result<(Vec<NftRow>, u32), DatabaseError>)
    ensures
        r is Ok <==> (rows@.len() > 0 ==> 0 <= rows@[0].total_count <= u32::MAX) && forall|i: int|
            0 <= i < rows@.len() ==> #[trigger] rows@[i].decodable(),
        r matches Ok((nfts, total)) ==> {
            &&& total == (if rows@.len() == 0 { 0 } else { rows@[0].total_count as int })
            &&& nfts@.len() == rows@.len()
            &&& forall|i: int| 0 <= i < rows@.len() ==> #[trigger] rows@[i].decodes_to(nfts@[i])
        },
        r matches Err(e) ==> if rows@.len() > 0 && !(0 <= rows@[0].total_count <= u32::MAX) {
            e is PrecisionLost
        } else {
            first_row_error(rows@, e)
        },
{
    let first = if rows.len() > 0 {
        Some(rows[0].total_count)
    } else {
        None
    };
    let total = match page_total(first) {
        Ok(t) => t,
        Err(e) => return Err(e),
    };
    match decode_rows(rows) {
        Ok(nfts) => Ok((nfts, total)),
        Err(e) => Err(e),
    }
}

/// What an offer needs to know of an NFT: its metadata, who may update it,
/// and its royalty terms.
#[derive(Debug, Clone)]
pub struct NftOfferInfo {
    pub metadata: Vec<u8>,
    pub metadata_updater_puzzle_hash: [u8; 32],
    pub royalty_puzzle_hash: [u8; 32],
    pub royalty_basis_points: u16,
}

/// The stored columns of an NFT's offer terms.
#[derive(Debug, Clone)]
pub struct NftOfferInfoColumns {
    pub metadata: Vec<u8>,
    pub metadata_updater_puzzle_hash: Vec<u8>,
    pub royalty_puzzle_hash: Vec<u8>,
    pub royalty_basis_points: i64,
}

impl RowColumns for NftOfferInfoColumns {
    type Row = NftOfferInfo;

    /// The puzzle hashes have 32 bytes and the royalty fits 16 unsigned bits.
    open spec fn decodable(&self) -> bool {
        &&& self.metadata_updater_puzzle_hash@.len() == 32
        &&& self.royalty_puzzle_hash@.len() == 32
        &&& 0 <= self.royalty_basis_points <= u16::MAX
    }

    open spec fn decodes_to(&self, info: NftOfferInfo) -> bool {
        &&& info.metadata@ == self.metadata@
        &&& info.metadata_updater_puzzle_hash@ == self.metadata_updater_puzzle_hash@
        &&& info.royalty_puzzle_hash@ == self.royalty_puzzle_hash@
        &&& info.royalty_basis_points == self.royalty_basis_points
    }

    /// `e` is the error of the first column, in the order listed, that does
    /// not convert.
    open spec fn decode_error(&self, e: DatabaseError) -> bool {
        if self.metadata_updater_puzzle_hash@.len() != 32 {
            e == length_error(self.metadata_updater_puzzle_hash@, 32)
        } else if self.royalty_puzzle_hash@.len() != 32 {
            e == length_error(self.royalty_puzzle_hash@, 32)
        } else {
            e is PrecisionLost
        }
    }

    fn decode_row(self) -> (r: Result<NftOfferInfo, DatabaseError>) {
        let metadata_updater_puzzle_hash: [u8; 32] = match self.metadata_updater_puzzle_hash.convert() {
            Ok(v) => v,
            Err(e) => return Err(e),
        };
        let royalty_puzzle_hash: [u8; 32] = match self.royalty_puzzle_hash.convert() {
            Ok(v) => v,
            Err(e) => return Err(e),
        };
        let royalty_basis_points: u16 = match self.royalty_basis_points.convert() {
            Ok(v) => v,
            Err(e) => return Err(e),
        };
        Ok(NftOfferInfo { metadata: self.metadata, metadata_updater_puzzle_hash, royalty_puzzle_hash, royalty_basis_points })
    }
}

} // verus!
