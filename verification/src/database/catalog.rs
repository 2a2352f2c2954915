//! The asset catalog: every NFT the wallet has seen, owned or not, with its
//! listing query and the decoding of its rows.

use vstd::prelude::*;

use crate::convert::Convert;
use crate::database::assets::opt_text;
use crate::database::coins::{
    length_error, opt_bytes_column, opt_hash, opt_hash_ok, opt_int, opt_length_error, opt_u32_int,
    opt_u32_ok, opt_u64_int, opt_u64_ok,
};
use crate::database::dids::DidCoinInfo;
use crate::database::nfts::{nft_group_binds, nft_name_binds, NftGroupSearch, NftSortMode};
use crate::database::options::opt_string_view;
use crate::database::sql::{
    contains_text, lemma_occurs_extended, occurs_at,
    decode_rows, first_row_error, like_pattern, new_query, page_total, push_bind_blob,
    push_bind_text, push_bind_u32, push_sql, query_binds, query_sql, RowColumns, SqlQuery,
    SqlValue,
};
use crate::error::DatabaseError;

verus! {

/// An asset of the catalog: its hash, what is known of it, and the height it
/// was created at.
#[derive(Debug, Clone)]
pub struct CatalogAsset {
    pub hash: [u8; 32],
    pub name: Option<String>,
    pub icon_url: Option<String>,
    pub description: Option<String>,
    pub is_sensitive_content: bool,
    pub is_visible: bool,
    pub created_height: Option<u32>,
}

impl CatalogAsset {
    /// An asset known by its hash alone: no name, icon or description, not
    /// marked sensitive, with the given visibility and creation height.
    pub fn empty(hash: [u8; 32], is_visible: bool, created_height: Option<u32>) -> (asset: Self)
        ensures
            asset.hash == hash,
            asset.name is None,
            asset.icon_url is None,
            asset.description is None,
            !asset.is_sensitive_content,
            asset.is_visible == is_visible,
            asset.created_height == created_height,
    {
        CatalogAsset {
            hash,
            name: None,
            icon_url: None,
            description: None,
            is_sensitive_content: false,
            is_visible,
            created_height,
        }
    }
}

/// A CAT of the catalog and its ticker.
#[derive(Debug, Clone)]
pub struct CatAsset {
    pub asset: CatalogAsset,
    pub ticker: Option<String>,
}

/// A DID of the catalog and its DID data.
#[derive(Debug, Clone)]
pub struct DidAsset {
    pub asset: CatalogAsset,
    pub did_info: DidCoinInfo,
}

/// What an NFT's metadata tells of it.
#[derive(Debug, Clone)]
pub struct NftMetadataInfo {
    pub name: Option<String>,
    pub description: Option<String>,
    pub is_sensitive_content: bool,
    pub collection_id: Option<[u8; 32]>,
}

/// The stored columns of a catalog asset, as SQLite returns them.
#[derive(Debug, Clone)]
pub struct CatalogAssetColumns {
    pub hash: Vec<u8>,
    pub name: Option<String>,
    pub icon_url: Option<String>,
    pub description: Option<String>,
    pub is_visible: bool,
    pub is_sensitive_content: bool,
    pub created_height: Option<i64>,
}

impl CatalogAssetColumns {
    /// The hash has 32 bytes and the height fits 32 unsigned bits.
    pub open spec fn decodable(&self) -> bool {
        &&& self.hash@.len() == 32
        &&& opt_u32_ok(self.created_height)
    }

    /// `asset` holds these columns' values.
    pub open spec fn decodes_to(&self, asset: CatalogAsset) -> bool {
        &&& asset.hash@ == self.hash@
        &&& opt_text(asset.name) == opt_text(self.name)
        &&& opt_text(asset.icon_url) == opt_text(self.icon_url)
        &&& opt_text(asset.description) == opt_text(self.description)
        &&& asset.is_visible == self.is_visible
        &&& asset.is_sensitive_content == self.is_sensitive_content
        &&& opt_u32_int(asset.created_height) == opt_int(self.created_height)
    }

    /// `e` is the error of the first column, in the order listed, that does
    /// not convert.
    pub open spec fn decode_error(&self, e: DatabaseError) -> bool {
        if self.hash@.len() != 32 {
            e == length_error(self.hash@, 32)
        } else {
            e is PrecisionLost
        }
    }

    /// Converts the columns into a catalog asset; fails with the error of the
    /// first column that does not convert.
    pub fn decode(self) -> (r: Result<CatalogAsset, DatabaseError>)
        ensures
            r is Ok <==> self.decodable(),
            r matches Ok(asset) ==> self.decodes_to(asset),
            r matches Err(e) ==> self.decode_error(e),
    {
        let hash: [u8; 32] = match self.hash.convert() {
            Ok(v) => v,
            Err(e) => return Err(e),
        };
        let created_height: Option<u32> = match self.created_height.convert() {
            Ok(v) => v,
            Err(e) => return Err(e),
        };
        Ok(CatalogAsset {
            hash,
            name: self.name,
            icon_url: self.icon_url,
            description: self.description,
            is_sensitive_content: self.is_sensitive_content,
            is_visible: self.is_visible,
            created_height,
        })
    }
}

/// The stored columns of a catalog CAT, with the total count of its listing
/// (zero where it is looked up alone).
#[derive(Debug, Clone)]
pub struct CatAssetColumns {
    pub asset: CatalogAssetColumns,
    pub ticker: Option<String>,
    pub total_count: i64,
}

impl RowColumns for CatAssetColumns {
    type Row = CatAsset;

    open spec fn decodable(&self) -> bool {
        self.asset.decodable()
    }

    open spec fn decodes_to(&self, cat: CatAsset) -> bool {
        &&& self.asset.decodes_to(cat.asset)
        &&& opt_text(cat.ticker) == opt_text(self.ticker)
    }

    open spec fn decode_error(&self, e: DatabaseError) -> bool {
        self.asset.decode_error(e)
    }

    fn decode_row(self) -> (r: Result<CatAsset, DatabaseError>) {
        match self.asset.decode() {
            Ok(asset) => Ok(CatAsset { asset, ticker: self.ticker }),
            Err(e) => Err(e),
        }
    }
}

/// Decodes a page of catalog CATs: the rows, and the total count of CATs that
/// the first row carries (zero for an empty page).
pub fn cat_assets_page(rows: Vec<CatAssetColumns>) -> (r: Result<(Vec<CatAsset>, u32), DatabaseError>)
    ensures
        r is Ok <==> (rows@.len() > 0 ==> 0 <= rows@[0].total_count <= u32::MAX) && forall|i: int|
            0 <= i < rows@.len() ==> #[trigger] rows@[i].decodable(),
        r matches Ok((cats, total)) ==> {
            &&& total == (if rows@.len() == 0 { 0 } else { rows@[0].total_count as int })
            &&& cats@.len() == rows@.len()
            &&& forall|i: int| 0 <= i < rows@.len() ==> #[trigger] rows@[i].decodes_to(cats@[i])
        },
        r matches Err(e) ==> if rows@.len() > 0 && !(0 <= rows@[0].total_count <= u32::MAX) {
            e is PrecisionLost
        } else {
            first_row_error(rows@, e)
        },
{
    let first = if rows.len() > 0 {
        Some(rows[0].total_count)
    } else {
        None
    };
    let total = match page_total(first) {
        Ok(t) => t,
        Err(e) => return Err(e),
    };
    match decode_rows(rows) {
        Ok(cats) => Ok((cats, total)),
        Err(e) => Err(e),
    }
}

/// The stored columns of a catalog DID.
#[derive(Debug, Clone)]
pub struct DidAssetColumns {
    pub asset: CatalogAssetColumns,
    pub metadata: Vec<u8>,
    pub recovery_list_hash: Option<Vec<u8>>,
    pub num_verifications_required: i64,
}

impl RowColumns for DidAssetColumns {
    type Row = DidAsset;

    /// The asset converts, the recovery list hash has 32 bytes and the number
    /// of verifications is not negative.
    open spec fn decodable(&self) -> bool {
        &&& self.asset.decodable()
        &&& opt_hash_ok(self.recovery_list_hash)
        &&& 0 <= self.num_verifications_required
    }

    open spec fn decodes_to(&self, did: DidAsset) -> bool {
        &&& self.asset.decodes_to(did.asset)
        &&& did.did_info.metadata@ == self.metadata@
        &&& opt_hash(did.did_info.recovery_list_hash) == opt_bytes_column(self.recovery_list_hash)
        &&& did.did_info.num_verifications_required == self.num_verifications_required
    }

    /// `e` is the error of the first column, in the order listed, that does
    /// not convert.
    open spec fn decode_error(&self, e: DatabaseError) -> bool {
        if !self.asset.decodable() {
            self.asset.decode_error(e)
        } else if !opt_hash_ok(self.recovery_list_hash) {
            opt_length_error(self.recovery_list_hash, e)
        } else {
            e is PrecisionLost
        }
    }

    fn decode_row(self) -> (r: Result<DidAsset, DatabaseError>) {
        let asset = match self.asset.decode() {
            Ok(v) => v,
            Err(e) => return Err(e),
        };
        let recovery_list_hash: Option<[u8; 32]> = match self.recovery_list_hash.convert() {
            Ok(v) => v,
            Err(e) => return Err(e),
        };
        let num_verifications_required: u64 = match self.num_verifications_required.convert() {
            Ok(v) => v,
            Err(e) => return Err(e),
        };
        Ok(DidAsset {
            asset,
            did_info: DidCoinInfo { metadata: self.metadata, recovery_list_hash, num_verifications_required },
        })
    }
}

/// Decodes every catalog DID; fails with the error of the first row that does
/// not decode.
pub fn did_assets_rows(rows: Vec<DidAssetColumns>) -> (r: Result<Vec<DidAsset>, DatabaseError>)
    ensures
        r is Ok <==> forall|i: int| 0 <= i < rows@.len() ==> #[trigger] rows@[i].decodable(),
        r matches Ok(dids) ==> dids@.len() == rows@.len() && forall|i: int|
            0 <= i < rows@.len() ==> #[trigger] rows@[i].decodes_to(dids@[i]),
        r matches Err(e) ==> first_row_error(rows@, e),
{
    decode_rows(rows)
}

/// The NFT data of a catalog NFT.
#[derive(Debug, Clone)]
pub struct NftInfo {
    pub collection_id: Option<[u8; 32]>,
    pub minter_hash: Option<[u8; 32]>,
    pub owner_hash: Option<[u8; 32]>,
    pub metadata: Vec<u8>,
    pub metadata_updater_puzzle_hash: [u8; 32],
    pub royalty_puzzle_hash: [u8; 32],
    pub royalty_basis_points: u16,
    pub data_hash: Option<[u8; 32]>,
    pub metadata_hash: Option<[u8; 32]>,
    pub license_hash: Option<[u8; 32]>,
    pub edition_number: Option<u64>,
    pub edition_total: Option<u64>,
}

/// An NFT of the catalog.
#[derive(Debug, Clone)]
pub struct NftAsset {
    pub asset: CatalogAsset,
    pub nft_info: NftInfo,
}

/// The statement that lists catalog NFTs, before its filters and order.
pub const NFT_ASSETS_SELECT: &'static str = "SELECT        
            assets.hash AS asset_hash, assets.name, assets.icon_url, assets.description, is_sensitive_content,
            assets.is_visible, assets.created_height, collections.hash AS 'collection_hash?', nfts.minter_hash, owner_hash,
            metadata, metadata_updater_puzzle_hash, royalty_puzzle_hash, royalty_basis_points,
            data_hash, metadata_hash, license_hash, edition_number, edition_total,
            COUNT(*) OVER() as total_count	
        FROM assets
        INNER JOIN nfts ON nfts.asset_id = assets.id
        LEFT JOIN collections ON collections.id = nfts.collection_id
        WHERE 1=1 ";

/// `sql` followed by the name filter of the catalog listing. The filter's text
/// already ends in a placeholder, and binding the pattern adds a second one.
pub open spec fn nft_assets_name_sql(sql: Seq<char>, name_search: Option<Seq<char>>) -> Seq<char> {
    match name_search {
        None => sql,
        Some(_) => sql + "AND assets.name LIKE ?"@ + "?"@,
    }
}

/// `sql` followed by the group filter of the catalog listing.
pub open spec fn nft_assets_group_sql(sql: Seq<char>, group: Option<NftGroupSearch>) -> Seq<char> {
    match group {
        None => sql,
        Some(NftGroupSearch::Collection(_)) => sql + " AND collections.hash = "@ + "?"@,
        Some(NftGroupSearch::NoCollection) => sql + " AND collections.hash IS NULL"@,
        Some(NftGroupSearch::MinterDid(_)) => sql + " AND nfts.minter_hash = "@ + "?"@,
        Some(NftGroupSearch::NoMinterDid) => sql + " AND nfts.minter_hash IS NULL"@,
        Some(NftGroupSearch::OwnerDid(_)) => sql + " AND nfts.owner_hash = "@ + "?"@,
        Some(NftGroupSearch::NoOwnerDid) => sql + " AND nfts.owner_hash IS NULL"@,
    }
}

/// `sql` followed by the order of the catalog listing and the page bounds:
/// pending ones first, and visible ones first where hidden ones are listed.
pub open spec fn nft_assets_order_sql(sql: Seq<char>, sort_mode: NftSortMode, include_hidden: bool) -> Seq<char> {
    let head = sql + " ORDER BY "@;
    let visible = if include_hidden {
        head + "assets.is_visible DESC, "@
    } else {
        head
    };
    let ordered = match sort_mode {
        NftSortMode::Recent => visible + "assets.is_pending DESC, assets.created_height DESC"@,
        NftSortMode::Name => visible + "assets.is_pending DESC, assets.name ASC, nfts.edition_number ASC"@,
    };
    ordered + " LIMIT "@ + "?"@ + " OFFSET "@ + "?"@
}

/// The statement that lists catalog NFTs.
pub open spec fn nft_assets_sql(
    name_search: Option<Seq<char>>,
    group: Option<NftGroupSearch>,
    sort_mode: NftSortMode,
    include_hidden: bool,
) -> Seq<char> {
    nft_assets_order_sql(
        nft_assets_group_sql(nft_assets_name_sql(NFT_ASSETS_SELECT@, name_search), group),
        sort_mode,
        include_hidden,
    )
}

/// The order of the catalog NFT listing: visible NFTs first where hidden
/// ones are listed too, then pending ones; by recency, newest first by
/// creation height; by name, alphabetically and then by edition number. The
/// page bounds follow.
pub proof fn lemma_nft_assets_order(name_search: Option<Seq<char>>, group: Option<NftGroupSearch>, sort_mode: NftSortMode, include_hidden: bool)
    ensures
        contains_text(
            nft_assets_sql(name_search, group, sort_mode, include_hidden),
            match sort_mode {
                NftSortMode::Recent => if include_hidden {
                    "ORDER BY assets.is_visible DESC, assets.is_pending DESC, assets.created_height DESC LIMIT ? OFFSET ?"@
                } else {
                    "ORDER BY assets.is_pending DESC, assets.created_height DESC LIMIT ? OFFSET ?"@
                },
                NftSortMode::Name => if include_hidden {
                    "ORDER BY assets.is_visible DESC, assets.is_pending DESC, assets.name ASC, nfts.edition_number ASC LIMIT ? OFFSET ?"@
                } else {
                    "ORDER BY assets.is_pending DESC, assets.name ASC, nfts.edition_number ASC LIMIT ? OFFSET ?"@
                },
            },
        ),
{
    reveal_strlit(" LIMIT ");
    reveal_strlit(" OFFSET ");
    reveal_strlit(" ORDER BY ");
    reveal_strlit("?");
    reveal_strlit("ORDER BY assets.is_pending DESC, assets.created_height DESC LIMIT ? OFFSET ?");
    reveal_strlit("ORDER BY assets.is_pending DESC, assets.name ASC, nfts.edition_number ASC LIMIT ? OFFSET ?");
    reveal_strlit("ORDER BY assets.is_visible DESC, assets.is_pending DESC, assets.created_height DESC LIMIT ? OFFSET ?");
    reveal_strlit("ORDER BY assets.is_visible DESC, assets.is_pending DESC, assets.name ASC, nfts.edition_number ASC LIMIT ? OFFSET ?");
    reveal_strlit("assets.is_pending DESC, assets.created_height DESC");
    reveal_strlit("assets.is_pending DESC, assets.name ASC, nfts.edition_number ASC");
    reveal_strlit("assets.is_visible DESC, ");
    let filtered = nft_assets_group_sql(nft_assets_name_sql(NFT_ASSETS_SELECT@, name_search), group);
    let sql = nft_assets_sql(name_search, group, sort_mode, include_hidden);
    let at = (filtered).len() as int + 1;
    let part = match sort_mode {
        NftSortMode::Recent => if include_hidden {
            "ORDER BY assets.is_visible DESC, assets.is_pending DESC, assets.created_height DESC LIMIT ? OFFSET ?"@
        } else {
            "ORDER BY assets.is_pending DESC, assets.created_height DESC LIMIT ? OFFSET ?"@
        },
        NftSortMode::Name => if include_hidden {
            "ORDER BY assets.is_visible DESC, assets.is_pending DESC, assets.name ASC, nfts.edition_number ASC LIMIT ? OFFSET ?"@
        } else {
            "ORDER BY assets.is_pending DESC, assets.name ASC, nfts.edition_number ASC LIMIT ? OFFSET ?"@
        },
    };
    assert(sql.subrange(at, at + part.len() as int) =~= part);
    assert(occurs_at(sql, part, at));
}

/// The catalog NFT listing keeps only the asked group: NFTs of the given
/// collection, minter or owner, or those with none, each by its own
/// condition, whatever the name search, sort and visibility.
pub proof fn lemma_nft_assets_group(
    name_search: Option<Seq<char>>,
    group: Option<NftGroupSearch>,
    sort_mode: NftSortMode,
    include_hidden: bool,
)
    requires
        group is Some,
    ensures
        contains_text(
            nft_assets_sql(name_search, group, sort_mode, include_hidden),
            match group {
                Some(NftGroupSearch::Collection(_)) => "AND collections.hash = ?"@,
                Some(NftGroupSearch::NoCollection) => "AND collections.hash IS NULL"@,
                Some(NftGroupSearch::MinterDid(_)) => "AND nfts.minter_hash = ?"@,
                Some(NftGroupSearch::NoMinterDid) => "AND nfts.minter_hash IS NULL"@,
                Some(NftGroupSearch::OwnerDid(_)) => "AND nfts.owner_hash = ?"@,
                Some(NftGroupSearch::NoOwnerDid) => "AND nfts.owner_hash IS NULL"@,
                None => ""@,
            },
        ),
{
    reveal_strlit("AND collections.hash = ?");
    reveal_strlit("AND collections.hash IS NULL");
    reveal_strlit("AND nfts.minter_hash = ?");
    reveal_strlit("AND nfts.minter_hash IS NULL");
    reveal_strlit("AND nfts.owner_hash = ?");
    reveal_strlit("AND nfts.owner_hash IS NULL");
    reveal_strlit(" AND collections.hash = ");
    reveal_strlit(" AND collections.hash IS NULL");
    reveal_strlit(" AND nfts.minter_hash = ");
    reveal_strlit(" AND nfts.minter_hash IS NULL");
    reveal_strlit(" AND nfts.owner_hash = ");
    reveal_strlit(" AND nfts.owner_hash IS NULL");
    reveal_strlit("?");
    let named = nft_assets_name_sql(NFT_ASSETS_SELECT@, name_search);
    let grouped = nft_assets_group_sql(named, group);
    let sql = nft_assets_sql(name_search, group, sort_mode, include_hidden);
    let tail = sql.subrange(grouped.len() as int, sql.len() as int);
    assert(sql =~= grouped + tail);
    let part = match group {
        Some(NftGroupSearch::Collection(_)) => "AND collections.hash = ?"@,
        Some(NftGroupSearch::NoCollection) => "AND collections.hash IS NULL"@,
        Some(NftGroupSearch::MinterDid(_)) => "AND nfts.minter_hash = ?"@,
        Some(NftGroupSearch::NoMinterDid) => "AND nfts.minter_hash IS NULL"@,
        Some(NftGroupSearch::OwnerDid(_)) => "AND nfts.owner_hash = ?"@,
        Some(NftGroupSearch::NoOwnerDid) => "AND nfts.owner_hash IS NULL"@,
        None => ""@,
    };
    let at = named.len() as int + 1;
    assert(grouped.subrange(at, at + part.len() as int) =~= part);
    lemma_occurs_extended(grouped, tail, part, at);
    assert(occurs_at(sql, part, at));
}

/// The statement listing catalog NFTs, a page at a time: those whose name
/// matches `name_search` and that are in `group`, where given; pending ones
/// first, then in the order of `sort_mode`, visible ones first where hidden
/// ones are listed too.
pub fn nft_assets_query(
    name_search: Option<String>,
    group_search: Option<NftGroupSearch>,
    sort_mode: NftSortMode,
    include_hidden: bool,
    limit: u32,
    offset: u32,
) -> (query: SqlQuery)
    ensures
        query_sql(query) == nft_assets_sql(opt_string_view(name_search), group_search, sort_mode, include_hidden),
        query_binds(query) == nft_group_binds(nft_name_binds(Seq::empty(), opt_string_view(name_search)), group_search)
            .push(SqlValue::Integer(limit as int)).push(SqlValue::Integer(offset as int)),
{
    let mut query = new_query(NFT_ASSETS_SELECT);
    if let Some(name_search) = name_search {
        push_sql(&mut query, "AND assets.name LIKE ?");
        push_bind_text(&mut query, like_pattern(name_search.as_str()));
    }
    if let Some(group) = group_search {
        match group {
            NftGroupSearch::Collection(id) => {
                push_sql(&mut query, " AND collections.hash = ");
                push_bind_blob(&mut query, vstd::slice::slice_to_vec(id.as_slice()));
            },
            NftGroupSearch::NoCollection => {
                push_sql(&mut query, " AND collections.hash IS NULL");
            },
            NftGroupSearch::MinterDid(id) => {
                push_sql(&mut query, " AND nfts.minter_hash = ");
                push_bind_blob(&mut query, vstd::slice::slice_to_vec(id.as_slice()));
            },
            NftGroupSearch::NoMinterDid => {
                push_sql(&mut query, " AND nfts.minter_hash IS NULL");
            },
            NftGroupSearch::OwnerDid(id) => {
                push_sql(&mut query, " AND nfts.owner_hash = ");
                push_bind_blob(&mut query, vstd::slice::slice_to_vec(id.as_slice()));
            },
            NftGroupSearch::NoOwnerDid => {
                push_sql(&mut query, " AND nfts.owner_hash IS NULL");
            },
        }
    }
    push_sql(&mut query, " ORDER BY ");
    if include_hidden {
        push_sql(&mut query, "assets.is_visible DESC, ");
    }
    match sort_mode {
        NftSortMode::Recent => {
            push_sql(&mut query, "assets.is_pending DESC, assets.created_height DESC");
        },
        NftSortMode::Name => {
            push_sql(&mut query, "assets.is_pending DESC, assets.name ASC, nfts.edition_number ASC");
        },
    }
    push_sql(&mut query, " LIMIT ");
    push_bind_u32(&mut query, limit);
    push_sql(&mut query, " OFFSET ");
    push_bind_u32(&mut query, offset);
    query
}

/// The stored columns of a catalog NFT, as SQLite returns them.
#[derive(Debug, Clone)]
pub struct NftAssetColumns {
    pub asset_hash: Vec<u8>,
    pub name: Option<String>,
    pub icon_url: Option<String>,
    pub description: Option<String>,
    pub is_sensitive_content: bool,
    pub is_visible: bool,
    pub created_height: Option<i64>,
    pub collection_hash: Option<Vec<u8>>,
    pub minter_hash: Option<Vec<u8>>,
    pub owner_hash: Option<Vec<u8>>,
    pub metadata: Vec<u8>,
    pub metadata_updater_puzzle_hash: Vec<u8>,
    pub royalty_puzzle_hash: Vec<u8>,
    pub royalty_basis_points: u16,
    pub data_hash: Option<Vec<u8>>,
    pub metadata_hash: Option<Vec<u8>>,
    pub license_hash: Option<Vec<u8>>,
    pub edition_number: Option<i64>,
    pub edition_total: Option<i64>,
    pub total_count: i64,
}

impl RowColumns for NftAssetColumns {
    type Row = NftAsset;

    /// Every column converts: hashes have 32 bytes, the height fits 32
    /// unsigned bits, edition numbers are not negative.
    open spec fn decodable(&self) -> bool {
        &&& self.asset_hash@.len() == 32
        &&& opt_u32_ok(self.created_height)
        &&& opt_hash_ok(self.collection_hash)
        &&& opt_hash_ok(self.minter_hash)
        &&& opt_hash_ok(self.owner_hash)
        &&& self.metadata_updater_puzzle_hash@.len() == 32
        &&& self.royalty_puzzle_hash@.len() == 32
        &&& opt_hash_ok(self.data_hash)
        &&& opt_hash_ok(self.metadata_hash)
        &&& opt_hash_ok(self.license_hash)
        &&& opt_u64_ok(self.edition_number)
        &&& opt_u64_ok(self.edition_total)
    }

    open spec fn decodes_to(&self, row: NftAsset) -> bool {
        &&& row.asset.hash@ == self.asset_hash@
        &&& opt_text(row.asset.name) == opt_text(self.name)
        &&& opt_text(row.asset.icon_url) == opt_text(self.icon_url)
        &&& opt_text(row.asset.description) == opt_text(self.description)
        &&& row.asset.is_sensitive_content == self.is_sensitive_content
        &&& row.asset.is_visible == self.is_visible
        &&& opt_u32_int(row.asset.created_height) == opt_int(self.created_height)
        &&& opt_hash(row.nft_info.collection_id) == opt_bytes_column(self.collection_hash)
        &&& opt_hash(row.nft_info.minter_hash) == opt_bytes_column(self.minter_hash)
        &&& opt_hash(row.nft_info.owner_hash) == opt_bytes_column(self.owner_hash)
        &&& row.nft_info.metadata@ == self.metadata@
        &&& row.nft_info.metadata_updater_puzzle_hash@ == self.metadata_updater_puzzle_hash@
        &&& row.nft_info.royalty_puzzle_hash@ == self.royalty_puzzle_hash@
        &&& row.nft_info.royalty_basis_points == self.royalty_basis_points
        &&& opt_hash(row.nft_info.data_hash) == opt_bytes_column(self.data_hash)
        &&& opt_hash(row.nft_info.metadata_hash) == opt_bytes_column(self.metadata_hash)
        &&& opt_hash(row.nft_info.license_hash) == opt_bytes_column(self.license_hash)
        &&& opt_u64_int(row.nft_info.edition_number) == opt_int(self.edition_number)
        &&& opt_u64_int(row.nft_info.edition_total) == opt_int(self.edition_total)
    }

    /// `e` is the error of the first column, in the order listed, that does
    /// not convert.
    open spec fn decode_error(&self, e: DatabaseError) -> bool {
        if self.asset_hash@.len() != 32 {
            e == length_error(self.asset_hash@, 32)
        } else if !opt_u32_ok(self.created_height) {
            e is PrecisionLost
        } else if !opt_hash_ok(self.collection_hash) {
            opt_length_error(self.collection_hash, e)
        } else if !opt_hash_ok(self.minter_hash) {
            opt_length_error(self.minter_hash, e)
        } else if !opt_hash_ok(self.owner_hash) {
            opt_length_error(self.owner_hash, e)
        } else if self.metadata_updater_puzzle_hash@.len() != 32 {
            e == length_error(self.metadata_updater_puzzle_hash@, 32)
        } else if self.royalty_puzzle_hash@.len() != 32 {
            e == length_error(self.royalty_puzzle_hash@, 32)
        } else if !opt_hash_ok(self.data_hash) {
            opt_length_error(self.data_hash, e)
        } else if !opt_hash_ok(self.metadata_hash) {
            opt_length_error(self.metadata_hash, e)
        } else if !opt_hash_ok(self.license_hash) {
            opt_length_error(self.license_hash, e)
        } else {
            e is PrecisionLost
        }
    }

    fn decode_row(self) -> (r: Result<NftAsset, DatabaseError>) {
        let hash: [u8; 32] = match self.asset_hash.convert() {
            Ok(v) => v,
            Err(e) => return Err(e),
        };
        let created_height: Option<u32> = match self.created_height.convert() {
            Ok(v) => v,
            Err(e) => return Err(e),
        };
        let collection_id: Option<[u8; 32]> = match self.collection_hash.convert() {
            Ok(v) => v,
            Err(e) => return Err(e),
        };
        let minter_hash: Option<[u8; 32]> = match self.minter_hash.convert() {
            Ok(v) => v,
            Err(e) => return Err(e),
        };
        let owner_hash: Option<[u8; 32]> = match self.owner_hash.convert() {
            Ok(v) => v,
            Err(e) => return Err(e),
        };
        let metadata_updater_puzzle_hash: [u8; 32] = match self.metadata_updater_puzzle_hash.convert() {
            Ok(v) => v,
            Err(e) => return Err(e),
        };
        let royalty_puzzle_hash: [u8; 32] = match self.royalty_puzzle_hash.convert() {
            Ok(v) => v,
            Err(e) => return Err(e),
        };
        let data_hash: Option<[u8; 32]> = match self.data_hash.convert() {
            Ok(v) => v,
            Err(e) => return Err(e),
        };
        let metadata_hash: Option<[u8; 32]> = match self.metadata_hash.convert() {
            Ok(v) => v,
            Err(e) => return Err(e),
        };
        let license_hash: Option<[u8; 32]> = match self.license_hash.convert() {
            Ok(v) => v,
            Err(e) => return Err(e),
        };
        let edition_number: Option<u64> = match self.edition_number.convert() {
            Ok(v) => v,
            Err(e) => return Err(e),
        };
        let edition_total: Option<u64> = match self.edition_total.convert() {
            Ok(v) => v,
            Err(e) => return Err(e),
        };
        Ok(NftAsset {
            asset: CatalogAsset {
                hash,
                name: self.name,
                icon_url: self.icon_url,
                description: self.description,
                is_sensitive_content: self.is_sensitive_content,
                is_visible: self.is_visible,
                created_height,
            },
            nft_info: NftInfo {
                collection_id,
                minter_hash,
                owner_hash,
                metadata: self.metadata,
                metadata_updater_puzzle_hash,
                royalty_puzzle_hash,
                royalty_basis_points: self.royalty_basis_points,
                data_hash,
                metadata_hash,
                license_hash,
                edition_number,
                edition_total,
            },
        })
    }
}

/// Decodes a page of catalog NFTs: the rows, and the total count of matching
/// NFTs that the first row carries (zero for an empty page).
pub fn nft_assets_page(rows: Vec<NftAssetColumns>) -> (r: Result<(Vec<NftAsset>, u32), DatabaseError>)
    ensures
        r is Ok <==> (rows@.len() > 0 ==> 0 <= rows@[0].total_count <= u32::MAX) && forall|i: int|
            0 <= i < rows@.len() ==> #[trigger] rows@[i].decodable(),
        r matches Ok((nfts, total)) ==> {
            &&& total == (if rows@.len() == 0 { 0 } else { rows@[0].total_count as int })
            &&& nfts@.len() == rows@.len()
            &&& forall|i: int| 0 <= i < rows@.len() ==> #[trigger] rows@[i].decodes_to(nfts@[i])
        },
        r matches Err(e) ==> if rows@.len() > 0 && !(0 <= rows@[0].total_count <= u32::MAX) {
            e is PrecisionLost
        } else {
            first_row_error(rows@, e)
        },
{
    let first = if rows.len() > 0 {
        Some(rows[0].total_count)
    } else {
        None
    };
    let total = match page_total(first) {
        Ok(t) => t,
        Err(e) => return Err(e),
    };
    match decode_rows(rows) {
        Ok(nfts) => Ok((nfts, total)),
        Err(e) => Err(e),
    }
}

} // verus!
