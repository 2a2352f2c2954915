//! The NFT records that the sync engine keeps: their decoding, the search
//! over owned NFTs, and the data blobs of NFTs.

use vstd::prelude::*;

use crate::convert::Convert;
use crate::database::coins::{
    length_error, opt_bytes_column, opt_hash, opt_hash_ok, opt_int, opt_length_error, opt_u32_int,
    opt_u32_ok,
};
use crate::database::nfts::NftSortMode;
use crate::database::options::opt_string_view;
use crate::database::sql::{
    contains_text, lemma_occurs_extended, occurs_at,
    decode_rows, first_row_error, like_pattern, new_query, page_total, push_bind_blob,
    push_bind_text, push_bind_u32, push_sql, query_binds, query_sql, RowColumns, SqlQuery,
    SqlValue,
};
use crate::database::validation::{hex_encode, hex_lower};
use crate::error::DatabaseError;

verus! {

/// The data blob of an NFT, its MIME type, and whether its hash matches the
/// one the NFT commits to.
#[derive(Debug, Clone)]
pub struct NftData {
    pub blob: Vec<u8>,
    pub mime_type: String,
    pub hash_matches: bool,
}

/// A URI of an NFT's data, with the hash it should have.
#[derive(Debug, Clone)]
pub struct NftUri {
    pub hash: [u8; 32],
    pub uri: String,
}

/// A group of NFTs to search in: by collection, minter DID or owner DID, or
/// those without one.
#[derive(Debug, Clone, Copy, PartialEq, Eq, Hash)]
pub enum NftGroup {
    Collection([u8; 32]),
    NoCollection,
    MinterDid([u8; 32]),
    NoMinterDid,
    OwnerDid([u8; 32]),
    NoOwnerDid,
}

/// What an NFT search asks for.
#[derive(Debug, Clone)]
pub struct NftSearchParams {
    pub sort_mode: NftSortMode,
    pub include_hidden: bool,
    pub group: Option<NftGroup>,
    pub name: Option<String>,
}

/// An NFT record.
#[derive(Debug, Clone)]
pub struct NftRow {
    pub launcher_id: [u8; 32],
    pub coin_id: [u8; 32],
    pub collection_id: Option<[u8; 32]>,
    pub minter_did: Option<[u8; 32]>,
    pub owner_did: Option<[u8; 32]>,
    pub visible: bool,
    pub sensitive_content: bool,
    pub name: Option<String>,
    pub is_owned: bool,
    pub created_height: Option<u32>,
    pub metadata_hash: Option<[u8; 32]>,
    pub edition_number: Option<u32>,
    pub edition_total: Option<u32>,
}

/// The stored columns of an NFT record, as SQLite returns them.
#[derive(Debug, Clone)]
pub struct NftSql {
    pub launcher_id: Vec<u8>,
    pub coin_id: Vec<u8>,
    pub collection_id: Option<Vec<u8>>,
    pub minter_did: Option<Vec<u8>>,
    pub owner_did: Option<Vec<u8>>,
    pub visible: bool,
    pub sensitive_content: bool,
    pub name: Option<String>,
    pub is_owned: bool,
    pub created_height: Option<i64>,
    pub metadata_hash: Option<Vec<u8>>,
    pub is_named: Option<bool>,
    pub is_pending: Option<bool>,
    pub edition_number: Option<i64>,
    pub edition_total: Option<i64>,
}

impl RowColumns for NftSql {
    type Row = NftRow;

    /// The ids and hashes have 32 bytes; the height and edition numbers fit
    /// 32 unsigned bits.
    open spec fn decodable(&self) -> bool {
        &&& self.launcher_id@.len() == 32
        &&& self.coin_id@.len() == 32
        &&& opt_hash_ok(self.collection_id)
        &&& opt_hash_ok(self.minter_did)
        &&& opt_hash_ok(self.owner_did)
        &&& opt_u32_ok(self.created_height)
        &&& opt_hash_ok(self.metadata_hash)
        &&& opt_u32_ok(self.edition_number)
        &&& opt_u32_ok(self.edition_total)
    }

    open spec fn decodes_to(&self, row: NftRow) -> bool {
        &&& row.launcher_id@ == self.launcher_id@
        &&& row.coin_id@ == self.coin_id@
        &&& opt_hash(row.collection_id) == opt_bytes_column(self.collection_id)
        &&& opt_hash(row.minter_did) == opt_bytes_column(self.minter_did)
        &&& opt_hash(row.owner_did) == opt_bytes_column(self.owner_did)
        &&& row.visible == self.visible
        &&& row.sensitive_content == self.sensitive_content
        &&& opt_string_view(row.name) == opt_string_view(self.name)
        &&& row.is_owned == self.is_owned
        &&& opt_u32_int(row.created_height) == opt_int(self.created_height)
        &&& opt_hash(row.metadata_hash) == opt_bytes_column(self.metadata_hash)
        &&& opt_u32_int(row.edition_number) == opt_int(self.edition_number)
        &&& opt_u32_int(row.edition_total) == opt_int(self.edition_total)
    }

    /// `e` is the error of the first column, in the order listed, that does
    /// not convert.
    open spec fn decode_error(&self, e: DatabaseError) -> bool {
        if self.launcher_id@.len() != 32 {
            e == length_error(self.launcher_id@, 32)
        } else if self.coin_id@.len() != 32 {
            e == length_error(self.coin_id@, 32)
        } else if !opt_hash_ok(self.collection_id) {
            opt_length_error(self.collection_id, e)
        } else if !opt_hash_ok(self.minter_did) {
            opt_length_error(self.minter_did, e)
        } else if !opt_hash_ok(self.owner_did) {
            opt_length_error(self.owner_did, e)
        } else if !opt_u32_ok(self.created_height) {
            e is PrecisionLost
        } else if !opt_hash_ok(self.metadata_hash) {
            opt_length_error(self.metadata_hash, e)
        } else {
            e is PrecisionLost
        }
    }

    fn decode_row(self) -> (r: Result<NftRow, DatabaseError>) {
        let launcher_id: [u8; 32] = match self.launcher_id.convert() {
            Ok(v) => v,
            Err(e) => return Err(e),
        };
        let coin_id: [u8; 32] = match self.coin_id.convert() {
            Ok(v) => v,
            Err(e) => return Err(e),
        };
        let collection_id: Option<[u8; 32]> = match self.collection_id.convert() {
            Ok(v) => v,
            Err(e) => return Err(e),
        };
        let minter_did: Option<[u8; 32]> = match self.minter_did.convert() {
            Ok(v) => v,
            Err(e) => return Err(e),
        };
        let owner_did: Option<[u8; 32]> = match self.owner_did.convert() {
            Ok(v) => v,
            Err(e) => return Err(e),
        };
        let created_height: Option<u32> = match self.created_height.convert() {
            Ok(v) => v,
            Err(e) => return Err(e),
        };
        let metadata_hash: Option<[u8; 32]> = match self.metadata_hash.convert() {
            Ok(v) => v,
            Err(e) => return Err(e),
        };
        let edition_number: Option<u32> = match self.edition_number.convert() {
            Ok(v) => v,
            Err(e) => return Err(e),
        };
        let edition_total: Option<u32> = match self.edition_total.convert() {
            Ok(v) => v,
            Err(e) => return Err(e),
        };
        Ok(NftRow {
            launcher_id,
            coin_id,
            collection_id,
            minter_did,
            owner_did,
            visible: self.visible,
            sensitive_content: self.sensitive_content,
            name: self.name,
            is_owned: self.is_owned,
            created_height,
            metadata_hash,
            edition_number,
            edition_total,
        })
    }
}

/// The statement that searches owned NFTs, before its filters and order.
pub const SEARCH_NFTS_SELECT: &'static str = "SELECT launcher_id, 
            coin_id, 
            collection_id, 
            minter_did, 
            owner_did, 
            visible, 
            sensitive_content, 
            name, 
            is_owned, 
            created_height, 
            metadata_hash,
            is_named,
            is_pending,
            COUNT(*) OVER() as total_count	
        FROM nfts
        WHERE 1=1 
        AND is_owned = 1
        ";

/// `sql` followed by the visibility filter, unless hidden NFTs are searched.
pub open spec fn search_visibility_sql(sql: Seq<char>, include_hidden: bool) -> Seq<char> {
    if include_hidden {
        sql
    } else {
        sql + " AND visible = 1"@
    }
}

/// `sql` followed by the group filter of the search.
pub open spec fn search_group_sql(sql: Seq<char>, group: Option<NftGroup>) -> Seq<char> {
    match group {
        None => sql,
        Some(NftGroup::Collection(_)) => sql + " AND collection_id = "@ + "?"@,
        Some(NftGroup::NoCollection) => sql + " AND collection_id IS NULL"@,
        Some(NftGroup::MinterDid(_)) => sql + " AND minter_did = "@ + "?"@,
        Some(NftGroup::NoMinterDid) => sql + " AND minter_did IS NULL"@,
        Some(NftGroup::OwnerDid(_)) => sql + " AND owner_did = "@ + "?"@,
        Some(NftGroup::NoOwnerDid) => sql + " AND owner_did IS NULL"@,
    }
}

/// The id that the search's group filter binds, if any.
pub open spec fn search_group_binds(binds: Seq<SqlValue>, group: Option<NftGroup>) -> Seq<SqlValue> {
    match group {
        Some(NftGroup::Collection(id)) => binds.push(SqlValue::Blob(id@)),
        Some(NftGroup::MinterDid(id)) => binds.push(SqlValue::Blob(id@)),
        Some(NftGroup::OwnerDid(id)) => binds.push(SqlValue::Blob(id@)),
        _ => binds,
    }
}

/// `sql` followed by the name filter of the search.
pub open spec fn search_name_sql(sql: Seq<char>, name: Option<Seq<char>>) -> Seq<char> {
    match name {
        None => sql,
        Some(_) => sql + " AND name LIKE "@ + "?"@,
    }
}

/// The pattern that the search's name filter binds, if any.
pub open spec fn search_name_binds(binds: Seq<SqlValue>, name: Option<Seq<char>>) -> Seq<SqlValue> {
    match name {
        None => binds,
        Some(v) => binds.push(SqlValue::Text("%"@ + v + "%"@)),
    }
}

/// `sql` followed by the order of the search and the page bounds: pending
/// NFTs first, and visible ones first where hidden ones are searched too.
pub open spec fn search_order_sql(sql: Seq<char>, sort_mode: NftSortMode, include_hidden: bool) -> Seq<char> {
    let head = sql + " ORDER BY "@;
    let visible = if include_hidden {
        head + "visible DESC, "@
    } else {
        head
    };
    let ordered = match sort_mode {
        NftSortMode::Recent => visible + "is_pending DESC, created_height DESC, launcher_id ASC"@,
        NftSortMode::Name => visible + "is_pending DESC, is_named DESC, name ASC, launcher_id ASC"@,
    };
    ordered + " LIMIT "@ + "?"@ + " OFFSET "@ + "?"@
}

/// The statement of an NFT search.
pub open spec fn search_nfts_sql(params: NftSearchParams) -> Seq<char> {
    search_order_sql(
        search_name_sql(
            search_group_sql(search_visibility_sql(SEARCH_NFTS_SELECT@, params.include_hidden), params.group),
            opt_string_view(params.name),
        ),
        params.sort_mode,
        params.include_hidden,
    )
}

/// The order of an NFT search: visible NFTs first where hidden ones are
/// searched too, then pending ones; by recency, newest first by creation
/// height; by name, named NFTs first, alphabetically. Ties go by launcher id;
/// the page bounds follow.
pub proof fn lemma_search_nfts_order(params: NftSearchParams)
    ensures
        contains_text(
            search_nfts_sql(params),
            match params.sort_mode {
                NftSortMode::Recent => if params.include_hidden {
                    "ORDER BY visible DESC, is_pending DESC, created_height DESC, launcher_id ASC LIMIT ? OFFSET ?"@
                } else {
                    "ORDER BY is_pending DESC, created_height DESC, launcher_id ASC LIMIT ? OFFSET ?"@
                },
                NftSortMode::Name => if params.include_hidden {
                    "ORDER BY visible DESC, is_pending DESC, is_named DESC, name ASC, launcher_id ASC LIMIT ? OFFSET ?"@
                } else {
                    "ORDER BY is_pending DESC, is_named DESC, name ASC, launcher_id ASC LIMIT ? OFFSET ?"@
                },
            },
        ),
{
    reveal_strlit(" LIMIT ");
    reveal_strlit(" OFFSET ");
    reveal_strlit(" ORDER BY ");
    reveal_strlit("?");
    reveal_strlit("ORDER BY is_pending DESC, created_height DESC, launcher_id ASC LIMIT ? OFFSET ?");
    reveal_strlit("ORDER BY is_pending DESC, is_named DESC, name ASC, launcher_id ASC LIMIT ? OFFSET ?");
    reveal_strlit("ORDER BY visible DESC, is_pending DESC, created_height DESC, launcher_id ASC LIMIT ? OFFSET ?");
    reveal_strlit("ORDER BY visible DESC, is_pending DESC, is_named DESC, name ASC, launcher_id ASC LIMIT ? OFFSET ?");
    reveal_strlit("is_pending DESC, created_height DESC, launcher_id ASC");
    reveal_strlit("is_pending DESC, is_named DESC, name ASC, launcher_id ASC");
    reveal_strlit("visible DESC, ");
    let filtered = search_name_sql(
        search_group_sql(search_visibility_sql(SEARCH_NFTS_SELECT@, params.include_hidden), params.group),
        opt_string_view(params.name),
    );
    let sql = search_nfts_sql(params);
    let at = (filtered).len() as int + 1;
    let part = match params.sort_mode {
        NftSortMode::Recent => if params.include_hidden {
            "ORDER BY visible DESC, is_pending DESC, created_height DESC, launcher_id ASC LIMIT ? OFFSET ?"@
        } else {
            "ORDER BY is_pending DESC, created_height DESC, launcher_id ASC LIMIT ? OFFSET ?"@
        },
        NftSortMode::Name => if params.include_hidden {
            "ORDER BY visible DESC, is_pending DESC, is_named DESC, name ASC, launcher_id ASC LIMIT ? OFFSET ?"@
        } else {
            "ORDER BY is_pending DESC, is_named DESC, name ASC, launcher_id ASC LIMIT ? OFFSET ?"@
        },
    };
    assert(sql.subrange(at, at + part.len() as int) =~= part);
    assert(occurs_at(sql, part, at));
}

/// The filters of an NFT search: hidden NFTs stay out unless they are asked
/// for; only NFTs of the asked group (of the given collection, minter or
/// owner, or with none) are kept; and, where a name is searched for, only
/// those whose name matches the bound pattern.
pub proof fn lemma_search_nfts_filters(params: NftSearchParams)
    ensures
        !params.include_hidden ==> contains_text(search_nfts_sql(params), "AND visible = 1"@),
        params.group is Some ==> contains_text(
            search_nfts_sql(params),
            match params.group {
                Some(NftGroup::Collection(_)) => "AND collection_id = ?"@,
                Some(NftGroup::NoCollection) => "AND collection_id IS NULL"@,
                Some(NftGroup::MinterDid(_)) => "AND minter_did = ?"@,
                Some(NftGroup::NoMinterDid) => "AND minter_did IS NULL"@,
                Some(NftGroup::OwnerDid(_)) => "AND owner_did = ?"@,
                Some(NftGroup::NoOwnerDid) => "AND owner_did IS NULL"@,
                None => ""@,
            },
        ),
        params.name is Some ==> contains_text(search_nfts_sql(params), "AND name LIKE ?"@),
{
    reveal_strlit("AND collection_id = ?");
    reveal_strlit("AND collection_id IS NULL");
    reveal_strlit("AND minter_did = ?");
    reveal_strlit("AND minter_did IS NULL");
    reveal_strlit("AND owner_did = ?");
    reveal_strlit("AND owner_did IS NULL");
    reveal_strlit(" AND collection_id = ");
    reveal_strlit(" AND collection_id IS NULL");
    reveal_strlit(" AND minter_did = ");
    reveal_strlit(" AND minter_did IS NULL");
    reveal_strlit(" AND owner_did = ");
    reveal_strlit(" AND owner_did IS NULL");
    reveal_strlit(" AND visible = 1");
    reveal_strlit("AND visible = 1");
    reveal_strlit(" AND name LIKE ");
    reveal_strlit("AND name LIKE ?");
    reveal_strlit("?");
    let seen = search_visibility_sql(SEARCH_NFTS_SELECT@, params.include_hidden);
    let grouped = search_group_sql(seen, params.group);
    let named = search_name_sql(grouped, opt_string_view(params.name));
    let sql = search_nfts_sql(params);
    let tail = sql.subrange(named.len() as int, sql.len() as int);
    assert(sql =~= named + tail);
    let name_tail = named.subrange(grouped.len() as int, named.len() as int);
    assert(named =~= grouped + name_tail);
    let group_tail = grouped.subrange(seen.len() as int, grouped.len() as int);
    assert(grouped =~= seen + group_tail);
    if !params.include_hidden {
        let part = "AND visible = 1"@;
        let at = SEARCH_NFTS_SELECT@.len() as int + 1;
        assert(seen.subrange(at, at + part.len() as int) =~= part);
        lemma_occurs_extended(seen, group_tail, part, at);
        lemma_occurs_extended(grouped, name_tail, part, at);
        lemma_occurs_extended(named, tail, part, at);
        assert(occurs_at(sql, part, at));
    }
    if params.group is Some {
        let part = match params.group {
            Some(NftGroup::Collection(_)) => "AND collection_id = ?"@,
            Some(NftGroup::NoCollection) => "AND collection_id IS NULL"@,
            Some(NftGroup::MinterDid(_)) => "AND minter_did = ?"@,
            Some(NftGroup::NoMinterDid) => "AND minter_did IS NULL"@,
            Some(NftGroup::OwnerDid(_)) => "AND owner_did = ?"@,
            Some(NftGroup::NoOwnerDid) => "AND owner_did IS NULL"@,
            None => ""@,
        };
        let at = seen.len() as int + 1;
        assert(grouped.subrange(at, at + part.len() as int) =~= part);
        lemma_occurs_extended(grouped, name_tail, part, at);
        lemma_occurs_extended(named, tail, part, at);
        assert(occurs_at(sql, part, at));
    }
    if params.name is Some {
        let part = "AND name LIKE ?"@;
        let at = grouped.len() as int + 1;
        assert(named.subrange(at, at + part.len() as int) =~= part);
        lemma_occurs_extended(named, tail, part, at);
        assert(occurs_at(sql, part, at));
    }
}

/// The arguments of an NFT search: the group's id, the name pattern, then the
/// limit and the offset.
pub open spec fn search_nfts_binds(params: NftSearchParams, limit: u32, offset: u32) -> Seq<SqlValue> {
    search_name_binds(search_group_binds(Seq::empty(), params.group), opt_string_view(params.name)).push(
        SqlValue::Integer(limit as int),
    ).push(SqlValue::Integer(offset as int))
}

/// The statement searching owned NFTs, a page at a time: visible ones only
/// unless hidden ones are asked for; those in the group and matching the name,
/// where given; pending ones first, then in the order of the sort mode.
pub fn search_nfts_query(params: &NftSearchParams, limit: u32, offset: u32) -> (query: SqlQuery)
    ensures
        query_sql(query) == search_nfts_sql(*params),
        query_binds(query) == search_nfts_binds(*params, limit, offset),
{
    let mut query = new_query(SEARCH_NFTS_SELECT);
    if !params.include_hidden {
        push_sql(&mut query, " AND visible = 1");
    }
    if let Some(group) = &params.group {
        match group {
            NftGroup::Collection(id) => {
                push_sql(&mut query, " AND collection_id = ");
                push_bind_blob(&mut query, vstd::slice::slice_to_vec(id.as_slice()));
            },
            NftGroup::NoCollection => {
                push_sql(&mut query, " AND collection_id IS NULL");
            },
            NftGroup::MinterDid(id) => {
                push_sql(&mut query, " AND minter_did = ");
                push_bind_blob(&mut query, vstd::slice::slice_to_vec(id.as_slice()));
            },
            NftGroup::NoMinterDid => {
                push_sql(&mut query, " AND minter_did IS NULL");
            },
            NftGroup::OwnerDid(id) => {
                push_sql(&mut query, " AND owner_did = ");
                push_bind_blob(&mut query, vstd::slice::slice_to_vec(id.as_slice()));
            },
            NftGroup::NoOwnerDid => {
                push_sql(&mut query, " AND owner_did IS NULL");
            },
        }
    }
    if let Some(name) = &params.name {
        push_sql(&mut query, " AND name LIKE ");
        push_bind_text(&mut query, like_pattern(name.as_str()));
    }
    push_sql(&mut query, " ORDER BY ");
    if params.include_hidden {
        push_sql(&mut query, "visible DESC, ");
    }
    match params.sort_mode {
        NftSortMode::Recent => {
            push_sql(&mut query, "is_pending DESC, created_height DESC, launcher_id ASC");
        },
        NftSortMode::Name => {
            push_sql(&mut query, "is_pending DESC, is_named DESC, name ASC, launcher_id ASC");
        },
    }
    push_sql(&mut query, " LIMIT ");
    push_bind_u32(&mut query, limit);
    push_sql(&mut query, " OFFSET ");
    push_bind_u32(&mut query, offset);
    query
}

/// A row of an NFT search: the record's columns and the total count.
#[derive(Debug, Clone)]
pub struct NftSearchRow {
    pub nft: NftSql,
    pub total_count: i32,
}

/// Decodes a page of an NFT search: the records, and the total count of
/// matching NFTs that the first row carries (zero for an empty page).
pub fn search_nfts_page(rows: Vec<NftSearchRow>) -> (r: Result<(Vec<NftRow>, u32), DatabaseError>)
    ensures
        r is Ok <==> (rows@.len() > 0 ==> 0 <= rows@[0].total_count) && forall|i: int|
            0 <= i < rows@.len() ==> #[trigger] rows@[i].nft.decodable(),
        r matches Ok((nfts, total)) ==> {
            &&& total == (if rows@.len() == 0 { 0 } else { rows@[0].total_count as int })
            &&& nfts@.len() == rows@.len()
            &&& forall|i: int| 0 <= i < rows@.len() ==> #[trigger] rows@[i].nft.decodes_to(nfts@[i])
        },
        r matches Err(e) ==> if rows@.len() > 0 && rows@[0].total_count < 0 {
            e is PrecisionLost
        } else {
            first_row_error(rows@.map_values(|row: NftSearchRow| row.nft), e)
        },
{
    let first = if rows.len() > 0 {
        Some(rows[0].total_count as i64)
    } else {
        None
    };
    let total = match page_total(first) {
        Ok(t) => t,
        Err(e) => return Err(e),
    };
    let ghost all = rows@;
    let mut records: Vec<NftSql> = Vec::new();
    for row in it: rows.into_iter()
        invariant
            it.seq() == all,
            records@.len() == it.index(),
            forall|i: int| 0 <= i < it.index() ==> #[trigger] records@[i] == all[i].nft,
    {
        records.push(row.nft);
    }
    let ghost extracted = records@;
    let decoded = decode_rows(records);
    proof {
        assert(extracted.len() == all.len());
        assert(extracted =~= all.map_values(|row: NftSearchRow| row.nft));
        assert forall|i: int| 0 <= i < all.len() implies #[trigger] all[i].nft.decodable() == extracted[i].decodable() by {
            assert(extracted[i] == all[i].nft);
        }
        if decoded is Ok {
            let nfts = decoded->Ok_0;
            assert forall|i: int| 0 <= i < all.len() implies #[trigger] all[i].nft.decodes_to(nfts@[i]) by {
                assert(extracted[i] == all[i].nft);
            }
        }
    }
    match decoded {
        Ok(nfts) => Ok((nfts, total)),
        Err(e) => Err(e),
    }
}

/// The SHA-256 hasher of chia-sha2.
#[verifier::external_type_specification]
#[verifier::external_body]
pub struct ExSha256(chia_sha2::Sha256);

/// The SHA-256 digest of a byte string.
pub uninterp spec fn sha256(data: Seq<u8>) -> Seq<u8>;

/// The bytes that a hasher has been fed so far.
pub uninterp spec fn hasher_input(hasher: chia_sha2::Sha256) -> Seq<u8>;

/// `Sha256::new`: a hasher that has been fed nothing.
#[verifier::external_body]
fn new_hasher() -> (hasher: chia_sha2::Sha256)
    ensures
        hasher_input(hasher) == Seq::<u8>::empty(),
{
    chia_sha2::Sha256::new()
}

/// `Sha256::update`: feeds the bytes to the hasher.
#[verifier::external_body]
fn hasher_update(hasher: &mut chia_sha2::Sha256, data: &[u8])
    ensures
        hasher_input(*final(hasher)) == hasher_input(*old(hasher)) + data@,
{
    hasher.update(data);
}

/// `Sha256::finalize`: the digest of everything the hasher was fed.
#[verifier::external_body]
fn hasher_finalize(hasher: chia_sha2::Sha256) -> (digest: [u8; 32])
    ensures
        digest@ == sha256(hasher_input(hasher)),
{
    hasher.finalize()
}

/// The id of a collection: the SHA-256 digest of the minter DID's id in
/// lowercase hexadecimal, followed by the collection id that the NFT's
/// metadata gives.
pub fn calculate_collection_id(did_id: [u8; 32], json_collection_id: &str) -> (r: [u8; 32])
    ensures
        r@ == sha256(
            vstd::utf8::encode_utf8(hex_lower(did_id@)) + vstd::utf8::encode_utf8(json_collection_id@),
        ),
{
    let mut hasher = new_hasher();
    let did_hex = hex_encode(did_id.as_slice());
    hasher_update(&mut hasher, did_hex.as_str().as_bytes());
    hasher_update(&mut hasher, json_collection_id.as_bytes());
    proof {
        assert(Seq::<u8>::empty() + vstd::utf8::encode_utf8(hex_lower(did_id@)) =~= vstd::utf8::encode_utf8(hex_lower(did_id@)));
    }
    hasher_finalize(hasher)
}

} // verus!
