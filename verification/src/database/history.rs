//! The transaction history: the query that pages through the block heights
//! at which the wallet's coins were created or spent.

use vstd::prelude::*;

use crate::database::options::opt_string_view;
use crate::database::sql::{
    contains_text, occurs_at,
    like_pattern, new_query, push_bind_text, push_bind_u32, push_sql, query_binds, query_sql,
    SqlQuery, SqlValue,
};
use crate::database::validation::{
    address_decoded, hex_lower, is_address_with_prefix, is_asset_id, is_valid_address,
    is_valid_asset_id, is_valid_height, parses_as_u32, puzzle_hash_from_address,
};

verus! {

broadcast use vstd::string::group_string_axioms;

/// The lowercase form that `str::to_lowercase` gives of a text.
pub uninterp spec fn lowercase(text: Seq<char>) -> Seq<char>;

/// `str::to_lowercase`: the text in lowercase, by Unicode's rules.
#[verifier::external_body]
fn to_lowercase(text: &str) -> (r: String)
    ensures
        r@ == lowercase(text@),
{
    text.to_lowercase()
}

/// The start of the history statement: every height at which a coin was
/// created or spent, joined to the coin's asset, before the search filter.
pub const TRANSACTION_HEIGHTS_SELECT: &'static str = "
        WITH coin_states_with_heights AS (
            SELECT 
                cs.coin_id,
                cs.created_height as height
            FROM coin_states cs
            WHERE cs.created_height IS NOT NULL
            
            UNION ALL
            
            SELECT 
                cs.coin_id,
                cs.spent_height as height
            FROM coin_states cs
            WHERE cs.spent_height IS NOT NULL
        ),
        joined_coin_states AS (
            SELECT 
                DISTINCT h.height
            FROM coin_states_with_heights h
                LEFT JOIN cat_coins ON h.coin_id = cat_coins.coin_id
                LEFT JOIN cats ON cat_coins.asset_id = cats.asset_id
                LEFT JOIN did_coins ON h.coin_id = did_coins.coin_id
                LEFT JOIN dids ON did_coins.coin_id = dids.coin_id
                LEFT JOIN nft_coins ON h.coin_id = nft_coins.coin_id
                LEFT JOIN nfts ON nft_coins.coin_id = nfts.coin_id
            WHERE 1=1
        ";

/// The middle of the history statement: the page of distinct heights, before
/// its direction.
pub const TRANSACTION_PAGE_SELECT: &'static str = "
        ),
        paged_heights AS (
            SELECT 
                height,
                COUNT(*) OVER() as total_count
            FROM joined_coin_states
            ORDER BY height ";

/// The end of the history statement: the coins created and spent at the paged
/// heights.
pub const TRANSACTION_COINS_SELECT: &'static str = "
        SELECT 
            paged_heights.total_count,
            'created' AS action_type,
            cs.created_height AS height,
            created_unixtime AS unixtime, 
            cs.coin_id,  
            cs.kind, 
            amount,
            COALESCE (cat_coins.p2_puzzle_hash, did_coins.p2_puzzle_hash, nft_coins.p2_puzzle_hash, puzzle_hash) AS p2_puzzle_hash,
            COALESCE (cats.name, nfts.name, dids.name, NULL) AS name,
            COALESCE (cats.asset_id, nfts.launcher_id, dids.launcher_id, NULL) AS item_id,
            nft_coins.metadata AS nft_metadata,
            cats.ticker,
            cats.icon AS cat_icon_url,
            nft_thumbnails.icon AS nft_icon,
            (SELECT COUNT(*)
                FROM derivations d 
                WHERE d.p2_puzzle_hash = COALESCE(cat_coins.p2_puzzle_hash, did_coins.p2_puzzle_hash, nft_coins.p2_puzzle_hash, cs.puzzle_hash)) AS derivation_count
        FROM coin_states cs
            INNER JOIN paged_heights ON cs.created_height = paged_heights.height
            LEFT JOIN cat_coins ON cs.coin_id = cat_coins.coin_id
            LEFT JOIN cats ON cat_coins.asset_id = cats.asset_id
            LEFT JOIN did_coins ON cs.coin_id = did_coins.coin_id
            LEFT JOIN dids ON did_coins.coin_id = dids.coin_id
            LEFT JOIN nft_coins ON cs.coin_id = nft_coins.coin_id
            LEFT JOIN nfts ON nft_coins.coin_id = nfts.coin_id
	        LEFT JOIN nft_thumbnails ON nft_coins.data_hash = nft_thumbnails.hash

        UNION ALL 

        SELECT 
            paged_heights.total_count,
            'spent' AS action_type,
            cs.spent_height AS height,
            spent_unixtime AS unixtime, 
            cs.coin_id,  
            cs.kind, 
            amount,
            COALESCE (cat_coins.p2_puzzle_hash, did_coins.p2_puzzle_hash, nft_coins.p2_puzzle_hash, puzzle_hash) AS p2_puzzle_hash,
            COALESCE (cats.name, nfts.name, dids.name, NULL) AS name,
            COALESCE (cats.asset_id, nfts.launcher_id, dids.launcher_id, NULL) AS item_id,
            nft_coins.metadata AS nft_metadata,
            cats.ticker,
            cats.icon AS cat_icon_url,
            nft_thumbnails.icon AS nft_icon,
            (SELECT COUNT(*)
                FROM derivations d 
                WHERE d.p2_puzzle_hash = COALESCE(cat_coins.p2_puzzle_hash, did_coins.p2_puzzle_hash, nft_coins.p2_puzzle_hash, cs.puzzle_hash)) AS derivation_count
        FROM coin_states cs
            INNER JOIN paged_heights ON cs.spent_height = paged_heights.height
            LEFT JOIN cat_coins ON cs.coin_id = cat_coins.coin_id
            LEFT JOIN cats ON cat_coins.asset_id = cats.asset_id
            LEFT JOIN did_coins ON cs.coin_id = did_coins.coin_id
            LEFT JOIN dids ON did_coins.coin_id = dids.coin_id
            LEFT JOIN nft_coins ON cs.coin_id = nft_coins.coin_id
            LEFT JOIN nfts ON nft_coins.coin_id = nfts.coin_id
            LEFT JOIN nft_thumbnails ON nft_coins.data_hash = nft_thumbnails.hash";

/// The length in bytes of a text's UTF-8 encoding, as `str::len` gives it.
pub open spec fn utf8_len(text: Seq<char>) -> usize {
    vstd::utf8::encode_utf8(text).len() as usize
}

/// The search text asks for the chain's own coins: it is at most three bytes
/// long and, in lowercase, is `x`, `xc` or `xch`.
pub open spec fn searches_xch(value: Seq<char>) -> bool {
    &&& utf8_len(value) <= 3
    &&& (lowercase(value) == "x"@ || lowercase(value) == "xc"@ || lowercase(value) == "xch"@)
}

/// `sql` followed by the filter that the search text writes into the
/// statement: standard coins for `xch`; the CAT for an asset id, else the NFT
/// or DID for an address of that kind, as a hexadecimal literal; the height
/// for a number.
pub open spec fn history_inline_sql(sql: Seq<char>, value: Seq<char>) -> Seq<char> {
    let xch = if searches_xch(value) {
        sql + "kind = 1 OR "@
    } else {
        sql
    };
    let asset = if is_asset_id(value) {
        xch + "cats.asset_id = X'"@ + value + "' OR "@
    } else if is_address_with_prefix(value, "nft"@) {
        match address_decoded(value) {
            Some((_, puzzle_hash)) => xch + "nfts.launcher_id = X'"@ + hex_lower(puzzle_hash) + "' OR "@,
            None => xch,
        }
    } else if is_address_with_prefix(value, "did:chia:"@) {
        match address_decoded(value) {
            Some((_, puzzle_hash)) => xch + "dids.launcher_id = X'"@ + hex_lower(puzzle_hash) + "' OR "@,
            None => xch,
        }
    } else {
        xch
    };
    if parses_as_u32(value) {
        asset + "height = "@ + value + " OR "@
    } else {
        asset
    }
}

/// `sql` followed by the search filter of the history, where there is search
/// text: what it writes into the statement, then its pattern against the
/// ticker and the names of CATs, DIDs and NFTs.
pub open spec fn history_search_sql(sql: Seq<char>, find_value: Option<Seq<char>>) -> Seq<char> {
    match find_value {
        None => sql,
        Some(v) => history_inline_sql(sql + " AND ("@, v) + "ticker LIKE "@ + "?"@ + " OR cats.name LIKE "@
            + "?"@ + " OR dids.name LIKE "@ + "?"@ + " OR nfts.name LIKE "@ + "?"@ + ")"@,
    }
}

/// The history statement.
pub open spec fn transaction_coins_sql(asc: bool, find_value: Option<Seq<char>>) -> Seq<char> {
    history_search_sql(TRANSACTION_HEIGHTS_SELECT@, find_value) + TRANSACTION_PAGE_SELECT@ + (if asc {
        "ASC"@
    } else {
        "DESC"@
    }) + " LIMIT "@ + "?"@ + " OFFSET "@ + "?"@ + " )"@ + TRANSACTION_COINS_SELECT@
}

/// The history pages through block heights in the asked direction: the
/// statement orders the paged heights ascending where `asc` holds and
/// descending (newest first) where it does not, and bounds that page with
/// the limit and offset.
pub proof fn lemma_transaction_coins_direction(asc: bool, find_value: Option<Seq<char>>)
    ensures
        contains_text(
            transaction_coins_sql(asc, find_value),
            if asc {
                "ORDER BY height ASC LIMIT ? OFFSET ? )"@
            } else {
                "ORDER BY height DESC LIMIT ? OFFSET ? )"@
            },
        ),
{
    reveal_strlit("
        ),
        paged_heights AS (
            SELECT 
                height,
                COUNT(*) OVER() as total_count
            FROM joined_coin_states
            ORDER BY height ");
    reveal_strlit("ASC");
    reveal_strlit("DESC");
    reveal_strlit(" LIMIT ");
    reveal_strlit("?");
    reveal_strlit(" OFFSET ");
    reveal_strlit(" )");
    reveal_strlit("ORDER BY height ASC LIMIT ? OFFSET ? )");
    reveal_strlit("ORDER BY height DESC LIMIT ? OFFSET ? )");
    let searched = history_search_sql(TRANSACTION_HEIGHTS_SELECT@, find_value);
    let sql = transaction_coins_sql(asc, find_value);
    let at = searched.len() as int + TRANSACTION_PAGE_SELECT@.len() as int - 16;
    let part = if asc {
        "ORDER BY height ASC LIMIT ? OFFSET ? )"@
    } else {
        "ORDER BY height DESC LIMIT ? OFFSET ? )"@
    };
    assert(sql.subrange(at, at + part.len() as int) =~= part);
    assert(occurs_at(sql, part, at));
}

/// The arguments of the history statement: the four search patterns, then
/// the limit and the offset.
pub open spec fn transaction_coins_binds(limit: u32, offset: u32, find_value: Option<Seq<char>>) -> Seq<SqlValue> {
    let searched = match find_value {
        None => Seq::empty(),
        Some(v) => {
            let p = SqlValue::Text("%"@ + v + "%"@);
            seq![p, p, p, p]
        },
    };
    searched.push(SqlValue::Integer(limit as int)).push(SqlValue::Integer(offset as int))
}

/// Appends what the search text writes into the history statement.
fn push_history_inline(query: &mut SqlQuery, value: &str)
    ensures
        query_sql(*final(query)) == history_inline_sql(query_sql(*old(query)), value@),
        query_binds(*final(query)) == query_binds(*old(query)),
{
    let should_filter_xch = if value.len() <= 3 {
        let value_lower = to_lowercase(value);
        let x = "x".to_string();
        let xc = "xc".to_string();
        let xch = "xch".to_string();
        proof {
            assert(x@ == "x"@);
            assert(xc@ == "xc"@);
            assert(xch@ == "xch"@);
        }
        value_lower == x || value_lower == xc || value_lower == xch
    } else {
        false
    };
    if should_filter_xch {
        push_sql(query, "kind = 1 OR ");
    }
    if is_valid_asset_id(value) {
        push_sql(query, "cats.asset_id = X'");
        push_sql(query, value);
        push_sql(query, "' OR ");
    } else if is_valid_address(value, "nft") {
        if let Some(puzzle_hash) = puzzle_hash_from_address(value) {
            push_sql(query, "nfts.launcher_id = X'");
            push_sql(query, puzzle_hash.as_str());
            push_sql(query, "' OR ");
        }
    } else if is_valid_address(value, "did:chia:") {
        if let Some(puzzle_hash) = puzzle_hash_from_address(value) {
            push_sql(query, "dids.launcher_id = X'");
            push_sql(query, puzzle_hash.as_str());
            push_sql(query, "' OR ");
        }
    }
    if is_valid_height(value) {
        push_sql(query, "height = ");
        push_sql(query, value);
        push_sql(query, " OR ");
    }
}

/// The statement paging through the history: the heights at which coins were
/// created or spent, filtered by `find_value` where given, in ascending or
/// descending order, and the coins created and spent at those heights.
pub fn transaction_coins_query(offset: u32, limit: u32, asc: bool, find_value: Option<String>) -> (query: SqlQuery)
    ensures
        query_sql(query) == transaction_coins_sql(asc, opt_string_view(find_value)),
        query_binds(query) == transaction_coins_binds(limit, offset, opt_string_view(find_value)),
{
    let mut query = new_query(TRANSACTION_HEIGHTS_SELECT);
    if let Some(value) = &find_value {
        push_sql(&mut query, " AND (");
        push_history_inline(&mut query, value.as_str());
        push_sql(&mut query, "ticker LIKE ");
        push_bind_text(&mut query, like_pattern(value.as_str()));
        push_sql(&mut query, " OR cats.name LIKE ");
        push_bind_text(&mut query, like_pattern(value.as_str()));
        push_sql(&mut query, " OR dids.name LIKE ");
        push_bind_text(&mut query, like_pattern(value.as_str()));
        push_sql(&mut query, " OR nfts.name LIKE ");
        push_bind_text(&mut query, like_pattern(value.as_str()));
        push_sql(&mut query, ")");
    }
    push_sql(&mut query, TRANSACTION_PAGE_SELECT);
    if asc {
        push_sql(&mut query, "ASC");
    } else {
        push_sql(&mut query, "DESC");
    }
    push_sql(&mut query, " LIMIT ");
    push_bind_u32(&mut query, limit);
    push_sql(&mut query, " OFFSET ");
    push_bind_u32(&mut query, offset);
    push_sql(&mut query, " )");
    push_sql(&mut query, TRANSACTION_COINS_SELECT);
    proof {
        assert(query_binds(query) =~= transaction_coins_binds(limit, offset, opt_string_view(find_value)));
    }
    query
}

} // verus!
