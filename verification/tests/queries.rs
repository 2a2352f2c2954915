use sage::database::coin_states::{cat_coin_states_query, p2_coin_states_query, CoinKind};
use sage::database::coin_states::coin_states_by_ids_query;
use sage::database::coins::{coin_records_query, AssetFilter, CoinFilterMode, CoinSortMode};
use sage::database::p2_puzzles::{p2_puzzle_kind, P2PuzzleKind};
use sage::database::rows::{options_query, OPTIONS_SELECT};
use sage::database::history::transaction_coins_query;
use sage::database::nft_records::{search_nfts_query, NftGroup, NftSearchParams};
use sage::database::nfts::{owned_nfts_query, NftGroupSearch, NftSortMode};
use sage::database::offers::{
    escape_like, offer_status, offers_page_query, trim, OfferSearchSide, OfferSortColumn,
    OfferStatus, OffersPageParams,
};
use sage::database::options::{owned_options_query, OptionSortMode, OWNED_OPTIONS_SELECT};
use sage::database::validation::{
    is_valid_address, is_valid_asset_id, is_valid_height, puzzle_hash_from_address,
};
use sage::error::DatabaseError;

const ASSET_ID: &str = "a628c1c2c6fcb74d53746157e438e108eab5c0bb3e5c80ff9b1910b3e4832913";

#[test]
fn asset_ids_are_64_hex_digits() {
    assert!(is_valid_asset_id(ASSET_ID));
    assert!(is_valid_asset_id(&ASSET_ID.to_uppercase()));
    assert!(!is_valid_asset_id(&ASSET_ID[1..]));
    assert!(!is_valid_asset_id(&format!("{}0", ASSET_ID)));
    assert!(!is_valid_asset_id(&ASSET_ID.replace('a', "g")));
    assert!(!is_valid_asset_id(""));
}

#[test]
fn heights_are_what_u32_parses() {
    assert!(is_valid_height("0"));
    assert!(is_valid_height("123456"));
    assert!(is_valid_height("+42"));
    assert!(is_valid_height("4294967295"));
    assert!(is_valid_height("0004294967295"));
    assert!(!is_valid_height("4294967296"));
    assert!(!is_valid_height(""));
    assert!(!is_valid_height("+"));
    assert!(!is_valid_height("-1"));
    assert!(!is_valid_height("12a"));
    assert!(!is_valid_height(" 1"));
}

#[test]
fn addresses_are_checked_with_their_prefix() {
    let address = "xch1a0t57qn6uhe7tzjlxlhwy2qgmuxvvft8gnfzmg5detg0q9f3yc3s2apz0h";
    assert!(is_valid_address(address, "xch"));
    assert!(!is_valid_address(address, "txch"));
    assert!(!is_valid_address("hello there!", "xch"));
    let hash = puzzle_hash_from_address(address).unwrap();
    assert_eq!(hash.len(), 64);
    assert!(is_valid_asset_id(&hash));
    assert_eq!(puzzle_hash_from_address("nonsense"), None);
}

#[test]
fn coin_kinds_read_from_numbers() {
    assert_eq!(CoinKind::from_i64(1), CoinKind::Xch);
    assert_eq!(CoinKind::from_i64(2), CoinKind::Cat);
    assert_eq!(CoinKind::from_i64(3), CoinKind::Nft);
    assert_eq!(CoinKind::from_i64(4), CoinKind::Did);
    assert_eq!(CoinKind::from_i64(0), CoinKind::Unknown);
    assert_eq!(CoinKind::from_i64(-7), CoinKind::Unknown);
}

#[test]
fn offer_statuses_read_from_numbers() {
    assert_eq!(offer_status(0).unwrap(), OfferStatus::Pending);
    assert_eq!(offer_status(4).unwrap(), OfferStatus::Expired);
    assert!(matches!(offer_status(5), Err(DatabaseError::InvalidEnumVariant)));
    assert_eq!(OfferStatus::Cancelled.index(), 3);
}

#[test]
fn like_escaping_marks_wildcards() {
    assert_eq!(escape_like("100%_Pure"), "100\\%\\_Pure");
    assert_eq!(escape_like("a\\b"), "a\\\\b");
    assert_eq!(escape_like("plain"), "plain");
    assert_eq!(escape_like(""), "");
}

#[test]
fn trimming_drops_surrounding_space() {
    assert_eq!(trim("  space  "), "space");
    assert_eq!(trim("   "), "");
    assert_eq!(trim("\tx y\n"), "x y");
    assert_eq!(trim(""), "");
}

#[test]
fn option_search_inlines_only_asset_ids() {
    let query = owned_options_query(10, 0, OptionSortMode::Name, true, Some(ASSET_ID.to_string()), false);
    let sql = query.builder.sql();
    assert!(sql.starts_with(OWNED_OPTIONS_SELECT));
    assert!(sql.contains(&format!("asset_hash = X'{ASSET_ID}'")));
    assert!(sql.contains(" AND asset_is_visible = 1"));
    assert!(sql.ends_with(" ORDER BY asset_name ASC LIMIT ? OFFSET ?"));

    let query = owned_options_query(10, 0, OptionSortMode::ExpirationSeconds, false, Some("x' OR 1=1".to_string()), true);
    let sql = query.builder.sql();
    assert!(!sql.contains("x' OR 1=1"));
    assert!(!sql.contains("asset_is_visible = 1"));
    assert!(sql.ends_with(" ORDER BY p2_options.expiration_seconds DESC LIMIT ? OFFSET ?"));
    assert_eq!(sql.matches('?').count(), 8);
}

#[test]
fn nft_listing_orders_and_filters() {
    let query = owned_nfts_query(
        Some("ape".to_string()),
        Some(NftGroupSearch::NoMinterDid),
        NftSortMode::Name,
        true,
        5,
        10,
    );
    let sql = query.builder.sql();
    assert!(sql.contains("AND asset_name LIKE ?"));
    assert!(sql.contains(" AND owned_nfts.minter_hash IS NULL"));
    assert!(sql.ends_with(" ORDER BY asset_is_visible DESC, asset_name ASC, edition_number ASC LIMIT ? OFFSET ?"));
}

#[test]
fn nft_search_binds_group_and_name() {
    let params = NftSearchParams {
        sort_mode: NftSortMode::Recent,
        include_hidden: false,
        group: Some(NftGroup::Collection([3; 32])),
        name: None,
    };
    let query = search_nfts_query(&params, 20, 0);
    let sql = query.builder.sql();
    assert!(sql.contains(" AND visible = 1 AND collection_id = ?"));
    assert!(sql.ends_with("is_pending DESC, created_height DESC, launcher_id ASC LIMIT ? OFFSET ?"));
}

#[test]
fn coin_listings_order_by_the_mode() {
    let query = p2_coin_states_query(10, 0, CoinSortMode::Amount, false, false);
    let sql = query.builder.sql();
    assert!(sql.ends_with(" AND `spent_height` IS NULL ORDER BY `amount` DESC LIMIT ? OFFSET ?"));
    let query = cat_coin_states_query([1; 32], 10, 0, CoinSortMode::CoinId, true, true);
    let sql = query.builder.sql();
    assert!(sql.ends_with("WHERE `asset_id` = ? ORDER BY `coin_states`.`coin_id` ASC LIMIT ? OFFSET ?"));
    assert_eq!(CoinSortMode::default(), CoinSortMode::CreatedHeight);
}

#[test]
fn history_search_writes_heights_and_xch() {
    let query = transaction_coins_query(0, 10, false, Some("XCH".to_string()));
    let sql = query.builder.sql();
    assert!(sql.contains(" AND (kind = 1 OR ticker LIKE ?"));
    let query = transaction_coins_query(0, 10, true, Some("1234".to_string()));
    let sql = query.builder.sql();
    assert!(sql.contains(" AND (height = 1234 OR ticker LIKE ?"));
    assert!(sql.contains("ORDER BY height ASC LIMIT ? OFFSET ? )"));
    let query = transaction_coins_query(0, 10, true, Some(ASSET_ID.to_string()));
    assert!(query.builder.sql().contains(&format!("cats.asset_id = X'{ASSET_ID}' OR ")));
}

#[test]
fn offer_page_searches_trimmed_text() {
    let params = OffersPageParams {
        find_text: Some("  space  ".to_string()),
        side: OfferSearchSide::Offered,
        ..OffersPageParams::default()
    };
    let query = offers_page_query(&params);
    let sql = query.builder.sql();
    assert!(sql.contains("oa.is_requested = 0 AND (0 OR a.name LIKE ? ESCAPE '\\' OR a.ticker LIKE ? ESCAPE '\\')))"));
    assert!(sql.ends_with(" ORDER BY inserted_timestamp DESC, offers.id DESC"));

    let blank = OffersPageParams {
        find_text: Some("   ".to_string()),
        status: Some(OfferStatus::Active),
        limit: Some(2),
        sort: OfferSortColumn::Expiration,
        ascending: true,
        ..OffersPageParams::default()
    };
    let sql = offers_page_query(&blank).builder.into_sql();
    assert!(!sql.contains("offers.id IN"));
    assert!(sql.contains(" AND status = ?"));
    assert!(sql.contains("expiration_timestamp ASC,"));
    assert!(sql.ends_with(" LIMIT ? OFFSET ?"));
}

#[test]
fn coin_records_name_the_view_of_the_filter() {
    let query = coin_records_query(AssetFilter::Nfts, 25, 50, CoinSortMode::CreatedHeight, false, CoinFilterMode::Spendable);
    let sql = query.builder.sql();
    assert_eq!(sql.matches("spendable_coins").count(), 5);
    assert!(!sql.contains("owned_coins"));
    assert!(sql.ends_with(" WHERE asset_kind = 1 ORDER BY created_height DESC LIMIT ? OFFSET ?"));
    assert_eq!(sql.matches('?').count(), 2);

    let query = coin_records_query(AssetFilter::Id([9; 32]), 25, 0, CoinSortMode::CoinId, true, CoinFilterMode::All);
    let sql = query.builder.sql();
    assert_eq!(sql.matches("wallet_coins").count(), 5);
    assert!(sql.ends_with(" WHERE asset_hash = ? ORDER BY coin_hash ASC LIMIT ? OFFSET ?"));
    assert_eq!(sql.matches('?').count(), 3);
}

#[test]
fn option_contracts_hide_invisible_ones_unless_asked() {
    let sql = options_query(false).builder.sql().to_string();
    assert!(sql.starts_with(OPTIONS_SELECT));
    assert!(sql.ends_with(" AND visible = 1 ORDER BY is_pending DESC, created_height DESC, launcher_id ASC"));
    let sql = options_query(true).builder.sql().to_string();
    assert!(!sql.contains("AND visible = 1"));
    assert!(sql.ends_with(" ORDER BY visible DESC, is_pending DESC, created_height DESC, launcher_id ASC"));
}

#[test]
fn coin_states_by_ids_list_hex_literals() {
    let ids = vec!["ab".to_string(), "cd".to_string()];
    let sql = coin_states_by_ids_query(&ids).builder.sql().to_string();
    assert!(sql.ends_with("coin_states.coin_id IN (X'ab', X'cd')"));
}

#[test]
fn p2_puzzle_kinds_read_back_from_their_index() {
    assert_eq!(p2_puzzle_kind(0).unwrap(), P2PuzzleKind::PublicKey);
    assert_eq!(p2_puzzle_kind(1).unwrap(), P2PuzzleKind::Clawback);
    assert_eq!(p2_puzzle_kind(2).unwrap(), P2PuzzleKind::Option);
    assert_eq!(p2_puzzle_kind(3).unwrap(), P2PuzzleKind::Arbor);
    assert!(matches!(p2_puzzle_kind(4), Err(DatabaseError::InvalidEnumVariant)));
    assert!(matches!(p2_puzzle_kind(-1), Err(DatabaseError::InvalidEnumVariant)));
}
