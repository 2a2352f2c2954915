use sage::database::transaction_history::{mempool_coin_ids_rows, transaction_history_of, HistoryCoinColumns, TransactionHistoryColumns};
use sage::database::collections::{collections_page, CollectionColumns};
use sage::database::files::{file_uris_rows, updateable_nfts_rows, FileDataColumns, FileUriColumns, UpdateableNftColumns};
use sage::database::blocks::{latest_peak_of, unsynced_heights};
use sage::convert::{amount_bytes, Convert};
use sage::database::assets::{AssetColumns, AssetKind};
use sage::database::coin_states::{CoinKind as StateKind, CoinStateSql, EnhancedCoinStateSql, cat_coin_states_page, p2_coin_states_page};
use sage::database::catalog::{cat_assets_page, did_assets_rows, CatAssetColumns, CatalogAsset, CatalogAssetColumns, DidAssetColumns};
use sage::database::coins::{balance_of, coin_kind_of_asset, unsynced_coins_rows, UnsyncedCoinColumns, all_coins_counted, are_coins_spendable_query, CoinColumns, CoinKind};
use sage::database::files::ResizedImageKind;
use sage::database::nft_records::calculate_collection_id;
use sage::database::nfts::{NftOfferInfoColumns, owned_nfts_page, NftRowColumns};
use sage::database::offers::{offer_assets_rows, OfferedAssetColumns, offers_page_rows, OfferRowColumns, OfferStatus};
use sage::database::options::{OptionOfferInfoColumns, option_underlying_of, owned_options_page, OptionRowColumns, OptionType, OptionUnderlyingColumns};
use sage::database::mempool::{mempool_coin_spends_rows, mempool_items_rows, CoinSpendColumns, MempoolItemColumns};
use sage::database::sql::{decode_hashes, HashColumn};
use sage::database::rows::{DerivationSql, LineageSql, OwnedCatCoinSql, OwnedDidCoinSql};
use sage::database::coin_states::CoinSql;
use sage::database::p2_puzzles::{
    decode_public_key, start_p2_puzzle, step_p2_puzzle, ClawbackColumns, P2Puzzle, P2PuzzleAnswer,
    P2PuzzleKind, P2PuzzleRead, P2PuzzleStep,
};
use sage::database::sql::RowColumns;
use sage::database::transactions::{group_transactions, transaction_from_rows, transactions_page, DecodedTransactionRow, TransactionRowColumns};
use sage::error::DatabaseError;

fn asset(hash: u8, precision: i64) -> AssetColumns {
    AssetColumns {
        hash: vec![hash; 32],
        name: Some(format!("asset {hash}")),
        ticker: Some("TKR".to_string()),
        precision,
        icon_url: None,
        description: None,
        is_visible: true,
        is_sensitive_content: false,
        hidden_puzzle_hash: None,
    }
}

fn coin() -> CoinColumns {
    CoinColumns {
        parent_coin_hash: vec![1; 32],
        puzzle_hash: vec![2; 32],
        amount: 1000u64.to_be_bytes().to_vec(),
        p2_puzzle_hash: vec![3; 32],
        offer_hash: None,
        clawback_timestamp: Some(77),
        created_height: Some(10),
        spent_height: None,
        created_timestamp: Some(1_700_000_000),
        spent_timestamp: None,
    }
}

fn option_row(total: i64) -> OptionRowColumns {
    OptionRowColumns {
        asset: asset(9, 0),
        underlying_asset: asset(4, 3),
        underlying_asset_kind: None,
        underlying_amount: 50u64.to_be_bytes().to_vec(),
        strike_asset: asset(5, 3),
        strike_asset_kind: Some(1),
        strike_amount: 60u64.to_be_bytes().to_vec(),
        expiration_seconds: 3600,
        coin: coin(),
        underlying_coin_id: vec![6; 32],
        total_count: total,
    }
}

#[test]
fn option_rows_decode_with_their_kinds() {
    let (options, total) = owned_options_page(vec![option_row(7), option_row(7)]).unwrap();
    assert_eq!(total, 7);
    assert_eq!(options.len(), 2);
    let o = &options[0];
    assert_eq!(o.asset.hash, [9; 32]);
    assert_eq!(o.asset.kind, AssetKind::Option);
    assert_eq!(o.underlying_asset.kind, AssetKind::Token);
    assert_eq!(o.underlying_asset.precision, 3);
    assert_eq!(o.strike_asset.kind, AssetKind::Nft);
    assert_eq!(o.underlying_amount, 50);
    assert_eq!(o.strike_amount, 60);
    assert_eq!(o.expiration_seconds, 3600);
    assert_eq!(o.coin_row.kind, CoinKind::Option);
    assert_eq!(o.coin_row.coin.amount, 1000);
    assert_eq!(o.coin_row.clawback_timestamp, Some(77));
    assert_eq!(o.coin_row.created_height, Some(10));
    assert_eq!(o.underlying_coin_id, [6; 32]);
}

#[test]
fn option_page_errors() {
    assert_eq!(owned_options_page(vec![]).unwrap().1, 0);
    assert!(matches!(owned_options_page(vec![option_row(-1)]), Err(DatabaseError::PrecisionLost(_))));
    let mut bad = option_row(1);
    bad.underlying_coin_id = vec![6; 31];
    assert!(matches!(owned_options_page(vec![option_row(1), bad]), Err(DatabaseError::InvalidLength(31, 32))));
    let mut bad_kind = option_row(1);
    bad_kind.strike_asset_kind = Some(9);
    assert!(matches!(owned_options_page(vec![bad_kind]), Err(DatabaseError::InvalidEnumVariant)));
    let mut bad_precision = option_row(1);
    bad_precision.asset.precision = 256;
    assert!(matches!(owned_options_page(vec![bad_precision]), Err(DatabaseError::PrecisionLost(_))));
}

#[test]
fn nft_without_collection_has_zero_collection_hash() {
    let row = NftRowColumns {
        asset: asset(8, 0),
        collection_hash: None,
        collection_name: None,
        minter_hash: Some(vec![7; 32]),
        owner_hash: None,
        metadata: vec![0x80],
        metadata_updater_puzzle_hash: vec![1; 32],
        royalty_puzzle_hash: vec![2; 32],
        royalty_basis_points: 300,
        data_hash: None,
        metadata_hash: None,
        license_hash: None,
        edition_number: Some(1),
        edition_total: Some(10),
        coin: coin(),
        total_count: 1,
    };
    let (nfts, total) = owned_nfts_page(vec![row]).unwrap();
    assert_eq!(total, 1);
    assert_eq!(nfts[0].nft_info.collection_hash, [0; 32]);
    assert_eq!(nfts[0].nft_info.minter_hash, Some([7; 32]));
    assert_eq!(nfts[0].nft_info.royalty_basis_points, 300);
    assert_eq!(nfts[0].asset.kind, AssetKind::Nft);
    assert_eq!(nfts[0].coin_row.kind, CoinKind::Nft);
}

fn coin_state(kind: i64) -> CoinStateSql {
    CoinStateSql {
        parent_coin_id: vec![1; 32],
        puzzle_hash: vec![2; 32],
        amount: vec![0, 0, 0, 0, 0, 0, 0, 5],
        spent_height: None,
        created_height: Some(12),
        transaction_id: None,
        kind,
        created_unixtime: Some((1i64 << 32) + 5),
        spent_unixtime: None,
    }
}

#[test]
fn coin_states_keep_low_timestamp_bits() {
    let (rows, total) = p2_coin_states_page(vec![coin_state(1), coin_state(9)], 2).unwrap();
    assert_eq!(total, 2);
    assert_eq!(rows[0].coin_state.coin.amount, 5);
    assert_eq!(rows[0].kind, StateKind::Xch);
    assert_eq!(rows[1].kind, StateKind::Unknown);
    assert_eq!(rows[0].created_timestamp, Some(5));
    assert_eq!(rows[0].coin_state.created_height, Some(12));
    assert_eq!(p2_coin_states_page(vec![], 9).unwrap().1, 0);
}

#[test]
fn cat_coin_states_carry_offer_and_spend() {
    let row = EnhancedCoinStateSql {
        coin_state: coin_state(2),
        offer_id: Some("offer".to_string()),
        spend_transaction_id: None,
    };
    let (rows, total) = cat_coin_states_page(vec![row], 4).unwrap();
    assert_eq!(total, 4);
    assert_eq!(rows[0].base.kind, StateKind::Cat);
    assert_eq!(rows[0].offer_id.as_deref(), Some("offer"));
    assert_eq!(rows[0].spend_transaction_id, None);
}

fn history_row(height: u32, timestamp: Option<i64>, spent: i64, created: i64, amount: u64) -> TransactionRowColumns {
    TransactionRowColumns {
        height,
        timestamp,
        is_created_in_block: created,
        is_spent_in_block: spent,
        parent_coin_hash: vec![1; 32],
        puzzle_hash: vec![2; 32],
        amount: amount.to_be_bytes().to_vec(),
        asset_hash: vec![0; 32],
        asset_name: None,
        asset_icon_url: None,
        asset_description: None,
        asset_is_sensitive_content: false,
        asset_is_visible: true,
        asset_created_height: None,
        asset_kind: None,
        p2_puzzle_hash: None,
        ticker: None,
        precision: None,
        total_count: 3,
    }
}

#[test]
fn history_rows_group_by_height() {
    let rows = vec![
        history_row(5, Some(50), 1, 0, 1),
        history_row(3, None, 0, 1, 2),
        history_row(5, Some(99), 1, 1, 3),
    ];
    let (transactions, total) = transactions_page(rows).unwrap();
    assert_eq!(total, 3);
    assert_eq!(transactions.len(), 2);
    assert_eq!(transactions[0].height, 5);
    assert_eq!(transactions[0].timestamp, Some(50));
    let spent: Vec<u64> = transactions[0].spent.iter().map(|c| c.coin.amount).collect();
    let created: Vec<u64> = transactions[0].created.iter().map(|c| c.coin.amount).collect();
    assert_eq!(spent, vec![1, 3]);
    assert_eq!(created, vec![3]);
    assert_eq!(transactions[1].height, 3);
    assert_eq!(transactions[1].timestamp, None);
    assert_eq!(transactions[1].created.len(), 1);
    assert_eq!(transactions[1].created[0].precision, 1);
    assert_eq!(transactions[1].created[0].asset.kind, AssetKind::Token);
}

#[test]
fn one_block_takes_the_first_timestamp() {
    let decoded: Vec<DecodedTransactionRow> = vec![
        history_row(8, None, 1, 0, 1),
        history_row(8, Some(70), 0, 1, 2),
        history_row(8, Some(80), 1, 1, 3),
    ]
    .into_iter()
    .map(|r| r.decode_row().unwrap())
    .collect();
    let t = transaction_from_rows(8, decoded).unwrap();
    assert_eq!(t.timestamp, Some(70));
    assert_eq!(t.spent.len(), 2);
    assert_eq!(t.created.len(), 2);
    assert!(transaction_from_rows(8, vec![]).is_none());
    assert!(group_transactions(vec![]).is_empty());
}

fn underlying(asset_hash: Vec<u8>, hidden: Option<Vec<u8>>) -> OptionUnderlyingColumns {
    OptionUnderlyingColumns {
        creator_puzzle_hash: vec![1; 32],
        expiration_seconds: 100,
        underlying_amount: 5u64.to_be_bytes().to_vec(),
        strike_asset_hash: asset_hash,
        strike_amount: 9u64.to_be_bytes().to_vec(),
        strike_hidden_puzzle_hash: hidden,
    }
}

#[test]
fn option_strike_type_follows_the_strike_asset() {
    let u = option_underlying_of([7; 32], underlying(vec![0; 32], Some(vec![3; 32]))).unwrap();
    assert_eq!(u.strike_type, OptionType::Xch { amount: 9 });
    assert_eq!(u.launcher_id, [7; 32]);
    assert_eq!(u.seconds, 100);
    assert_eq!(u.amount, 5);
    let u = option_underlying_of([7; 32], underlying(vec![2; 32], Some(vec![3; 32]))).unwrap();
    assert_eq!(u.strike_type, OptionType::RevocableCat { asset_id: [2; 32], hidden_puzzle_hash: [3; 32], amount: 9 });
    let u = option_underlying_of([7; 32], underlying(vec![2; 32], None)).unwrap();
    assert_eq!(u.strike_type, OptionType::Cat { asset_id: [2; 32], amount: 9 });
    assert!(option_underlying_of([7; 32], underlying(vec![2; 3], None)).is_err());
}

#[test]
fn stored_amounts_read_back() {
    for amount in [0u64, 1, 255, 256, 1_000_000, u64::MAX] {
        let bytes = amount_bytes(amount);
        assert_eq!(bytes, amount.to_be_bytes().to_vec());
        let back: u64 = bytes.convert().unwrap();
        assert_eq!(back, amount);
    }
}

#[test]
fn collection_id_hashes_hex_did_and_metadata_id() {
    let did = [0xab; 32];
    let mut hasher = chia_sha2::Sha256::new();
    hasher.update(hex::encode(did));
    hasher.update("my-collection");
    let expected: [u8; 32] = hasher.finalize();
    assert_eq!(calculate_collection_id(did, "my-collection"), expected);
}

fn offer(status: i64, height: Option<i64>) -> OfferRowColumns {
    OfferRowColumns {
        offer_id: vec![1; 32],
        encoded_offer: "offer1".to_string(),
        expiration_height: height,
        expiration_timestamp: Some(-1),
        fee: vec![0, 0, 0, 0, 0, 0, 0, 2],
        status,
        inserted_timestamp: 300,
        total_count: 1,
    }
}

#[test]
fn offer_rows_decode_status_and_times() {
    let (offers, total) = offers_page_rows(vec![offer(2, Some((1i64 << 32) + 3))]).unwrap();
    assert_eq!(total, 1);
    assert_eq!(offers[0].status, OfferStatus::Completed);
    assert_eq!(offers[0].expiration_height, Some(3));
    assert_eq!(offers[0].expiration_timestamp, Some(u64::MAX));
    assert_eq!(offers[0].fee, 2);
    assert_eq!(offers[0].inserted_timestamp, 300);
    assert!(matches!(offers_page_rows(vec![offer(7, None)]), Err(DatabaseError::InvalidEnumVariant)));
}

#[test]
fn derivation_keys_must_be_public_keys() {
    let sk = chia_bls::SecretKey::from_seed(&[4; 32]);
    let good = DerivationSql {
        p2_puzzle_hash: vec![1; 32],
        index: 3,
        hardened: false,
        synthetic_key: sk.public_key().to_bytes().to_vec(),
    };
    let row = good.decode().unwrap();
    assert_eq!(row.index, 3);
    assert_eq!(row.synthetic_key, sk.public_key().to_bytes());
    let bad = DerivationSql { p2_puzzle_hash: vec![1; 32], index: 3, hardened: true, synthetic_key: vec![0; 48] };
    assert!(matches!(bad.decode(), Err(DatabaseError::Bls(_))));
    let negative = DerivationSql { p2_puzzle_hash: vec![1; 32], index: -3, hardened: true, synthetic_key: vec![0; 48] };
    assert!(matches!(negative.decode(), Err(DatabaseError::PrecisionLost(_))));
}

#[test]
fn spendable_count_lists_coin_ids() {
    assert!(are_coins_spendable_query(&[]).is_none());
    let ids = vec!["aa".to_string(), "bb".to_string()];
    let sql = are_coins_spendable_query(&ids).unwrap().builder.into_sql();
    assert!(sql.ends_with("AND coin_hash IN (X'aa', X'bb')"));
    assert!(all_coins_counted(2, 2));
    assert!(!all_coins_counted(1, 2));
    assert_eq!(AssetKind::Did.index(), 2);
    assert_eq!(ResizedImageKind::Thumbnail.index(), 1);
}

#[test]
fn decoding_fails_with_the_first_bad_column() {
    let mut row = option_row(1);
    row.underlying_amount = vec![0; 7];
    row.coin.parent_coin_hash = vec![1; 31];
    assert!(matches!(row.decode_row(), Err(DatabaseError::InvalidLength(7, 8))));

    let mut row = option_row(1);
    row.strike_asset_kind = Some(9);
    row.expiration_seconds = -1;
    assert!(matches!(row.decode_row(), Err(DatabaseError::InvalidEnumVariant)));

    let mut row = option_row(1);
    row.coin.offer_hash = Some(vec![4; 33]);
    assert!(matches!(row.decode_row(), Err(DatabaseError::InvalidLength(33, 32))));
}

#[test]
fn pages_fail_with_the_first_bad_row() {
    let mut second = option_row(2);
    second.asset.precision = 256;
    let mut third = option_row(2);
    third.asset.hash = vec![0; 3];
    assert!(matches!(
        owned_options_page(vec![option_row(2), second, third]),
        Err(DatabaseError::PrecisionLost(_))
    ));
    let mut bad = option_row(-1);
    bad.asset.hash = vec![0; 3];
    assert!(matches!(owned_options_page(vec![bad]), Err(DatabaseError::PrecisionLost(_))));
}

fn catalog_columns(hash: u8, created_height: Option<i64>) -> CatalogAssetColumns {
    CatalogAssetColumns {
        hash: vec![hash; 32],
        name: Some("Spacebucks".to_string()),
        icon_url: None,
        description: Some("a token".to_string()),
        is_visible: true,
        is_sensitive_content: false,
        created_height,
    }
}

#[test]
fn empty_catalog_asset_has_only_hash_visibility_and_height() {
    let asset = CatalogAsset::empty([7; 32], false, Some(12));
    assert_eq!(asset.hash, [7; 32]);
    assert!(asset.name.is_none() && asset.icon_url.is_none() && asset.description.is_none());
    assert!(!asset.is_sensitive_content);
    assert!(!asset.is_visible);
    assert_eq!(asset.created_height, Some(12));
}

#[test]
fn catalog_cats_decode_with_their_total() {
    let rows = vec![
        CatAssetColumns { asset: catalog_columns(1, Some(5)), ticker: Some("SBX".to_string()), total_count: 2 },
        CatAssetColumns { asset: catalog_columns(2, None), ticker: None, total_count: 2 },
    ];
    let (cats, total) = cat_assets_page(rows).unwrap();
    assert_eq!(total, 2);
    assert_eq!(cats.len(), 2);
    assert_eq!(cats[0].asset.hash, [1; 32]);
    assert_eq!(cats[0].ticker.as_deref(), Some("SBX"));
    assert_eq!(cats[0].asset.created_height, Some(5));
    assert_eq!(cats[1].asset.created_height, None);

    let bad = vec![CatAssetColumns { asset: catalog_columns(1, Some(-3)), ticker: None, total_count: 1 }];
    assert!(matches!(cat_assets_page(bad), Err(DatabaseError::PrecisionLost(_))));
    assert_eq!(cat_assets_page(Vec::new()).unwrap().1, 0);
}

#[test]
fn catalog_dids_decode_their_recovery_terms() {
    let rows = vec![DidAssetColumns {
        asset: catalog_columns(3, Some(1)),
        metadata: vec![0x80],
        recovery_list_hash: Some(vec![4; 32]),
        num_verifications_required: 2,
    }];
    let dids = did_assets_rows(rows).unwrap();
    assert_eq!(dids[0].did_info.recovery_list_hash, Some([4; 32]));
    assert_eq!(dids[0].did_info.num_verifications_required, 2);
    assert_eq!(dids[0].did_info.metadata, vec![0x80]);

    let bad = vec![DidAssetColumns {
        asset: catalog_columns(3, Some(1)),
        metadata: vec![],
        recovery_list_hash: Some(vec![4; 20]),
        num_verifications_required: -1,
    }];
    assert!(matches!(did_assets_rows(bad), Err(DatabaseError::InvalidLength(20, 32))));
}

#[test]
fn coin_kinds_follow_the_asset() {
    assert_eq!(coin_kind_of_asset(Some(0), 0).unwrap(), CoinKind::Xch);
    assert_eq!(coin_kind_of_asset(Some(5), 0).unwrap(), CoinKind::Cat);
    assert_eq!(coin_kind_of_asset(Some(5), 1).unwrap(), CoinKind::Nft);
    assert_eq!(coin_kind_of_asset(Some(0), 2).unwrap(), CoinKind::Did);
    assert_eq!(coin_kind_of_asset(Some(7), 3).unwrap(), CoinKind::Option);
    assert!(matches!(coin_kind_of_asset(None, 0), Err(DatabaseError::InvalidEnumVariant)));
    assert!(matches!(coin_kind_of_asset(Some(1), 4), Err(DatabaseError::InvalidEnumVariant)));
}

#[test]
fn unsynced_coins_read_their_flags() {
    let row = UnsyncedCoinColumns {
        parent_coin_hash: vec![1; 32],
        puzzle_hash: vec![2; 32],
        amount: 5u64.to_be_bytes().to_vec(),
        created_height: Some(3),
        spent_height: None,
        is_asset_unsynced: 1,
        is_children_unsynced: 0,
    };
    let coins = unsynced_coins_rows(vec![row.clone()]).unwrap();
    assert_eq!(coins[0].coin_state.coin.amount, 5);
    assert_eq!(coins[0].coin_state.created_height, Some(3));
    assert!(coins[0].is_asset_unsynced);
    assert!(!coins[0].is_children_unsynced);

    let mut bad = row;
    bad.spent_height = Some(-1);
    assert!(matches!(unsynced_coins_rows(vec![bad]), Err(DatabaseError::PrecisionLost(_))));
    let limit: i64 = 100usize.convert().unwrap();
    assert_eq!(limit, 100);
}

#[test]
fn public_keys_must_have_48_bytes() {
    assert!(matches!(decode_public_key(vec![0; 47]), Err(DatabaseError::InvalidLength(47, 48))));
    assert!(matches!(decode_public_key(vec![0; 48]), Err(DatabaseError::Bls(_))));
}

#[test]
fn clawbacks_decode_without_a_key() {
    let columns = ClawbackColumns {
        key: None,
        sender_puzzle_hash: vec![1; 32],
        receiver_puzzle_hash: vec![2; 32],
        expiration_seconds: 90,
    };
    let clawback = columns.clone().decode_row().unwrap();
    assert!(clawback.public_key.is_none());
    assert_eq!(clawback.sender_puzzle_hash, [1; 32]);
    assert_eq!(clawback.receiver_puzzle_hash, [2; 32]);
    assert_eq!(clawback.seconds, 90);
    let mut bad = columns;
    bad.key = Some(vec![3; 10]);
    assert!(matches!(bad.decode_row(), Err(DatabaseError::InvalidLength(10, 48))));
}

#[test]
fn puzzle_resolution_follows_the_kind() {
    let hash = [5; 32];
    let (state, read) = start_p2_puzzle(hash, P2PuzzleKind::PublicKey);
    assert_eq!(read, P2PuzzleRead::PublicKey(hash));
    assert!(matches!(step_p2_puzzle(state, P2PuzzleAnswer::Key(Some([9; 48]))), P2PuzzleStep::Done(Ok(P2Puzzle::PublicKey(k))) if k == [9; 48]));
    assert!(matches!(step_p2_puzzle(state, P2PuzzleAnswer::Key(None)), P2PuzzleStep::Done(Err(DatabaseError::PublicKeyNotFound))));

    let (state, read) = start_p2_puzzle(hash, P2PuzzleKind::Option);
    assert_eq!(read, P2PuzzleRead::UnderlyingLauncherId(hash));
    let P2PuzzleStep::Read(state, read) = step_p2_puzzle(state, P2PuzzleAnswer::LauncherId([6; 32])) else {
        panic!("an option's launcher leads to its terms");
    };
    assert_eq!(read, P2PuzzleRead::OptionUnderlying([6; 32]));
    assert!(matches!(step_p2_puzzle(state, P2PuzzleAnswer::OptionUnderlying(None)), P2PuzzleStep::Done(Err(DatabaseError::OptionUnderlyingNotFound))));

    let (state, read) = start_p2_puzzle(hash, P2PuzzleKind::Vault);
    assert_eq!(read, P2PuzzleRead::VaultLauncherId(hash));
    assert!(matches!(step_p2_puzzle(state, P2PuzzleAnswer::LauncherId([7; 32])), P2PuzzleStep::Done(Ok(P2Puzzle::Vault(v))) if v.launcher_id == [7; 32]));
}

#[test]
fn mempool_items_need_a_valid_signature() {
    let item = MempoolItemColumns {
        hash: vec![1; 32],
        aggregated_signature: vec![0; 95],
        fee: 7u64.to_be_bytes().to_vec(),
        submitted_timestamp: None,
    };
    assert!(matches!(mempool_items_rows(vec![item.clone()]), Err(DatabaseError::InvalidLength(95, 96))));
    let mut item = item;
    item.aggregated_signature = vec![0; 96];
    assert!(matches!(mempool_items_rows(vec![item]), Err(DatabaseError::Bls(_))));
    let mut infinity = vec![0u8; 96];
    infinity[0] = 0xc0;
    let item = MempoolItemColumns {
        hash: vec![1; 32],
        aggregated_signature: infinity,
        fee: 7u64.to_be_bytes().to_vec(),
        submitted_timestamp: Some(-1),
    };
    let items = mempool_items_rows(vec![item]).unwrap();
    assert_eq!(items[0].fee, 7);
    assert_eq!(items[0].submitted_timestamp, Some(u64::MAX));
}

#[test]
fn mempool_spends_and_hashes_decode() {
    let spend = CoinSpendColumns {
        parent_coin_hash: vec![1; 32],
        puzzle_hash: vec![2; 32],
        amount: 3u64.to_be_bytes().to_vec(),
        puzzle_reveal: vec![0x80],
        solution: vec![0xff, 0x80],
    };
    let spends = mempool_coin_spends_rows(vec![spend]).unwrap();
    assert_eq!(spends[0].coin.amount, 3);
    assert_eq!(spends[0].solution, vec![0xff, 0x80]);
    let hashes = decode_hashes(vec![HashColumn { hash: vec![4; 32] }]).unwrap();
    assert_eq!(hashes, vec![[4; 32]]);
    assert!(matches!(decode_hashes(vec![HashColumn { hash: vec![4; 31] }]), Err(DatabaseError::InvalidLength(31, 32))));
}

#[test]
fn unsynced_heights_skip_missing_ones() {
    assert_eq!(unsynced_heights(vec![Some(9), None, Some(4)]).unwrap(), vec![9, 4]);
    assert_eq!(unsynced_heights(vec![None]).unwrap(), Vec::<u32>::new());
    assert!(matches!(unsynced_heights(vec![Some(1), Some(-2)]), Err(DatabaseError::PrecisionLost(_))));
}

#[test]
fn latest_peak_needs_a_header_hash() {
    assert_eq!(latest_peak_of(None).unwrap(), None);
    assert_eq!(latest_peak_of(Some((5, None))).unwrap(), None);
    assert_eq!(latest_peak_of(Some((5, Some(vec![8; 32])))).unwrap(), Some((5, [8; 32])));
    assert!(matches!(latest_peak_of(Some((5, Some(vec![8; 3])))), Err(DatabaseError::InvalidLength(3, 32))));
    assert!(matches!(latest_peak_of(Some((-5, Some(vec![8; 3])))), Err(DatabaseError::PrecisionLost(_))));
}

#[test]
fn collections_decode_with_their_total() {
    let row = CollectionColumns {
        hash: vec![1; 32],
        uuid: "c-1".to_string(),
        minter_hash: vec![2; 32],
        name: Some("Apes".to_string()),
        icon_url: None,
        banner_url: None,
        description: None,
        is_visible: true,
        total_count: 1,
    };
    let (collections, total) = collections_page(vec![row.clone()]).unwrap();
    assert_eq!(total, 1);
    assert_eq!(collections[0].uuid, "c-1");
    assert_eq!(collections[0].minter_hash, [2; 32]);
    let mut bad = row;
    bad.minter_hash = vec![2; 5];
    assert!(matches!(collections_page(vec![bad]), Err(DatabaseError::InvalidLength(5, 32))));
}

#[test]
fn files_fill_in_missing_contents() {
    let file = FileDataColumns { hash: vec![3; 32], data: None, mime_type: None, is_hash_match: None }
        .decode_row()
        .unwrap();
    assert!(file.data.is_empty());
    assert_eq!(file.mime_type, "");
    assert!(!file.is_hash_match);

    let uris = file_uris_rows(vec![FileUriColumns {
        hash: vec![3; 32],
        uri: "https://example.com/a.png".to_string(),
        last_checked_timestamp: Some(10),
        failed_attempts: 2,
    }])
    .unwrap();
    assert_eq!(uris[0].failed_attempts, 2);
    assert_eq!(uris[0].last_checked_timestamp, Some(10));
    let bad = FileUriColumns { hash: vec![3; 32], uri: String::new(), last_checked_timestamp: None, failed_attempts: -1 };
    assert!(matches!(file_uris_rows(vec![bad]), Err(DatabaseError::PrecisionLost(_))));

    let nfts = updateable_nfts_rows(vec![UpdateableNftColumns { hash: vec![4; 32], minter_hash: None }]).unwrap();
    assert_eq!(nfts[0].hash, [4; 32]);
    assert!(nfts[0].minter_hash.is_none());
}

#[test]
fn balances_add_up_the_amounts() {
    let amounts = vec![5u64.to_be_bytes().to_vec(), u64::MAX.to_be_bytes().to_vec()];
    assert_eq!(balance_of(amounts).unwrap(), 5 + u64::MAX as u128);
    assert_eq!(balance_of(Vec::new()).unwrap(), 0);
    assert!(matches!(balance_of(vec![vec![1; 8], vec![1; 7], vec![1; 2]]), Err(DatabaseError::InvalidLength(7, 8))));
}

#[test]
fn transaction_history_decodes_coins_first() {
    let columns = TransactionHistoryColumns {
        hash: vec![1; 32],
        height: 42,
        fee: 3u64.to_be_bytes().to_vec(),
        confirmed_timestamp: 1_700_000_000,
    };
    let coins = vec![
        HistoryCoinColumns { coin_id: vec![2; 32], is_input: true },
        HistoryCoinColumns { coin_id: vec![3; 32], is_input: false },
    ];
    let t = transaction_history_of(columns.clone(), coins).unwrap();
    assert_eq!(t.height, 42);
    assert_eq!(t.fee, 3);
    assert_eq!(t.confirmed_timestamp, 1_700_000_000);
    assert!(t.coins[0].is_input && !t.coins[1].is_input);

    let mut bad = columns;
    bad.height = -1;
    let bad_coin = vec![HistoryCoinColumns { coin_id: vec![2; 4], is_input: true }];
    assert!(matches!(transaction_history_of(bad.clone(), bad_coin), Err(DatabaseError::InvalidLength(4, 32))));
    assert!(matches!(transaction_history_of(bad, Vec::new()), Err(DatabaseError::PrecisionLost(_))));

    let ids = mempool_coin_ids_rows(vec![HistoryCoinColumns { coin_id: vec![5; 32], is_input: false }]).unwrap();
    assert_eq!(ids, vec![([5; 32], false)]);
}

fn coin_sql() -> CoinSql {
    CoinSql { parent_coin_id: vec![1; 32], puzzle_hash: vec![2; 32], amount: 9u64.to_be_bytes().to_vec() }
}

fn lineage_sql() -> LineageSql {
    LineageSql { parent_parent_coin_id: vec![3; 32], parent_inner_puzzle_hash: vec![4; 32], parent_amount: 1u64.to_be_bytes().to_vec() }
}

#[test]
fn owned_dids_and_cats_decode_with_their_lineage() {
    let did = OwnedDidCoinSql {
        coin: coin_sql(),
        lineage: lineage_sql(),
        launcher_id: vec![5; 32],
        recovery_list_hash: None,
        num_verifications_required: 1,
        metadata: vec![0x80],
        p2_puzzle_hash: vec![6; 32],
    };
    let decoded = did.clone().decode_row().unwrap();
    assert_eq!(decoded.coin.amount, 9);
    assert_eq!(decoded.proof.parent_amount, 1);
    assert_eq!(decoded.info.num_verifications_required, 1);
    let mut bad = did;
    bad.num_verifications_required = -1;
    bad.p2_puzzle_hash = vec![];
    assert!(matches!(bad.decode_row(), Err(DatabaseError::PrecisionLost(_))));

    let cat = OwnedCatCoinSql {
        coin: coin_sql(),
        lineage: lineage_sql(),
        asset_id: vec![7; 32],
        hidden_puzzle_hash: Some(vec![8; 32]),
        p2_puzzle_hash: vec![6; 32],
    };
    let decoded = cat.clone().decode_row().unwrap();
    assert_eq!(decoded.info.hidden_puzzle_hash, Some([8; 32]));
    assert_eq!(decoded.lineage_proof.unwrap().parent_parent_coin_info, [3; 32]);
    let mut bad = cat;
    bad.lineage.parent_amount = vec![0; 9];
    assert!(matches!(bad.decode_row(), Err(DatabaseError::InvalidLength(9, 8))));
}

#[test]
fn offered_assets_read_the_kind_after_the_hash() {
    let row = OfferedAssetColumns {
        offer_id: vec![1; 32],
        asset: asset(2, 6),
        kind: 1,
        amount: 10u64.to_be_bytes().to_vec(),
        royalty: 0u64.to_be_bytes().to_vec(),
        is_requested: true,
    };
    let assets = offer_assets_rows(vec![row.clone()]).unwrap();
    assert_eq!(assets[0].asset.kind, AssetKind::Nft);
    assert_eq!(assets[0].amount, 10);
    assert!(assets[0].is_requested);

    let mut bad = row.clone();
    bad.kind = 9;
    bad.asset.precision = 300;
    assert!(matches!(offer_assets_rows(vec![bad]), Err(DatabaseError::InvalidEnumVariant)));
    let mut bad = row;
    bad.kind = 9;
    bad.asset.hash = vec![2; 30];
    assert!(matches!(offer_assets_rows(vec![bad]), Err(DatabaseError::InvalidLength(30, 32))));
}

#[test]
fn offer_terms_decode() {
    let nft = NftOfferInfoColumns {
        metadata: vec![0x80],
        metadata_updater_puzzle_hash: vec![1; 32],
        royalty_puzzle_hash: vec![2; 32],
        royalty_basis_points: 300,
    };
    assert_eq!(nft.clone().decode_row().unwrap().royalty_basis_points, 300);
    let mut bad = nft;
    bad.royalty_basis_points = 70_000;
    assert!(matches!(bad.decode_row(), Err(DatabaseError::PrecisionLost(_))));

    let option = OptionOfferInfoColumns { underlying_coin_hash: vec![3; 32], underlying_delegated_puzzle_hash: vec![4; 31] };
    assert!(matches!(option.decode_row(), Err(DatabaseError::InvalidLength(31, 32))));
}
