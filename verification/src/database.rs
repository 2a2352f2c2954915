//! Query construction and row decoding for the wallet database.

pub mod assets;
pub mod blocks;
pub mod catalog;
pub mod coin_states;
pub mod collections;
pub mod coins;
pub mod dids;
pub mod files;
pub mod history;
pub mod mempool;
pub mod nft_records;
pub mod nfts;
pub mod offers;
pub mod p2_puzzles;
pub mod options;
pub mod rows;
pub mod sql;
pub mod transaction_history;
pub mod transactions;
pub mod validation;
