//! NFT collections as the wallet lists them, and the decoding of their
//! stored columns.

use vstd::prelude::*;

use crate::convert::Convert;
use crate::database::assets::opt_text;
use crate::database::coins::length_error;
use crate::database::sql::{decode_rows, first_row_error, page_total, RowColumns};
use crate::error::DatabaseError;

verus! {

/// An NFT collection: its hash, its id in the NFTs' metadata, the DID that
/// minted it, what it shows, and whether it is visible.
#[derive(Debug, Clone)]
pub struct CollectionRow {
    pub hash: [u8; 32],
    pub uuid: String,
    pub minter_hash: [u8; 32],
    pub name: Option<String>,
    pub icon_url: Option<String>,
    pub banner_url: Option<String>,
    pub description: Option<String>,
    pub is_visible: bool,
}

/// The stored columns of a collection, with the total count of its listing
/// (zero where it is looked up alone).
#[derive(Debug, Clone)]
pub struct CollectionColumns {
    pub hash: Vec<u8>,
    pub uuid: String,
    pub minter_hash: Vec<u8>,
    pub name: Option<String>,
    pub icon_url: Option<String>,
    pub banner_url: Option<String>,
    pub description: Option<String>,
    pub is_visible: bool,
    pub total_count: i64,
}

impl RowColumns for CollectionColumns {
    type Row = CollectionRow;

    /// Both hashes have 32 bytes.
    open spec fn decodable(&self) -> bool {
        &&& self.hash@.len() == 32
        &&& self.minter_hash@.len() == 32
    }

    open spec fn decodes_to(&self, row: CollectionRow) -> bool {
        &&& row.hash@ == self.hash@
        &&& row.uuid@ == self.uuid@
        &&& row.minter_hash@ == self.minter_hash@
        &&& opt_text(row.name) == opt_text(self.name)
        &&& opt_text(row.icon_url) == opt_text(self.icon_url)
        &&& opt_text(row.banner_url) == opt_text(self.banner_url)
        &&& opt_text(row.description) == opt_text(self.description)
        &&& row.is_visible == self.is_visible
    }

    /// `e` is the error of the first hash, in the order listed, that has not
    /// 32 bytes.
    open spec fn decode_error(&self, e: DatabaseError) -> bool {
        if self.hash@.len() != 32 {
            e == length_error(self.hash@, 32)
        } else {
            e == length_error(self.minter_hash@, 32)
        }
    }

    fn decode_row(self) -> (r: Result<CollectionRow, DatabaseError>) {
        let hash: [u8; 32] = match self.hash.convert() {
            Ok(v) => v,
            Err(e) => return Err(e),
        };
        let minter_hash: [u8; 32] = match self.minter_hash.convert() {
            Ok(v) => v,
            Err(e) => return Err(e),
        };
        Ok(CollectionRow {
            hash,
            uuid: self.uuid,
            minter_hash,
            name: self.name,
            icon_url: self.icon_url,
            banner_url: self.banner_url,
            description: self.description,
            is_visible: self.is_visible,
        })
    }
}

/// Decodes a page of collections: the rows, and the total count of listed
/// collections that the first row carries (zero for an empty page).
pub fn collections_page(rows: Vec<CollectionColumns>) -> (r: Result<(Vec<CollectionRow>, u32), DatabaseError>)
    ensures
        r is Ok <==> (rows@.len() > 0 ==> 0 <= rows@[0].total_count <= u32::MAX) && forall|i: int|
            0 <= i < rows@.len() ==> #[trigger] rows@[i].decodable(),
        r matches Ok((collections, total)) ==> {
            &&& total == (if rows@.len() == 0 { 0 } else { rows@[0].total_count as int })
            &&& collections@.len() == rows@.len()
            &&& forall|i: int| 0 <= i < rows@.len() ==> #[trigger] rows@[i].decodes_to(collections@[i])
        },
        r matches Err(e) ==> if rows@.len() > 0 && !(0 <= rows@[0].total_count <= u32::MAX) {
            e is PrecisionLost
        } else {
            first_row_error(rows@, e)
        },
{
    let first = if rows.len() > 0 {
        Some(rows[0].total_count)
    } else {
        None
    };
    let total = match page_total(first) {
        Ok(t) => t,
        Err(e) => return Err(e),
    };
    match decode_rows(rows) {
        Ok(collections) => Ok((collections, total)),
        Err(e) => Err(e),
    }
}

} // verus!
