//! Files of NFT data the wallet downloads: their URIs, contents and resized
//! images, and the statistics of database maintenance.

use vstd::prelude::*;

use crate::convert::Convert;
use crate::database::coins::{
    length_error, opt_bytes_column, opt_hash, opt_hash_ok, opt_int, opt_length_error, opt_u64_int,
    opt_u64_ok,
};
use crate::database::sql::{decode_rows, first_row_error, RowColumns};
use crate::error::DatabaseError;

verus! {

/// A URI of a file the wallet may download, with how its last attempts went.
#[derive(Debug, Clone)]
pub struct FileUri {
    pub hash: [u8; 32],
    pub uri: String,
    pub last_checked_timestamp: Option<u64>,
    pub failed_attempts: u32,
}

/// An NFT whose metadata may be refreshed.
#[derive(Debug, Clone, Copy)]
pub struct UpdateableNft {
    pub hash: [u8; 32],
    pub minter_hash: Option<[u8; 32]>,
}

/// The size an image is resized to; stored as its index.
#[derive(Debug, Clone, Copy, PartialEq, Eq, Structural, Hash)]
pub enum ResizedImageKind {
    Icon,
    Thumbnail,
}

impl ResizedImageKind {
    /// The number this kind is stored as: 0 for an icon, 1 for a thumbnail.
    pub fn index(self) -> (r: i64)
        ensures
            r == (match self {
                ResizedImageKind::Icon => 0i64,
                ResizedImageKind::Thumbnail => 1i64,
            }),
    {
        match self {
            ResizedImageKind::Icon => 0,
            ResizedImageKind::Thumbnail => 1,
        }
    }
}

/// A downloaded file: its hash, contents, MIME type, and whether the
/// contents hash to the hash they were fetched for.
#[derive(Debug, Clone)]
pub struct FileData {
    pub hash: [u8; 32],
    pub data: Vec<u8>,
    pub mime_type: String,
    pub is_hash_match: bool,
}

/// A resized image and its MIME type.
#[derive(Debug, Clone)]
pub struct ResizedImage {
    pub data: Vec<u8>,
    pub mime_type: Option<String>,
}

/// How long each step of database maintenance took, in milliseconds, and
/// how many pages vacuuming freed and the WAL checkpoint wrote.
#[derive(Debug, Clone, Copy)]
pub struct MaintenanceStats {
    pub vacuum_duration_ms: u64,
    pub analyze_duration_ms: u64,
    pub wal_checkpoint_duration_ms: u64,
    pub total_duration_ms: u64,
    pub pages_vacuumed: i64,
    pub wal_pages_checkpointed: i64,
}

/// The stored columns of a file URI.
#[derive(Debug, Clone)]
pub struct FileUriColumns {
    pub hash: Vec<u8>,
    pub uri: String,
    pub last_checked_timestamp: Option<i64>,
    pub failed_attempts: i64,
}

impl RowColumns for FileUriColumns {
    type Row = FileUri;

    /// The hash has 32 bytes, the timestamp is not negative, the attempts fit
    /// 32 unsigned bits.
    open spec fn decodable(&self) -> bool {
        &&& self.hash@.len() == 32
        &&& opt_u64_ok(self.last_checked_timestamp)
        &&& 0 <= self.failed_attempts <= u32::MAX
    }

    open spec fn decodes_to(&self, file: FileUri) -> bool {
        &&& file.hash@ == self.hash@
        &&& file.uri@ == self.uri@
        &&& opt_u64_int(file.last_checked_timestamp) == opt_int(self.last_checked_timestamp)
        &&& file.failed_attempts == self.failed_attempts
    }

    /// `e` is the error of the first column, in the order listed, that does
    /// not convert.
    open spec fn decode_error(&self, e: DatabaseError) -> bool {
        if self.hash@.len() != 32 {
            e == length_error(self.hash@, 32)
        } else {
            e is PrecisionLost
        }
    }

    fn decode_row(self) -> (r: Result<FileUri, DatabaseError>) {
        let hash: [u8; 32] = match self.hash.convert() {
            Ok(v) => v,
            Err(e) => return Err(e),
        };
        let last_checked_timestamp: Option<u64> = match self.last_checked_timestamp.convert() {
            Ok(v) => v,
            Err(e) => return Err(e),
        };
        let failed_attempts: u32 = match self.failed_attempts.convert() {
            Ok(v) => v,
            Err(e) => return Err(e),
        };
        Ok(FileUri { hash, uri: self.uri, last_checked_timestamp, failed_attempts })
    }
}

/// Decodes the URIs that are due for a download; fails with the error of the
/// first row that does not decode.
pub fn file_uris_rows(rows: Vec<FileUriColumns>) -> (r: Result<Vec<FileUri>, DatabaseError>)
    ensures
        r is Ok <==> forall|i: int| 0 <= i < rows@.len() ==> #[trigger] rows@[i].decodable(),
        r matches Ok(uris) ==> uris@.len() == rows@.len() && forall|i: int|
            0 <= i < rows@.len() ==> #[trigger] rows@[i].decodes_to(uris@[i]),
        r matches Err(e) ==> first_row_error(rows@, e),
{
    decode_rows(rows)
}

/// The stored columns of a file; the contents, MIME type and hash check are
/// missing until the file is downloaded.
#[derive(Debug, Clone)]
pub struct FileDataColumns {
    pub hash: Vec<u8>,
    pub data: Option<Vec<u8>>,
    pub mime_type: Option<String>,
    pub is_hash_match: Option<bool>,
}

impl RowColumns for FileDataColumns {
    type Row = FileData;

    open spec fn decodable(&self) -> bool {
        self.hash@.len() == 32
    }

    /// Missing contents are empty, a missing MIME type is empty, a missing
    /// hash check is false.
    open spec fn decodes_to(&self, file: FileData) -> bool {
        &&& file.hash@ == self.hash@
        &&& file.data@ == match self.data {
            Some(d) => d@,
            None => Seq::<u8>::empty(),
        }
        &&& file.mime_type@ == match self.mime_type {
            Some(m) => m@,
            None => Seq::<char>::empty(),
        }
        &&& file.is_hash_match == (self.is_hash_match == Some(true))
    }

    open spec fn decode_error(&self, e: DatabaseError) -> bool {
        e == length_error(self.hash@, 32)
    }

    fn decode_row(self) -> (r: Result<FileData, DatabaseError>) {
        let hash: [u8; 32] = match self.hash.convert() {
            Ok(v) => v,
            Err(e) => return Err(e),
        };
        let data = match self.data {
            Some(d) => d,
            None => Vec::new(),
        };
        let mime_type = match self.mime_type {
            Some(m) => m,
            None => String::new(),
        };
        let is_hash_match = match self.is_hash_match {
            Some(b) => b,
            None => false,
        };
        Ok(FileData { hash, data, mime_type, is_hash_match })
    }
}

/// The stored columns of an NFT whose metadata may be refreshed.
#[derive(Debug, Clone)]
pub struct UpdateableNftColumns {
    pub hash: Vec<u8>,
    pub minter_hash: Option<Vec<u8>>,
}

impl RowColumns for UpdateableNftColumns {
    type Row = UpdateableNft;

    open spec fn decodable(&self) -> bool {
        &&& self.hash@.len() == 32
        &&& opt_hash_ok(self.minter_hash)
    }

    open spec fn decodes_to(&self, nft: UpdateableNft) -> bool {
        &&& nft.hash@ == self.hash@
        &&& opt_hash(nft.minter_hash) == opt_bytes_column(self.minter_hash)
    }

    /// `e` is the error of the first hash, in the order listed, that has not
    /// 32 bytes.
    open spec fn decode_error(&self, e: DatabaseError) -> bool {
        if self.hash@.len() != 32 {
            e == length_error(self.hash@, 32)
        } else {
            opt_length_error(self.minter_hash, e)
        }
    }

    fn decode_row(self) -> (r: Result<UpdateableNft, DatabaseError>) {
        let hash: [u8; 32] = match self.hash.convert() {
            Ok(v) => v,
            Err(e) => return Err(e),
        };
        let minter_hash: Option<[u8; 32]> = match self.minter_hash.convert() {
            Ok(v) => v,
            Err(e) => return Err(e),
        };
        Ok(UpdateableNft { hash, minter_hash })
    }
}

/// Decodes the NFTs with a given metadata hash; fails with the error of the
/// first row that does not decode.
pub fn updateable_nfts_rows(rows: Vec<UpdateableNftColumns>) -> (r: Result<Vec<UpdateableNft>, DatabaseError>)
    ensures
        r is Ok <==> forall|i: int| 0 <= i < rows@.len() ==> #[trigger] rows@[i].decodable(),
        r matches Ok(nfts) ==> nfts@.len() == rows@.len() && forall|i: int|
            0 <= i < rows@.len() ==> #[trigger] rows@[i].decodes_to(nfts@[i]),
        r matches Err(e) ==> first_row_error(rows@, e),
{
    decode_rows(rows)
}

} // verus!
