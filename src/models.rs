//! The records as callers send them, as the store returns them, and as they
//! are served back.
use vstd::prelude::*;
use vstd::string::StringExecFns;
use crate::json::{Json, display_name_of_text};

verus! {

/// An instant, as microseconds since the Unix epoch (UTC).
#[derive(Clone, Copy, Debug, PartialEq, Eq, Structural, PartialOrd, Ord, Hash)]
pub struct Timestamp {
    pub micros: i64,
}

/// A request to create a record.
#[derive(Debug, PartialEq)]
pub struct FoodRecordRequest {
    pub product_id: String,
    pub metadata: Json,
    pub metadata_hash_on_chain: String,
    pub transaction_hash: String,
}

/// The values written by one insert: the request with its metadata as JSON
/// text. The store sets both timestamps.
#[derive(Clone, Debug, PartialEq, Eq)]
pub struct NewRecordRow {
    pub product_id: String,
    pub metadata_json: String,
    pub onchain_metadata_hash: String,
    pub blockchain_transaction_hash: String,
}

/// The status envelope of a response: `"success"` or `"error"`, and a short
/// message.
#[derive(Clone, Debug, PartialEq, Eq)]
pub struct GenericResponse {
    pub status: String,
    pub message: String,
}

/// One record as the list shows it.
#[derive(Clone, Debug, PartialEq, Eq)]
pub struct FoodListItem {
    pub product_id: String,
    pub product_name: Option<String>,
    pub onchain_metadata_hash: String,
    pub created_at: Timestamp,
}

/// One record as the store returns it for a detail fetch, its metadata as
/// the stored JSON text.
#[derive(Clone, Debug, PartialEq, Eq)]
pub struct FoodRecordDetail {
    pub product_id: String,
    pub metadata_json: String,
    pub onchain_metadata_hash: String,
    pub blockchain_transaction_hash: String,
    pub created_at: Timestamp,
    pub updated_at: Timestamp,
}

/// One record as a detail fetch serves it, its metadata decoded.
#[derive(Debug, PartialEq)]
pub struct FoodRecordDetailResponse {
    pub product_id: String,
    pub metadata_json: Json,
    pub onchain_metadata_hash: String,
    pub blockchain_transaction_hash: String,
    pub created_at: Timestamp,
    pub updated_at: Timestamp,
}

/// A stored record without its metadata.
#[derive(Clone, Debug, PartialEq, Eq)]
pub struct RawFoodRecord {
    pub product_id: String,
    pub onchain_metadata_hash: String,
    pub blockchain_transaction_hash: String,
    pub created_at: Timestamp,
    pub updated_at: Timestamp,
}

/// One record as the store returns it for the list, its metadata as text.
#[derive(Clone, Debug, PartialEq, Eq)]
pub struct RawFoodListItem {
    pub product_id: String,
    pub metadata_json: String,
    pub onchain_metadata_hash: String,
    pub created_at: Timestamp,
}

/// One page of the list, with the figures it was cut by.
#[derive(Clone, Debug, PartialEq, Eq)]
pub struct PaginatedFoodListResponse {
    pub items: Vec<FoodListItem>,
    pub total_items: i64,
    pub page: i64,
    pub page_size: i64,
    pub total_pages: i64,
}

/// The contents of an optional string.
pub open spec fn opt_text(o: Option<String>) -> Option<Seq<char>> {
    match o {
        Some(s) => Some(s@),
        None => None,
    }
}

/// `item` is the list view of `row`: the same id, hash and creation time,
/// and the display name of its metadata.
pub open spec fn lists_row(item: FoodListItem, row: RawFoodListItem) -> bool {
    &&& item.product_id@ == row.product_id@
    &&& opt_text(item.product_name) == display_name_of_text(row.metadata_json@)
    &&& item.onchain_metadata_hash@ == row.onchain_metadata_hash@
    &&& item.created_at == row.created_at
}

impl GenericResponse {
    /// A success envelope carrying `message`.
    pub fn success(message: String) -> (r: GenericResponse)
        ensures
            r.status@ == "success"@,
            r.message@ == message@,
    {
        GenericResponse { status: String::from_str("success"), message }
    }

    /// An error envelope carrying `message`.
    pub fn error(message: String) -> (r: GenericResponse)
        ensures
            r.status@ == "error"@,
            r.message@ == message@,
    {
        GenericResponse { status: String::from_str("error"), message }
    }
}

} // verus!
