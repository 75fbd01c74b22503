//! The three record operations: what each sends to the store, and what each
//! makes of the store's answer.
use vstd::prelude::*;
use vstd::string::StringExecFns;
use crate::error::{AppError, StoreError, store_error_text};
use crate::json::{Json, extract_display_name, json_text, parse_json, parsed_json, serialize_json};
use crate::models::{
    FoodListItem, FoodRecordDetail, FoodRecordDetailResponse, FoodRecordRequest, GenericResponse,
    NewRecordRow, PaginatedFoodListResponse, RawFoodListItem, lists_row,
};
use crate::pagination::{PageWindow, PaginationParams, pages_for, window_of};

verus! {

pub open spec fn created_message(id: Seq<char>) -> Seq<char> {
    "食品记录 "@ + id + " 已成功创建。"@
}

pub open spec fn nothing_written_message() -> Seq<char> {
    "创建食品记录失败，操作未修改任何数据。"@
}

pub open spec fn conflict_message(id: Seq<char>) -> Seq<char> {
    "产品ID '"@ + id + "' 已存在。"@
}

/// The start of the message for metadata that cannot be written as JSON;
/// serde_json's description of the failure follows it.
pub open spec fn invalid_metadata_prefix() -> Seq<char> {
    "JSON 解析或序列化错误: "@
}

pub open spec fn not_found_message(id: Seq<char>) -> Seq<char> {
    "未找到产品ID为 '"@ + id + "' 的食品记录。"@
}

pub open spec fn undecodable_message(id: Seq<char>) -> Seq<char> {
    "The stored metadata of product ID '"@ + id + "' is not valid JSON."@
}

/// `row` holds the fields of `req`, its metadata as the JSON text `text`.
pub open spec fn writes_request(req: FoodRecordRequest, row: NewRecordRow, text: Seq<char>) -> bool {
    &&& row.product_id@ == req.product_id@
    &&& row.metadata_json@ == text
    &&& row.onchain_metadata_hash@ == req.metadata_hash_on_chain@
    &&& row.blockchain_transaction_hash@ == req.transaction_hash@
}

/// `resp` serves the stored record `d`, its metadata decoded as `doc`.
pub open spec fn serves_record(d: FoodRecordDetail, resp: FoodRecordDetailResponse, doc: Json) -> bool {
    &&& resp.product_id@ == d.product_id@
    &&& resp.metadata_json == doc
    &&& resp.onchain_metadata_hash@ == d.onchain_metadata_hash@
    &&& resp.blockchain_transaction_hash@ == d.blockchain_transaction_hash@
    &&& resp.created_at == d.created_at
    &&& resp.updated_at == d.updated_at
}

/// `items` lists `rows`, one item per row, in the same order.
pub open spec fn lists_rows(items: Seq<FoodListItem>, rows: Seq<RawFoodListItem>) -> bool {
    &&& items.len() == rows.len()
    &&& forall|i: int| 0 <= i < rows.len() ==> lists_row(#[trigger] items[i], rows[i])
}

/// `r` is the page served for `window` over `total` records, given the rows
/// fetched for it: the window's figures, and one item per row in order, or
/// no items where there are no records.
pub open spec fn page_served(
    total: i64,
    window: PageWindow,
    rows: Seq<RawFoodListItem>,
    r: PaginatedFoodListResponse,
) -> bool {
    &&& r.total_items == total
    &&& r.page == window.page
    &&& r.page_size == window.page_size
    &&& r.total_pages == window.total_pages
    &&& total == 0 ==> r.items@.len() == 0
    &&& total != 0 ==> lists_rows(r.items@, rows)
}

/// What creating `req` hands to the store: the row of its fields with the
/// metadata as the JSON text serde_json writes for it; or, where that text
/// cannot be written, invalid input.
pub open spec fn insert_prepared(req: FoodRecordRequest, r: Result<NewRecordRow, AppError>) -> bool {
    match json_text(req.metadata) {
        Some(t) => r matches Ok(row) && writes_request(req, row, t),
        None => r matches Err(AppError::InvalidInput(m)) && invalid_metadata_prefix().is_prefix_of(
            m@,
        ),
    }
}

/// What a detail fetch for `id` serves where the store found `row`: not
/// found, naming the id, where there is none; else the record with its
/// metadata decoded back from the stored text, or a store failure where that
/// text is not JSON.
pub open spec fn detail_served(
    id: Seq<char>,
    row: Option<FoodRecordDetail>,
    r: Result<FoodRecordDetailResponse, AppError>,
) -> bool {
    match row {
        None => r matches Err(AppError::NotFound(m)) && m@ == not_found_message(id),
        Some(d) => match parsed_json(d.metadata_json@) {
            Some(j) => r matches Ok(resp) && serves_record(d, resp, j),
            None => r matches Err(AppError::DatabaseError(m)) && m@ == undecodable_message(
                d.product_id@,
            ),
        },
    }
}

/// `d` is the row the store keeps for the insert of `row`: the same fields,
/// the metadata text unchanged, and the timestamps the store set.
pub open spec fn keeps_row(row: NewRecordRow, d: FoodRecordDetail) -> bool {
    &&& d.product_id@ == row.product_id@
    &&& d.metadata_json@ == row.metadata_json@
    &&& d.onchain_metadata_hash@ == row.onchain_metadata_hash@
    &&& d.blockchain_transaction_hash@ == row.blockchain_transaction_hash@
}

/// The row to insert for a request, given the JSON text of its metadata, or
/// serde_json's description of why it could not be written, in which case the
/// request is invalid input.
pub fn insert_row(req: &FoodRecordRequest, metadata_text: Result<String, String>) -> (r: Result<
    NewRecordRow,
    AppError,
>)
    ensures
        match metadata_text {
            Ok(t) => r matches Ok(row) && writes_request(*req, row, t@),
            Err(e) => r matches Err(AppError::InvalidInput(m)) && m@ == invalid_metadata_prefix()
                + e@,
        },
{
    match metadata_text {
        Ok(t) => Ok(
            NewRecordRow {
                product_id: req.product_id.clone(),
                metadata_json: t,
                onchain_metadata_hash: req.metadata_hash_on_chain.clone(),
                blockchain_transaction_hash: req.transaction_hash.clone(),
            },
        ),
        Err(e) => {
            let message = String::from_str("JSON 解析或序列化错误: ").concat(e.as_str());
            Err(AppError::InvalidInput(message))
        },
    }
}

/// The row that creating `req` inserts: its fields, with the metadata as the
/// JSON text serde_json writes for it. Where that text cannot be written
/// the request is invalid input, and nothing is to be inserted.
pub fn prepare_insert(req: &FoodRecordRequest) -> (r: Result<NewRecordRow, AppError>)
    ensures
        insert_prepared(*req, r),
{
    let text = serialize_json(&req.metadata);
    proof {
        assert forall|e: Seq<char>| #[trigger]
            invalid_metadata_prefix().is_prefix_of(invalid_metadata_prefix() + e) by {
            let p = invalid_metadata_prefix();
            assert((p + e).subrange(0, p.len() as int) =~= p);
        }
    }
    insert_row(req, text)
}

/// What a create reports, given the store's answer to the insert for
/// `product_id`: success naming the id where a row was written; an internal
/// error where the insert succeeded but wrote nothing; a conflict naming the
/// id where the id was taken; a store failure otherwise.
pub fn create_outcome(product_id: &str, outcome: Result<u64, StoreError>) -> (r: Result<
    GenericResponse,
    AppError,
>)
    ensures
        match outcome {
            Ok(n) => if n > 0 {
                r matches Ok(resp) && resp.status@ == "success"@ && resp.message@
                    == created_message(product_id@)
            } else {
                r matches Err(AppError::InternalError(m)) && m@ == nothing_written_message()
            },
            Err(StoreError::UniqueViolation) => r matches Err(AppError::Conflict(m)) && m@
                == conflict_message(product_id@),
            Err(f) => r matches Err(AppError::DatabaseError(m)) && m@ == store_error_text(f),
        },
{
    match outcome {
        Ok(n) => {
            if n > 0 {
                let message = String::from_str("食品记录 ").concat(product_id).concat(
                    " 已成功创建。",
                );
                Ok(GenericResponse::success(message))
            } else {
                Err(
                    AppError::InternalError(
                        String::from_str("创建食品记录失败，操作未修改任何数据。"),
                    ),
                )
            }
        },
        Err(StoreError::UniqueViolation) => {
            let message = String::from_str("产品ID '").concat(product_id).concat(
                "' 已存在。",
            );
            Err(AppError::Conflict(message))
        },
        Err(f) => Err(AppError::database_error_of(f)),
    }
}

/// The list view of one stored row: its metadata reduced to a display name.
pub fn list_item(row: &RawFoodListItem) -> (r: FoodListItem)
    ensures
        lists_row(r, *row),
{
    let product_name = extract_display_name(row.metadata_json.as_str());
    FoodListItem {
        product_id: row.product_id.clone(),
        product_name,
        onchain_metadata_hash: row.onchain_metadata_hash.clone(),
        created_at: row.created_at,
    }
}

/// The page served for `window` over `total_items` records, given the rows
/// the store returned for it, newest first. Each row becomes one item, in
/// the same order, its metadata reduced to a display name; a row whose
/// metadata is not JSON only lacks a name. Where there are no records the
/// page is empty whatever rows are given.
pub fn list_response(total_items: i64, window: &PageWindow, rows: &Vec<RawFoodListItem>) -> (r:
    PaginatedFoodListResponse)
    ensures
        page_served(total_items, *window, rows@, r),
{
    let mut items: Vec<FoodListItem> = Vec::new();
    if total_items != 0 {
        let mut i: usize = 0;
        while i < rows.len()
            invariant
                i <= rows@.len(),
                lists_rows(items@, rows@.subrange(0, i as int)),
            decreases rows@.len() - i,
        {
            let item = list_item(&rows[i]);
            items.push(item);
            i = i + 1;
        }
        assert(rows@.subrange(0, rows@.len() as int) =~= rows@);
    }
    PaginatedFoodListResponse {
        items,
        total_items,
        page: window.page,
        page_size: window.page_size,
        total_pages: window.total_pages,
    }
}

/// The detail served for a stored record, given its metadata as decoded,
/// or `None` where the stored text is not JSON: a store failure naming the id.
pub fn decoded_detail(d: FoodRecordDetail, doc: Option<Json>) -> (r: Result<
    FoodRecordDetailResponse,
    AppError,
>)
    ensures
        match doc {
            Some(j) => r matches Ok(resp) && serves_record(d, resp, j),
            None => r matches Err(AppError::DatabaseError(m)) && m@ == undecodable_message(
                d.product_id@,
            ),
        },
{
    match doc {
        Some(j) => Ok(
            FoodRecordDetailResponse {
                product_id: d.product_id,
                metadata_json: j,
                onchain_metadata_hash: d.onchain_metadata_hash,
                blockchain_transaction_hash: d.blockchain_transaction_hash,
                created_at: d.created_at,
                updated_at: d.updated_at,
            },
        ),
        None => {
            let message = String::from_str("The stored metadata of product ID '").concat(
                d.product_id.as_str(),
            ).concat("' is not valid JSON.");
            Err(AppError::DatabaseError(message))
        },
    }
}

/// What a detail fetch for `product_id` serves, given the row the store
/// found under it: not found, naming the id, where there is none; else the
/// record with its metadata decoded back from the stored text, or a store
/// failure where that text is not JSON.
pub fn detail_outcome(product_id: &str, row: Option<FoodRecordDetail>) -> (r: Result<
    FoodRecordDetailResponse,
    AppError,
>)
    ensures
        detail_served(product_id@, row, r),
{
    match row {
        None => {
            let message = String::from_str("未找到产品ID为 '").concat(
                product_id,
            ).concat("' 的食品记录。");
            Err(AppError::NotFound(message))
        },
        Some(d) => {
            let doc = parse_json(d.metadata_json.as_str());
            decoded_detail(d, doc)
        },
    }
}

/// A record fetched after it was created serves the id and hashes of the
/// request, and its metadata round-tripped: the document serde_json reads
/// back from the text it wrote for the request's metadata. A fetch of an id
/// the store has no row for is not found.
pub proof fn detail_after_create(
    req: FoodRecordRequest,
    row: NewRecordRow,
    d: FoodRecordDetail,
    r: Result<FoodRecordDetailResponse, AppError>,
    missing: Result<FoodRecordDetailResponse, AppError>,
)
    requires
        insert_prepared(req, Ok(row)),
        keeps_row(row, d),
        detail_served(req.product_id@, Some(d), r),
        detail_served(req.product_id@, None, missing),
    ensures
        json_text(req.metadata) is Some,
        r is Ok <==> parsed_json(json_text(req.metadata)->0) is Some,
        r matches Ok(resp) ==> {
            &&& resp.product_id@ == req.product_id@
            &&& parsed_json(json_text(req.metadata)->0) == Some(resp.metadata_json)
            &&& resp.onchain_metadata_hash@ == req.metadata_hash_on_chain@
            &&& resp.blockchain_transaction_hash@ == req.transaction_hash@
            &&& resp.created_at == d.created_at
            &&& resp.updated_at == d.updated_at
        },
        missing matches Err(AppError::NotFound(m)) && m@ == not_found_message(req.product_id@),
{
}

/// Rows the store returns newest first give a page whose items are newest
/// first: a page keeps the order of its rows.
pub proof fn page_keeps_recency_order(items: Seq<FoodListItem>, rows: Seq<RawFoodListItem>)
    requires
        lists_rows(items, rows),
        forall|i: int, j: int|
            0 <= i < j < rows.len() ==> #[trigger] rows[j].created_at.micros
                < #[trigger] rows[i].created_at.micros,
    ensures
        forall|i: int, j: int|
            0 <= i < j < items.len() ==> #[trigger] items[j].created_at.micros
                < #[trigger] items[i].created_at.micros,
{
    assert forall|i: int, j: int| 0 <= i < j < items.len() implies #[trigger] items[j].created_at.micros
        < #[trigger] items[i].created_at.micros by {
        assert(lists_row(items[i], rows[i]));
        assert(lists_row(items[j], rows[j]));
    }
}

/// Over an empty store every request, whatever its page and size, is
/// served an empty page with no pages counted, and no rows are fetched for
/// it.
pub proof fn empty_store_serves_empty_page(
    params: PaginationParams,
    window: PageWindow,
    rows: Seq<RawFoodListItem>,
    r: PaginatedFoodListResponse,
)
    requires
        window_of(0, params, window),
        page_served(0, window, rows, r),
    ensures
        !window.fetch_rows,
        r.total_items == 0,
        r.total_pages == 0,
        r.items@.len() == 0,
{
    assert(pages_for(0, window.page_size as int) == 0) by (nonlinear_arith)
        requires window.page_size >= 1;
}

} // verus!
