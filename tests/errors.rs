use food_trace::error::{AppError, StoreError};

#[test]
fn status_codes() {
    assert_eq!(AppError::DatabaseError("x".to_string()).status_code(), 500);
    assert_eq!(AppError::NotFound("x".to_string()).status_code(), 404);
    assert_eq!(AppError::InvalidInput("x".to_string()).status_code(), 400);
    assert_eq!(AppError::Conflict("x".to_string()).status_code(), 409);
    assert_eq!(AppError::InternalError("x".to_string()).status_code(), 500);
}

#[test]
fn client_messages_hide_store_detail() {
    let e = AppError::DatabaseError("connection reset by peer".to_string());
    assert_eq!(e.client_message(), "数据库操作失败。");
    let r = e.error_response();
    assert_eq!(r.status, "error");
    assert_eq!(r.message, "数据库操作失败。");
    assert!(!r.message.contains("connection reset"));
    let e = AppError::Conflict("产品ID 'lot-7' 已存在。".to_string());
    assert_eq!(e.error_response().message, "产品ID 'lot-7' 已存在。");
    assert_eq!(AppError::NotFound("gone".to_string()).client_message(), "gone");
}

#[test]
fn display_text_names_the_kind() {
    assert_eq!(AppError::DatabaseError("boom".to_string()).display_text(), "Database error: boom");
    assert_eq!(AppError::NotFound("p".to_string()).display_text(), "Not Found: p");
    assert_eq!(AppError::InvalidInput("bad".to_string()).display_text(), "Invalid Input: bad");
    assert_eq!(AppError::Conflict("dup".to_string()).display_text(), "Conflict: dup");
    assert_eq!(AppError::InternalError("odd".to_string()).display_text(), "Internal Server Error: odd");
}

#[test]
fn store_failures_map_to_errors() {
    assert_eq!(
        AppError::from_store(StoreError::UniqueViolation),
        AppError::Conflict("记录已存在或违反唯一约束。".to_string())
    );
    assert_eq!(
        AppError::from_store(StoreError::RowNotFound),
        AppError::NotFound("请求的记录未找到。".to_string())
    );
    assert_eq!(
        AppError::from_store(StoreError::Other("timeout".to_string())),
        AppError::DatabaseError("timeout".to_string())
    );
}

#[test]
fn listing_and_lookup_failures_are_database_errors() {
    let e = AppError::database_error_of(StoreError::UniqueViolation);
    assert_eq!(e, AppError::DatabaseError("duplicate entry for a unique key".to_string()));
    assert_eq!(e.status_code(), 500);
    let e = AppError::database_error_of(StoreError::RowNotFound);
    assert_eq!(
        e,
        AppError::DatabaseError("no rows returned by a query that expected to return at least one row".to_string())
    );
    assert_eq!(e.status_code(), 500);
    assert_eq!(
        AppError::database_error_of(StoreError::Other("pool timed out".to_string())),
        AppError::DatabaseError("pool timed out".to_string())
    );
}
