//! The errors the record operations report, and what callers are shown.
use vstd::prelude::*;
use vstd::string::StringExecFns;
use crate::models::GenericResponse;

verus! {

/// How the store reports a failed statement.
#[derive(Clone, Debug, PartialEq, Eq)]
pub enum StoreError {
    /// A statement that needed a row found none.
    RowNotFound,
    /// An insert broke the uniqueness of the product id.
    UniqueViolation,
    /// Any other failure, with the store's description of it.
    Other(String),
}

/// The closed set of errors the record operations report.
#[derive(Clone, Debug, PartialEq, Eq)]
pub enum AppError {
    /// The store failed; the text is for diagnostics only.
    DatabaseError(String),
    NotFound(String),
    InvalidInput(String),
    Conflict(String),
    InternalError(String),
}

/// The message shown for a store failure, whose detail stays internal.
pub open spec fn database_failure_message() -> Seq<char> {
    "数据库操作失败。"@
}

pub open spec fn unique_violation_message() -> Seq<char> {
    "记录已存在或违反唯一约束。"@
}

pub open spec fn row_not_found_message() -> Seq<char> {
    "请求的记录未找到。"@
}

/// The diagnostic text of a store failure.
pub open spec fn store_error_text(f: StoreError) -> Seq<char> {
    match f {
        StoreError::RowNotFound => "no rows returned by a query that expected to return at least one row"@,
        StoreError::UniqueViolation => "duplicate entry for a unique key"@,
        StoreError::Other(m) => m@,
    }
}

/// The HTTP status of each error.
pub open spec fn status_of(e: AppError) -> u16 {
    match e {
        AppError::DatabaseError(_) => 500,
        AppError::NotFound(_) => 404,
        AppError::InvalidInput(_) => 400,
        AppError::Conflict(_) => 409,
        AppError::InternalError(_) => 500,
    }
}

/// The message a caller is shown: fixed for a store failure, the error's own
/// otherwise.
pub open spec fn client_message_of(e: AppError) -> Seq<char> {
    match e {
        AppError::DatabaseError(_) => database_failure_message(),
        AppError::NotFound(m) => m@,
        AppError::InvalidInput(m) => m@,
        AppError::Conflict(m) => m@,
        AppError::InternalError(m) => m@,
    }
}

/// The full text of an error, for diagnostics: its kind followed by its message.
pub open spec fn display_of(e: AppError) -> Seq<char> {
    match e {
        AppError::DatabaseError(m) => "Database error: "@ + m@,
        AppError::NotFound(m) => "Not Found: "@ + m@,
        AppError::InvalidInput(m) => "Invalid Input: "@ + m@,
        AppError::Conflict(m) => "Conflict: "@ + m@,
        AppError::InternalError(m) => "Internal Server Error: "@ + m@,
    }
}

impl AppError {
    /// The HTTP status this error is served with.
    pub fn status_code(&self) -> (r: u16)
        ensures
            r == status_of(*self),
    {
        match self {
            AppError::DatabaseError(_) => 500,
            AppError::NotFound(_) => 404,
            AppError::InvalidInput(_) => 400,
            AppError::Conflict(_) => 409,
            AppError::InternalError(_) => 500,
        }
    }

    /// The message a caller is shown; a store failure's detail is withheld.
    pub fn client_message(&self) -> (r: String)
        ensures
            r@ == client_message_of(*self),
    {
        match self {
            AppError::DatabaseError(_) => String::from_str("数据库操作失败。"),
            AppError::NotFound(m) => m.clone(),
            AppError::InvalidInput(m) => m.clone(),
            AppError::Conflict(m) => m.clone(),
            AppError::InternalError(m) => m.clone(),
        }
    }

    /// The full text of the error, for diagnostics.
    pub fn display_text(&self) -> (r: String)
        ensures
            r@ == display_of(*self),
    {
        match self {
            AppError::DatabaseError(m) => String::from_str("Database error: ").concat(m.as_str()),
            AppError::NotFound(m) => String::from_str("Not Found: ").concat(m.as_str()),
            AppError::InvalidInput(m) => String::from_str("Invalid Input: ").concat(m.as_str()),
            AppError::Conflict(m) => String::from_str("Conflict: ").concat(m.as_str()),
            AppError::InternalError(m) => String::from_str("Internal Server Error: ").concat(
                m.as_str(),
            ),
        }
    }

    /// The error envelope served for this error.
    pub fn error_response(&self) -> (r: GenericResponse)
        ensures
            r.status@ == "error"@,
            r.message@ == client_message_of(*self),
    {
        GenericResponse::error(self.client_message())
    }

    /// The error a store failure becomes where no kind of failure has a
    /// meaning of its own to the operation, as when counting, listing or
    /// looking up records: always a store failure, carrying its text.
    pub fn database_error_of(f: StoreError) -> (r: AppError)
        ensures
            r matches AppError::DatabaseError(m) && m@ == store_error_text(f),
    {
        match f {
            StoreError::RowNotFound => AppError::DatabaseError(
                String::from_str("no rows returned by a query that expected to return at least one row"),
            ),
            StoreError::UniqueViolation => AppError::DatabaseError(
                String::from_str("duplicate entry for a unique key"),
            ),
            StoreError::Other(m) => AppError::DatabaseError(m),
        }
    }

    /// The error a store failure becomes where nothing more is known of the
    /// statement: a broken uniqueness is a conflict, a missing row is not
    /// found, anything else a store failure.
    pub fn from_store(f: StoreError) -> (r: AppError)
        ensures
            match f {
                StoreError::RowNotFound => r matches AppError::NotFound(m) && m@
                    == row_not_found_message(),
                StoreError::UniqueViolation => r matches AppError::Conflict(m) && m@
                    == unique_violation_message(),
                StoreError::Other(m) => r == AppError::DatabaseError(m),
            },
    {
        match f {
            StoreError::RowNotFound => AppError::NotFound(
                String::from_str("请求的记录未找到。"),
            ),
            StoreError::UniqueViolation => AppError::Conflict(
                String::from_str("记录已存在或违反唯一约束。"),
            ),
            StoreError::Other(m) => AppError::DatabaseError(m),
        }
    }
}

} // verus!
