//! Food traceability records: the rules for creating, listing and reading
//! them, apart from the store that keeps them.
pub mod json;
pub mod pagination;
pub mod models;
pub mod error;
pub mod service;
