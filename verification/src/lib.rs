//! Verified core of the Project Portfolio plugin: request validation, the
//! portfolio's decision rules (revisions, receipts, membership order), rollups,
//! authorization sequencing, and the mapping of failures onto wire errors.

pub mod text;
pub mod dates;
pub mod config;
pub mod domain;
pub mod rollup;
pub mod reorder;
pub mod authorize;
pub mod errors;
pub mod tools;
pub mod portfolio_tools;
pub mod admin_tools;
pub mod paging;
pub mod requests;
pub mod hashing;
pub mod laws;
pub mod operations;
