//! Workflow engine for publishing and retrieving content on a
//! content-addressed, pay-per-write storage network.
//!
//! The crate holds the decisions of the three commands (upload, archive,
//! download): parsing content addresses, the bounded retry discipline around
//! remote writes, the verification of an upload, the shape of an archive and
//! the bookkeeping of an archive download. Network and file access are left to
//! the caller, which performs the actions these machines ask for and reports
//! back what happened.

pub mod address;
pub mod archive;
pub mod download;
pub mod hex_text;
pub mod paths;
pub mod prompt;
pub mod retry;
pub mod upload;
pub mod verification;
