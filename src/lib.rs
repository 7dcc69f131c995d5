//! Finds pull requests opened by a dependency-update bot in a user's
//! repositories and decides which of them to merge.
//!
//! The library holds the decisions: which titles qualify, which requests to
//! send, when a paginated walk ends. Sending the requests is left to the caller.
pub mod model;
pub mod title;
pub mod request;
pub mod paging;
pub mod scan;
