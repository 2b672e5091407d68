//! Verified core of a GitHub pull-request helper: repository remote parsing,
//! credential selection, review-thread paging and shaping, and quota reports.
pub mod text;
pub mod remote;
pub mod auth;
pub mod threads;
pub mod graphql;
pub mod quota;
