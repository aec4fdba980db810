//! The options of requests, and how they become query parameters.

pub mod cdelim;
pub mod create;
pub mod get;
pub mod metadata;
pub mod query;
pub mod search;
pub mod validate;
