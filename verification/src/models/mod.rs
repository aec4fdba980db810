//! The typed shapes of the API's responses.

pub mod common;
pub mod cow;
pub mod create;
pub mod empty;
pub mod issue;
pub mod metadata;
pub mod search;
pub mod smol_cow;
