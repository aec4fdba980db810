//! Client-side decoding layer for a Jira-style issue tracker API.
//!
//! A response body is kept as one owned byte buffer; the typed values
//! decoded from it hold positions into that buffer rather than borrows.
//! JSON values are delimited and decoded by `serde_json`; everything the
//! library decides on top of that is verified.

pub mod cli;
pub mod client;
pub mod decode;
pub mod error;
pub mod id;
pub mod json;
pub mod models;
pub mod options;
pub mod object;
pub mod pointer;
pub mod text;
