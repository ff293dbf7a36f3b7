//! A client for a hosted backend with three areas: accounts and sessions,
//! tables behind a filter builder, and buckets of stored objects.
//!
//! The library decides what each call sends and what a reply means. A request
//! is a plain [`client::HttpRequest`]; whoever owns the connection sends it and
//! hands back the status and the text that came.

pub mod auth;
pub mod client;
pub mod json;
pub mod query;
pub mod storage;
pub mod text;
pub mod utils;
