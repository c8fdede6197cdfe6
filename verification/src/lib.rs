//! Parsing of HTTP responses from a search-engine REST API.
//!
//! The crate turns a raw response (status code plus body bytes, either fully
//! in memory or behind a single-pass reader) into either a typed success
//! value or a structured API error, reading the body at most once.

pub mod error;
pub mod json;
pub mod parsing;

pub use self::parsing::parse;
