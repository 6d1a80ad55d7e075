//! Verified core of an incremental public-feed crawler.
//!
//! The crate holds the logic of the crawl pipeline: extraction of the
//! visitor-session payload from its callback wrapper, structured extraction
//! of posts and media descriptors from a feed response, timestamp parsing
//! and formatting, derivation of media file names, and the watermark-based
//! planning of one poll cycle. Network and file effects live outside the
//! library and hand it plain values.

pub mod crawl;
pub mod download;
pub mod error;
pub mod feed;
pub mod json;
pub mod models;
pub mod text;
pub mod time;
pub mod visitor;
