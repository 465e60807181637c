//! Exporting conversation history from chat platforms into JSON archives.
//!
//! The library holds the crawl engine's decisions: how a target's history is
//! paged, when a crawl stops, how rate limits are absorbed, how many crawls
//! may fetch at once, when a batch fails, and how artifacts are named.

pub mod batch;
pub mod config;
pub mod crawl;
pub mod discord;
pub mod error;
pub mod governor;
pub mod headers;
pub mod input;
pub mod outside;
pub mod peer;
pub mod persist;
pub mod telegram;
pub mod text;
