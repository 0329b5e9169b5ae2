//! A verified content-ingestion pipeline engine.
//!
//! Entries fetched from heterogeneous sources are deduplicated against a
//! per-task read ledger, run through a configurable chain of transforming and
//! filtering steps, and prepared for delivery to outbound channels.  The
//! data model, the dedup strategies, the action chain with its field
//! merge-fallback rule, the HTML and JSON extraction engines, the delivery
//! retry logic and the token lifecycle are all specified by contracts and
//! verified.

pub mod action;
pub mod auth;
pub mod config;
pub mod email;
pub mod entry;
pub mod exec;
pub mod file;
pub mod html;
pub mod http;
pub mod json;
pub mod read_filter;
pub mod rss;
pub mod sink;
pub mod source;
pub mod task;
pub mod telegram;
pub mod text;
pub mod twitter;
