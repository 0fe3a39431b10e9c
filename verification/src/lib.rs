//! Feed ingestion and interest matching: filters, episode heuristics,
//! seen-item ledgers, backoff, and the pending-match queue.

pub mod backoff;
pub mod config;
pub mod device;
pub mod engine;
pub mod episodes;
pub mod errors;
pub mod feed;
pub mod filters;
pub mod i18n;
pub mod idempotence;
pub mod ledger;
pub mod lifecycle;
pub mod media_info;
pub mod models;
pub mod outside;
pub mod patterns;
pub mod scheduler;
pub mod scraper;
pub mod subtitles;
pub mod text;
