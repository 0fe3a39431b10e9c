//! Sources, interests, filters, feed items and pending matches.

use vstd::prelude::*;
use vstd::string::*;

verus! {

/// A feed endpoint to poll. A `url` that holds `{search}` is fetched once per
/// interest, with the interest's search term substituted.
#[derive(Debug, Clone)]
pub struct Source {
    pub id: String,
    pub name: String,
    pub url: String,
    pub enabled: bool,
    pub check_interval_minutes: Option<u32>,
    pub last_checked: Option<String>,
    pub next_check_at: Option<String>,
    pub etag: Option<String>,
    pub last_modified: Option<String>,
    pub failure_count: u32,
    pub retry_after: Option<String>,
    pub use_guid_dedup: bool,
}

/// A named rule-set matched against the items of every source.
#[derive(Debug, Clone)]
pub struct Interest {
    pub id: String,
    pub name: String,
    pub enabled: bool,
    pub filters: Vec<FeedFilter>,
    pub filter_logic: FilterLogic,
    pub search_term: Option<String>,
    pub smart_episode_filter: bool,
    pub download_path: Option<String>,
}

/// How the enabled filters of an interest combine.
#[derive(Debug, Clone, Copy, PartialEq, Eq, Structural)]
pub enum FilterLogic {
    And,
    Or,
}

impl Default for FilterLogic {
    fn default() -> (r: Self)
        ensures
            r == FilterLogic::And,
    {
        FilterLogic::And
    }
}

/// A feed with its own filters, as stored before sources and interests were
/// split.
#[derive(Debug, Clone)]
pub struct RssFeed {
    pub id: String,
    pub name: String,
    pub url: String,
    pub enabled: bool,
    pub check_interval_minutes: u32,
    pub filters: Vec<FeedFilter>,
    pub last_checked: Option<String>,
}

/// One condition on an item.
#[derive(Debug, Clone)]
pub struct FeedFilter {
    pub filter_type: FilterType,
    pub value: String,
    pub enabled: bool,
}

/// The kinds of condition a filter can state.
#[derive(Debug, Clone, Copy, PartialEq, Eq, Structural)]
pub enum FilterType {
    MustContain,
    MustNotContain,
    Regex,
    Wildcard,
    SizeRange,
}

/// A feed entry as shown in a feed's history.
#[derive(Debug, Clone)]
pub struct FeedItem {
    pub id: String,
    pub feed_id: String,
    pub title: String,
    pub magnet_uri: Option<String>,
    pub torrent_url: Option<String>,
    pub size: Option<u64>,
    pub published_date: Option<String>,
    pub status: FeedItemStatus,
    pub matched_filter: Option<String>,
    pub torrent_id: Option<i64>,
}

/// What became of a feed entry.
#[derive(Debug, Clone, Copy, PartialEq, Eq, Structural)]
pub enum FeedItemStatus {
    Pending,
    Downloaded,
    Skipped,
}

/// The outcome of trying a filter set against a feed without queueing anything.
#[derive(Debug, Clone)]
pub struct FeedTestResult {
    pub items: Vec<FeedTestItem>,
    pub total_count: usize,
    pub matched_count: usize,
}

/// One item of a trial run, with what the filters say of it.
#[derive(Debug, Clone)]
pub struct FeedTestItem {
    pub title: String,
    pub matches: bool,
    pub matched_filter: Option<String>,
    pub size: Option<u64>,
}

/// A match that waits for the user's approval.
#[derive(Debug, Clone)]
pub struct PendingMatch {
    pub id: String,
    pub source_id: String,
    pub source_name: String,
    pub interest_id: String,
    pub interest_name: String,
    pub title: String,
    pub magnet_uri: Option<String>,
    pub torrent_url: Option<String>,
    pub created_at: String,
    pub metadata: Option<TorrentMetadata>,
}

/// What is known of a torrent before it is downloaded.
#[derive(Debug, Clone)]
pub struct TorrentMetadata {
    pub name: String,
    pub total_size: u64,
    pub file_count: usize,
    pub files: Vec<TorrentFilePreview>,
}

/// One file of a torrent, with what its name suggests.
#[derive(Debug, Clone)]
pub struct TorrentFilePreview {
    pub name: String,
    pub size: u64,
    pub is_video: bool,
    pub is_suspicious: bool,
}

/// A release the user marked as bad, keyed by its content hash.
#[derive(Debug, Clone)]
pub struct BadItem {
    pub info_hash: String,
    pub title: String,
    pub interest_id: Option<String>,
    pub interest_name: Option<String>,
    pub marked_at: String,
    pub reason: Option<String>,
}

/// One normalized entry of a feed or of a scraped page.
#[derive(Debug, Clone)]
pub struct ParsedFeedItem {
    pub id: String,
    pub guid: String,
    pub title: String,
    pub magnet_uri: Option<String>,
    pub torrent_url: Option<String>,
    pub size: Option<u64>,
    pub published_date: Option<String>,
}

/// What a conditional fetch returned.
#[derive(Debug, Clone)]
pub struct FetchFeedResult {
    pub items: Vec<ParsedFeedItem>,
    pub etag: Option<String>,
    pub last_modified: Option<String>,
    pub not_modified: bool,
}

/// How a scraped site is read.
#[derive(Debug, Clone)]
pub struct ScraperConfig {
    pub id: String,
    pub name: String,
    pub base_url: String,
    pub search_url_template: Option<String>,
    pub item_selector: String,
    pub title_selector: String,
    pub link_selector: String,
    pub size_selector: Option<String>,
    pub enabled: bool,
    pub request_delay_ms: u64,
}

/// One item read from a scraped page.
#[derive(Debug, Clone)]
pub struct ScrapedItem {
    pub title: String,
    pub magnet_uri: Option<String>,
    pub torrent_url: Option<String>,
    pub size: Option<u64>,
}

/// The outcome of trying a scraper configuration.
#[derive(Debug, Clone)]
pub struct ScraperTestResult {
    pub items: Vec<ScrapedItem>,
    pub total_count: usize,
}

/// The characters of an optional string.
pub open spec fn opt_text(o: Option<String>) -> Option<Seq<char>> {
    match o {
        Some(s) => Some(s@),
        None => None,
    }
}

/// A copy of an optional string.
pub fn copy_opt(o: &Option<String>) -> (r: Option<String>)
    ensures
        opt_text(r) == opt_text(*o),
        r is Some == o is Some,
{
    match o {
        Some(s) => Some(s.clone()),
        None => None,
    }
}

/// The delay a scraper waits between requests when none is configured.
pub fn default_delay() -> (r: u64)
    ensures
        r == 500,
{
    500
}


/// What the download collaborator reports for an added torrent.
#[derive(Debug, Clone)]
pub struct TorrentAddedResponse {
    pub id: usize,
    pub name: String,
    pub info_hash: String,
    pub files: Vec<TorrentFileInfo>,
}

/// One file of an added torrent.
#[derive(Debug, Clone)]
pub struct TorrentFileInfo {
    pub index: usize,
    pub name: String,
    pub path: String,
    pub length: u64,
    pub is_playable: bool,
    pub mime_type: Option<String>,
    pub stream_url: Option<String>,
}

/// Where and what to download.
#[derive(Debug, Clone)]
pub struct TorrentAddOptions {
    pub output_folder: Option<String>,
    pub only_files: Option<Vec<usize>>,
}

/// The state of a download.
#[derive(Debug, Clone, Copy, PartialEq, Eq, Structural)]
pub enum TorrentState {
    Initializing,
    Downloading,
    Paused,
    Completed,
    Error,
}

/// A subtitle track converted for playback.
#[derive(Debug, Clone)]
pub struct SubtitleData {
    pub vtt_content: String,
    pub original_name: String,
}

} // verus!
