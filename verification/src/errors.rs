//! Error categories reported to callers.

use vstd::prelude::*;
use vstd::string::*;
use crate::text::{decimal, push_decimal};

verus! {

/// Every failure the engine reports, with the detail it was raised with.
#[derive(Debug, Clone)]
pub enum WhenThenError {
    Torrent(String),
    TorrentNotFound(usize),
    DeviceNotFound(String),
    CastConnection(String),
    CastPlayback(String),
    UnsupportedFormat(String),
    FileNotFound(String),
    SubtitleParse(String),
    OpenSubtitles(String),
    Config(String),
    Internal(String),
    InvalidInput(String),
    NotFound(String),
    Rss(String),
    Scraper(String),
}

impl WhenThenError {
    /// The fixed label that prefixes the rendered form of each category.
    pub open spec fn label(self) -> Seq<char> {
        match self {
            WhenThenError::Torrent(_) => "Torrent error: "@,
            WhenThenError::TorrentNotFound(_) => "Torrent not found: "@,
            WhenThenError::DeviceNotFound(_) => "Device not found: "@,
            WhenThenError::CastConnection(_) => "Cast connection error: "@,
            WhenThenError::CastPlayback(_) => "Cast playback error: "@,
            WhenThenError::UnsupportedFormat(_) => "Unsupported format: "@,
            WhenThenError::FileNotFound(_) => "File not found: "@,
            WhenThenError::SubtitleParse(_) => "Subtitle parse error: "@,
            WhenThenError::OpenSubtitles(_) => "OpenSubtitles error: "@,
            WhenThenError::Config(_) => "Config error: "@,
            WhenThenError::Internal(_) => "Internal error: "@,
            WhenThenError::InvalidInput(_) => "Invalid input: "@,
            WhenThenError::NotFound(_) => "Not found: "@,
            WhenThenError::Rss(_) => "RSS error: "@,
            WhenThenError::Scraper(_) => "Scraper error: "@,
        }
    }

    /// The detail an error was raised with, as text.
    pub open spec fn detail(self) -> Seq<char> {
        match self {
            WhenThenError::Torrent(m) => m@,
            WhenThenError::TorrentNotFound(n) => decimal(n as nat),
            WhenThenError::DeviceNotFound(m) => m@,
            WhenThenError::CastConnection(m) => m@,
            WhenThenError::CastPlayback(m) => m@,
            WhenThenError::UnsupportedFormat(m) => m@,
            WhenThenError::FileNotFound(m) => m@,
            WhenThenError::SubtitleParse(m) => m@,
            WhenThenError::OpenSubtitles(m) => m@,
            WhenThenError::Config(m) => m@,
            WhenThenError::Internal(m) => m@,
            WhenThenError::InvalidInput(m) => m@,
            WhenThenError::NotFound(m) => m@,
            WhenThenError::Rss(m) => m@,
            WhenThenError::Scraper(m) => m@,
        }
    }

    /// The error as shown to the user: the category's label, then the detail.
    pub fn message(&self) -> (r: String)
        ensures
            r@ == self.label() + self.detail(),
    {
        let mut out = String::from_str(self.category());
        match self {
            WhenThenError::TorrentNotFound(n) => {
                push_decimal(&mut out, *n as u64);
            },
            WhenThenError::Torrent(m) => out.append(m.as_str()),
            WhenThenError::DeviceNotFound(m) => out.append(m.as_str()),
            WhenThenError::CastConnection(m) => out.append(m.as_str()),
            WhenThenError::CastPlayback(m) => out.append(m.as_str()),
            WhenThenError::UnsupportedFormat(m) => out.append(m.as_str()),
            WhenThenError::FileNotFound(m) => out.append(m.as_str()),
            WhenThenError::SubtitleParse(m) => out.append(m.as_str()),
            WhenThenError::OpenSubtitles(m) => out.append(m.as_str()),
            WhenThenError::Config(m) => out.append(m.as_str()),
            WhenThenError::Internal(m) => out.append(m.as_str()),
            WhenThenError::InvalidInput(m) => out.append(m.as_str()),
            WhenThenError::NotFound(m) => out.append(m.as_str()),
            WhenThenError::Rss(m) => out.append(m.as_str()),
            WhenThenError::Scraper(m) => out.append(m.as_str()),
        }
        out
    }

    /// The category's label, for rendering next to the detail.
    pub fn category(&self) -> (r: &'static str)
        ensures
            r@ == self.label(),
    {
        match self {
            WhenThenError::Torrent(_) => "Torrent error: ",
            WhenThenError::TorrentNotFound(_) => "Torrent not found: ",
            WhenThenError::DeviceNotFound(_) => "Device not found: ",
            WhenThenError::CastConnection(_) => "Cast connection error: ",
            WhenThenError::CastPlayback(_) => "Cast playback error: ",
            WhenThenError::UnsupportedFormat(_) => "Unsupported format: ",
            WhenThenError::FileNotFound(_) => "File not found: ",
            WhenThenError::SubtitleParse(_) => "Subtitle parse error: ",
            WhenThenError::OpenSubtitles(_) => "OpenSubtitles error: ",
            WhenThenError::Config(_) => "Config error: ",
            WhenThenError::Internal(_) => "Internal error: ",
            WhenThenError::InvalidInput(_) => "Invalid input: ",
            WhenThenError::NotFound(_) => "Not found: ",
            WhenThenError::Rss(_) => "RSS error: ",
            WhenThenError::Scraper(_) => "Scraper error: ",
        }
    }
}

} // verus!
