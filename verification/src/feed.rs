//! Normalizing the entries of a fetched feed into items that can be matched.

use vstd::prelude::*;
use vstd::string::*;
use crate::errors::WhenThenError;
use crate::filters::{evaluate_filters, filters_match, match_description};
use crate::models::{
    copy_opt, opt_text, FeedFilter, FeedTestItem, FeedTestResult, FilterLogic, ParsedFeedItem,
    TorrentFilePreview, TorrentMetadata,
};
use crate::outside::{
    capture_groups, char_is_whitespace, is_space, lowercase_of, regex_captures, to_lowercase,
};
use crate::patterns::{group_of, group_text};
use crate::text::{
    contains_chars, contains_seq, ends_with, ends_with_chars, find_chars, find_first, from_chars,
    has_prefix, has_suffix, lemma_find_bounds, same_text, starts_with, to_chars,
};

verus! {

/// A link of a feed entry.
#[derive(Debug, Clone)]
pub struct FeedLink {
    pub href: String,
    pub rel: Option<String>,
    pub media_type: Option<String>,
}

/// A feed entry as the feed parser delivers it, reduced to what matching
/// reads: `media_urls` holds the content URLs of the entry's first media
/// object, `size` the size announced in the title.
#[derive(Debug, Clone)]
pub struct FeedEntry {
    pub id: String,
    pub title: Option<String>,
    pub links: Vec<FeedLink>,
    pub media_urls: Vec<String>,
    pub content_body: Option<String>,
    pub summary: Option<String>,
    pub published: Option<String>,
    pub size: Option<u64>,
}

/// The pattern of a size announced in running text: a decimal number and a
/// unit up to gigabytes.
pub const SIZE_PATTERN: &'static str = r"(\d+(?:\.\d+)?)\s*(GB|MB|KB|GiB|MiB|KiB)";

/// The same pattern with terabytes among the units.
pub const LARGE_SIZE_PATTERN: &'static str = r"(\d+(?:\.\d+)?)\s*(GB|MB|KB|GiB|MiB|KiB|TB|TiB)";

/// A size as announced: the decimal number as written, and the power of two
/// that its unit stands for.
#[derive(Debug, Clone)]
pub struct SizeTokens {
    pub number: String,
    pub unit_shift: u32,
}

/// The power of two that a unit stands for: 10 for kilobytes, 20 for
/// megabytes, 30 for gigabytes, 40 for terabytes, 0 for anything else.
pub open spec fn shift_of(unit: Seq<char>) -> u32 {
    if unit == "KB"@ || unit == "KiB"@ {
        10
    } else if unit == "MB"@ || unit == "MiB"@ {
        20
    } else if unit == "GB"@ || unit == "GiB"@ {
        30
    } else if unit == "TB"@ || unit == "TiB"@ {
        40
    } else {
        0
    }
}

/// The pattern that sizes are searched with.
pub open spec fn size_pattern(with_tera: bool) -> Seq<char> {
    if with_tera {
        LARGE_SIZE_PATTERN@
    } else {
        SIZE_PATTERN@
    }
}

/// Names the power of two of a unit.
pub fn unit_shift(unit: &str) -> (r: u32)
    ensures
        r == shift_of(unit@),
{
    if same_text(unit, "KB") || same_text(unit, "KiB") {
        10
    } else if same_text(unit, "MB") || same_text(unit, "MiB") {
        20
    } else if same_text(unit, "GB") || same_text(unit, "GiB") {
        30
    } else if same_text(unit, "TB") || same_text(unit, "TiB") {
        40
    } else {
        0
    }
}

/// Finds the first size announced in a text, such as `1.5 GB` or `700MiB`:
/// its number and its unit. Terabytes count only when asked for.
pub fn size_tokens(text: &str, with_tera: bool) -> (r: Option<SizeTokens>)
    ensures
        match (
            group_of(capture_groups(size_pattern(with_tera), text@), 1),
            group_of(capture_groups(size_pattern(with_tera), text@), 2),
        ) {
            (Some(number), Some(unit)) => r matches Some(t) && t.number@ == number
                && t.unit_shift == shift_of(unit),
            _ => r is None,
        },
{
    let caps = if with_tera {
        regex_captures(LARGE_SIZE_PATTERN, text)
    } else {
        regex_captures(SIZE_PATTERN, text)
    };
    match (group_text(&caps, 1), group_text(&caps, 2)) {
        (Some(number), Some(unit)) => Some(
            SizeTokens { number, unit_shift: unit_shift(unit.as_str()) },
        ),
        _ => None,
    }
}

/// The links found so far in an entry.
pub struct Found {
    pub magnet: Option<Seq<char>>,
    pub torrent: Option<Seq<char>>,
}

/// Whether a character ends a magnet link that stands in running text.
pub open spec fn ends_magnet(c: char) -> bool {
    is_space(c) || c == '<' || c == '"' || c == '\''
}

/// The index of the first character at or after `i` that ends a magnet link, or
/// the length of the text.
pub open spec fn magnet_end(text: Seq<char>, i: int) -> int
    decreases text.len() - i,
{
    if i < 0 || i >= text.len() {
        text.len() as int
    } else if ends_magnet(text[i]) {
        i
    } else {
        magnet_end(text, i + 1)
    }
}

/// The first magnet link in a text: from `magnet:?` up to whitespace, `<`, a
/// quote, or the end.
pub open spec fn embedded_magnet(text: Seq<char>) -> Option<Seq<char>> {
    match find_first(text, "magnet:?"@) {
        Some(p) => Some(text.subrange(p, magnet_end(text, p))),
        None => None,
    }
}

/// Extracts a magnet link from text content.
pub fn extract_magnet_from_text(text: &str) -> (r: Option<String>)
    ensures
        opt_text(r) == embedded_magnet(text@),
{
    let v = to_chars(text);
    let needle = to_chars("magnet:?");
    match find_chars(&v, &needle) {
        Some(start) => {
            let mut end: usize = start;
            proof {
                lemma_find_bounds(v@, needle@, start as int);
            }
            while end < v.len() && !(char_is_whitespace(v[end]) || v[end] == '<' || v[end] == '"'
                || v[end] == '\'')
                invariant
                    start <= end <= v@.len(),
                    magnet_end(v@, start as int) == magnet_end(v@, end as int),
                decreases v@.len() - end,
            {
                end += 1;
            }
            Some(from_chars(&v, start, end))
        },
        None => None,
    }
}

/// The links after one more link of the entry: a magnet link replaces the
/// magnet, a `.torrent` link replaces the torrent URL, an enclosure or a
/// bittorrent-typed link fills the torrent URL only while it is empty.
pub open spec fn after_link(acc: Found, link: FeedLink) -> Found {
    if has_prefix(link.href@, "magnet:"@) {
        Found { magnet: Some(link.href@), ..acc }
    } else if has_suffix(link.href@, ".torrent"@) {
        Found { torrent: Some(link.href@), ..acc }
    } else if opt_text(link.rel) == Some("enclosure"@) {
        if acc.torrent is None {
            Found { torrent: Some(link.href@), ..acc }
        } else {
            acc
        }
    } else if opt_text(link.media_type) == Some("application/x-bittorrent"@) && acc.torrent
        is None {
        Found { torrent: Some(link.href@), ..acc }
    } else {
        acc
    }
}

/// The links after all links of the entry, in order.
pub open spec fn after_links(acc: Found, links: Seq<FeedLink>) -> Found
    decreases links.len(),
{
    if links.len() == 0 {
        acc
    } else {
        after_link(after_links(acc, links.drop_last()), links.last())
    }
}

/// The links after one more media URL: a magnet replaces the magnet; any other
/// URL becomes the torrent URL if it ends in `.torrent` or none is known yet.
pub open spec fn after_media_url(acc: Found, url: Seq<char>) -> Found {
    if has_prefix(url, "magnet:"@) {
        Found { magnet: Some(url), ..acc }
    } else if has_suffix(url, ".torrent"@) || acc.torrent is None {
        Found { torrent: Some(url), ..acc }
    } else {
        acc
    }
}

/// The links after all media URLs, in order.
pub open spec fn after_media(acc: Found, urls: Seq<String>) -> Found
    decreases urls.len(),
{
    if urls.len() == 0 {
        acc
    } else {
        after_media_url(after_media(acc, urls.drop_last()), urls.last()@)
    }
}

/// The magnet link embedded in an optional text.
pub open spec fn embedded_in(text: Option<String>) -> Option<Seq<char>> {
    match text {
        Some(t) => embedded_magnet(t@),
        None => None,
    }
}

/// The links after looking into the entry's texts: while no magnet is known,
/// the one embedded in the content, else the one embedded in the summary.
pub open spec fn after_texts(acc: Found, entry: FeedEntry) -> Found {
    if acc.magnet is Some {
        acc
    } else {
        match embedded_in(entry.content_body) {
            Some(m) => Found { magnet: Some(m), ..acc },
            None => Found { magnet: embedded_in(entry.summary), ..acc },
        }
    }
}

/// Whether a link that is no page looks like a download.
pub open spec fn looks_like_download(href: Seq<char>) -> bool {
    &&& !has_suffix(href, ".html"@)
    &&& !has_suffix(href, ".htm"@)
    &&& !contains_seq(href, "/wiki/"@)
    &&& (contains_seq(href, "/download"@) || contains_seq(href, "/torrent/"@) || contains_seq(
        href,
        "get.php"@,
    ))
}

/// The first link at or after `from` that looks like a download.
pub open spec fn fallback_link(links: Seq<FeedLink>, from: int) -> Option<Seq<char>>
    decreases links.len() - from,
{
    if from < 0 || from >= links.len() {
        None
    } else if looks_like_download(links[from].href@) {
        Some(links[from].href@)
    } else {
        fallback_link(links, from + 1)
    }
}

/// The links after the fallback: with neither magnet nor torrent URL, the
/// first link that looks like a download becomes the torrent URL.
pub open spec fn after_fallback(acc: Found, links: Seq<FeedLink>) -> Found {
    if acc.torrent is None && acc.magnet is None {
        Found { torrent: fallback_link(links, 0), ..acc }
    } else {
        acc
    }
}

/// The links of an entry.
pub open spec fn links_of(entry: FeedEntry) -> Found {
    after_fallback(
        after_texts(
            after_media(
                after_links(Found { magnet: None, torrent: None }, entry.links@),
                entry.media_urls@,
            ),
            entry,
        ),
        entry.links@,
    )
}

/// Whether `item` is the normalized form of `entry`.
pub open spec fn normalizes(entry: FeedEntry, item: ParsedFeedItem) -> bool {
    &&& item.id@ == entry.id@
    &&& item.guid@ == entry.id@
    &&& item.title@ == match entry.title {
        Some(t) => t@,
        None => Seq::empty(),
    }
    &&& opt_text(item.magnet_uri) == links_of(entry).magnet
    &&& opt_text(item.torrent_url) == links_of(entry).torrent
    &&& item.size == entry.size
    &&& opt_text(item.published_date) == opt_text(entry.published)
}

fn text_is(o: &Option<String>, wanted: &str) -> (r: bool)
    ensures
        r == (opt_text(*o) == Some(wanted@)),
{
    match o {
        Some(s) => same_text(s.as_str(), wanted),
        None => false,
    }
}

fn is_download_link(href: &str) -> (r: bool)
    ensures
        r == looks_like_download(href@),
{
    let h = to_chars(href);
    let html = to_chars(".html");
    let htm = to_chars(".htm");
    if ends_with_chars(&h, &html) || ends_with_chars(&h, &htm) {
        return false;
    }
    let wiki = to_chars("/wiki/");
    if contains_chars(&h, &wiki) {
        return false;
    }
    let download = to_chars("/download");
    let torrent = to_chars("/torrent/");
    let get = to_chars("get.php");
    contains_chars(&h, &download) || contains_chars(&h, &torrent) || contains_chars(&h, &get)
}

fn first_download_link(links: &Vec<FeedLink>) -> (r: Option<String>)
    ensures
        opt_text(r) == fallback_link(links@, 0),
{
    let mut k: usize = 0;
    while k < links.len()
        invariant
            k <= links@.len(),
            fallback_link(links@, 0) == fallback_link(links@, k as int),
        decreases links@.len() - k,
    {
        if is_download_link(links[k].href.as_str()) {
            return Some(links[k].href.clone());
        }
        k += 1;
    }
    None
}

/// Normalizes one entry: finds its magnet URI and torrent URL among its links,
/// its media, its texts and, as a last resort, links that look like downloads.
pub fn normalize_entry(entry: &FeedEntry) -> (item: ParsedFeedItem)
    ensures
        normalizes(*entry, item),
{
    let mut magnet: Option<String> = None;
    let mut torrent: Option<String> = None;
    let ghost none = Found { magnet: None, torrent: None };
    let mut i: usize = 0;
    while i < entry.links.len()
        invariant
            i <= entry.links@.len(),
            none == (Found { magnet: None, torrent: None }),
            (Found { magnet: opt_text(magnet), torrent: opt_text(torrent) }) == after_links(
                none,
                entry.links@.take(i as int),
            ),
        decreases entry.links@.len() - i,
    {
        let link = &entry.links[i];
        proof {
            assert(entry.links@.take(i + 1).drop_last() =~= entry.links@.take(i as int));
            assert(entry.links@.take(i + 1).last() == *link);
        }
        if starts_with(link.href.as_str(), "magnet:") {
            magnet = Some(link.href.clone());
        } else if ends_with(link.href.as_str(), ".torrent") {
            torrent = Some(link.href.clone());
        } else if text_is(&link.rel, "enclosure") {
            if torrent.is_none() {
                torrent = Some(link.href.clone());
            }
        } else if text_is(&link.media_type, "application/x-bittorrent") && torrent.is_none() {
            torrent = Some(link.href.clone());
        }
        i += 1;
    }
    assert(entry.links@.take(entry.links@.len() as int) =~= entry.links@);
    let ghost linked = after_links(none, entry.links@);
    let mut j: usize = 0;
    while j < entry.media_urls.len()
        invariant
            j <= entry.media_urls@.len(),
            (Found { magnet: opt_text(magnet), torrent: opt_text(torrent) }) == after_media(
                linked,
                entry.media_urls@.take(j as int),
            ),
        decreases entry.media_urls@.len() - j,
    {
        let url = &entry.media_urls[j];
        proof {
            assert(entry.media_urls@.take(j + 1).drop_last() =~= entry.media_urls@.take(j as int));
            assert(entry.media_urls@.take(j + 1).last() == *url);
        }
        if starts_with(url.as_str(), "magnet:") {
            magnet = Some(url.clone());
        } else if ends_with(url.as_str(), ".torrent") || torrent.is_none() {
            torrent = Some(url.clone());
        }
        j += 1;
    }
    assert(entry.media_urls@.take(entry.media_urls@.len() as int) =~= entry.media_urls@);
    assert((Found { magnet: opt_text(magnet), torrent: opt_text(torrent) }) == after_media(
        linked,
        entry.media_urls@,
    ));
    if magnet.is_none() {
        let in_content = match &entry.content_body {
            Some(body) => extract_magnet_from_text(body.as_str()),
            None => None,
        };
        magnet = match in_content {
            Some(m) => Some(m),
            None => match &entry.summary {
                Some(s) => extract_magnet_from_text(s.as_str()),
                None => None,
            },
        };
    }
    assert((Found { magnet: opt_text(magnet), torrent: opt_text(torrent) }) == after_texts(
        after_media(linked, entry.media_urls@),
        *entry,
    ));
    if torrent.is_none() && magnet.is_none() {
        torrent = first_download_link(&entry.links);
    }
    let title = match &entry.title {
        Some(t) => t.clone(),
        None => String::new(),
    };
    ParsedFeedItem {
        id: entry.id.clone(),
        guid: entry.id.clone(),
        title,
        magnet_uri: magnet,
        torrent_url: torrent,
        size: entry.size,
        published_date: copy_opt(&entry.published),
    }
}

/// Normalizes the entries of a feed, in feed order.
pub fn parse_feed_entries(entries: &Vec<FeedEntry>) -> (items: Vec<ParsedFeedItem>)
    ensures
        items@.len() == entries@.len(),
        forall|i: int| 0 <= i < entries@.len() ==> normalizes(entries@[i], #[trigger] items@[i]),
{
    let mut items: Vec<ParsedFeedItem> = Vec::new();
    let mut i: usize = 0;
    while i < entries.len()
        invariant
            i <= entries@.len(),
            items@.len() == i,
            forall|j: int| 0 <= j < i ==> normalizes(entries@[j], #[trigger] items@[j]),
        decreases entries@.len() - i,
    {
        items.push(normalize_entry(&entries[i]));
        i += 1;
    }
    items
}

/// Whether a file name has one of the given endings, compared in lowercase.
pub open spec fn has_ending(name: Seq<char>, endings: Seq<Seq<char>>) -> bool {
    exists|i: int| 0 <= i < endings.len() && has_suffix(lowercase_of(name), #[trigger] endings[i])
}

/// The endings of video files.
pub open spec fn video_endings() -> Seq<Seq<char>> {
    seq![".mkv"@, ".mp4"@, ".avi"@, ".mov"@, ".wmv"@, ".webm"@, ".m4v"@, ".ts"@]
}

/// The endings of files that can run code.
pub open spec fn suspicious_endings() -> Seq<Seq<char>> {
    seq![
        ".exe"@,
        ".msi"@,
        ".bat"@,
        ".cmd"@,
        ".scr"@,
        ".vbs"@,
        ".js"@,
        ".jar"@,
        ".ps1"@,
        ".dll"@,
    ]
}

fn ends_with_any(name: &str, endings: &Vec<&'static str>) -> (r: bool)
    ensures
        r == has_ending(name@, Seq::new(endings@.len(), |i: int| endings@[i]@)),
{
    let ghost list = Seq::new(endings@.len(), |i: int| endings@[i]@);
    let lower = to_chars(to_lowercase(name).as_str());
    let mut i: usize = 0;
    while i < endings.len()
        invariant
            i <= endings@.len(),
            lower@ == lowercase_of(name@),
            list == Seq::new(endings@.len(), |i: int| endings@[i]@),
            forall|j: int| 0 <= j < i ==> !has_suffix(lowercase_of(name@), #[trigger] list[j]),
        decreases endings@.len() - i,
    {
        let e = to_chars(endings[i]);
        if ends_with_chars(&lower, &e) {
            assert(has_suffix(lowercase_of(name@), list[i as int]));
            return true;
        }
        i += 1;
    }
    false
}

/// Checks if a file is a video based on its extension.
pub fn is_video_file(name: &str) -> (r: bool)
    ensures
        r == has_ending(name@, video_endings()),
{
    let endings: Vec<&'static str> = vec![
        ".mkv",
        ".mp4",
        ".avi",
        ".mov",
        ".wmv",
        ".webm",
        ".m4v",
        ".ts",
    ];
    assert(Seq::new(endings@.len(), |i: int| endings@[i]@) =~= video_endings());
    ends_with_any(name, &endings)
}

/// Checks if a file looks like something that can run code.
pub fn is_suspicious_file(name: &str) -> (r: bool)
    ensures
        r == has_ending(name@, suspicious_endings()),
{
    let endings: Vec<&'static str> = vec![
        ".exe",
        ".msi",
        ".bat",
        ".cmd",
        ".scr",
        ".vbs",
        ".js",
        ".jar",
        ".ps1",
        ".dll",
    ];
    assert(Seq::new(endings@.len(), |i: int| endings@[i]@) =~= suspicious_endings());
    ends_with_any(name, &endings)
}

/// The sum of the sizes of the first `n` files.
pub open spec fn total_size(files: Seq<(String, u64)>, n: int) -> int
    decreases n,
{
    if n <= 0 || n > files.len() {
        0
    } else {
        total_size(files, n - 1) + files[n - 1].1
    }
}

/// Builds the preview of a torrent from the names and sizes of its files. With
/// no file known after the wait for metadata ran out, the fetch has failed.
pub fn build_metadata(name: String, files: &Vec<(String, u64)>, timed_out: bool) -> (r: Result<
    TorrentMetadata,
    WhenThenError,
>)
    requires
        total_size(files@, files@.len() as int) <= u64::MAX,
    ensures
        timed_out && files@.len() == 0 ==> (r matches Err(WhenThenError::Torrent(msg)) && msg@
            == "Metadata fetch timed out"@),
        !(timed_out && files@.len() == 0) ==> (r matches Ok(m) && {
            &&& m.name == name
            &&& m.file_count == files@.len()
            &&& m.total_size == total_size(files@, files@.len() as int)
            &&& m.files@.len() == files@.len()
            &&& forall|i: int|
                0 <= i < files@.len() ==> {
                    &&& (#[trigger] m.files@[i]).name@ == files@[i].0@
                    &&& m.files@[i].size == files@[i].1
                    &&& m.files@[i].is_video == has_ending(files@[i].0@, video_endings())
                    &&& m.files@[i].is_suspicious == has_ending(
                        files@[i].0@,
                        suspicious_endings(),
                    )
                }
        }),
{
    if timed_out && files.len() == 0 {
        return Err(WhenThenError::Torrent(String::from_str("Metadata fetch timed out")));
    }
    let mut previews: Vec<TorrentFilePreview> = Vec::new();
    let mut total: u64 = 0;
    let mut i: usize = 0;
    while i < files.len()
        invariant
            i <= files@.len(),
            previews@.len() == i,
            total == total_size(files@, i as int),
            total_size(files@, files@.len() as int) <= u64::MAX,
            forall|j: int|
                0 <= j < i ==> {
                    &&& (#[trigger] previews@[j]).name@ == files@[j].0@
                    &&& previews@[j].size == files@[j].1
                    &&& previews@[j].is_video == has_ending(files@[j].0@, video_endings())
                    &&& previews@[j].is_suspicious == has_ending(
                        files@[j].0@,
                        suspicious_endings(),
                    )
                },
        decreases files@.len() - i,
    {
        proof {
            lemma_total_grows(files@, i + 1, files@.len() as int);
        }
        let file_name = files[i].0.clone();
        let size = files[i].1;
        let is_video = is_video_file(file_name.as_str());
        let is_suspicious = is_suspicious_file(file_name.as_str());
        previews.push(TorrentFilePreview { name: file_name, size, is_video, is_suspicious });
        total = total + size;
        i += 1;
    }
    Ok(TorrentMetadata { name, total_size: total, file_count: files.len(), files: previews })
}

proof fn lemma_total_grows(files: Seq<(String, u64)>, a: int, b: int)
    requires
        0 <= a <= b <= files.len(),
    ensures
        total_size(files, a) <= total_size(files, b),
    decreases b - a,
{
    if a < b {
        lemma_total_grows(files, a, b - 1);
    }
}

/// The number of the first `n` items that the filters accept.
pub open spec fn matching_count(items: Seq<ParsedFeedItem>, filters: Seq<FeedFilter>, n: int) -> int
    decreases n,
{
    if n <= 0 || n > items.len() {
        0
    } else {
        matching_count(items, filters, n - 1) + if filters_match(
            items[n - 1].title@,
            items[n - 1].size,
            filters,
            FilterLogic::And,
        ) {
            1int
        } else {
            0int
        }
    }
}

/// Tries a filter set against the items of a feed without queueing anything:
/// says for every item whether all enabled filters accept it, and counts.
pub fn test_items(items: &Vec<ParsedFeedItem>, filters: &[FeedFilter]) -> (r: FeedTestResult)
    ensures
        r.total_count == items@.len(),
        r.items@.len() == items@.len(),
        r.matched_count == matching_count(items@, filters@, items@.len() as int),
        forall|i: int|
            0 <= i < items@.len() ==> {
                &&& (#[trigger] r.items@[i]).title@ == items@[i].title@
                &&& r.items@[i].size == items@[i].size
                &&& r.items@[i].matches == filters_match(
                    items@[i].title@,
                    items@[i].size,
                    filters@,
                    FilterLogic::And,
                )
                &&& opt_text(r.items@[i].matched_filter) == if r.items@[i].matches {
                    Some(match_description(items@[i].title@, items@[i].size, filters@))
                } else {
                    None
                }
            },
{
    let mut out: Vec<FeedTestItem> = Vec::new();
    let mut matched: usize = 0;
    let mut i: usize = 0;
    while i < items.len()
        invariant
            i <= items@.len(),
            out@.len() == i,
            matched <= i,
            matched == matching_count(items@, filters@, i as int),
            forall|j: int|
                0 <= j < i ==> {
                    &&& (#[trigger] out@[j]).title@ == items@[j].title@
                    &&& out@[j].size == items@[j].size
                    &&& out@[j].matches == filters_match(
                        items@[j].title@,
                        items@[j].size,
                        filters@,
                        FilterLogic::And,
                    )
                    &&& opt_text(out@[j].matched_filter) == if out@[j].matches {
                        Some(match_description(items@[j].title@, items@[j].size, filters@))
                    } else {
                        None
                    }
                },
        decreases items@.len() - i,
    {
        let item = &items[i];
        let matched_filter = evaluate_filters(item, filters);
        let matches = matched_filter.is_some();
        if matches {
            matched += 1;
        }
        out.push(FeedTestItem { title: item.title.clone(), matches, matched_filter, size: item.size });
        i += 1;
    }
    FeedTestResult { items: out, total_count: items.len(), matched_count: matched }
}

} // verus!
