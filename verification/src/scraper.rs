//! Items scraped from listing pages: reading the rows of a page, and matching
//! them for one interest.

use vstd::prelude::*;
use vstd::string::*;
use crate::engine::{facts, queue_facts, MatchFacts};
use crate::feed::{embedded_magnet, extract_magnet_from_text};
use crate::filters::{evaluate_filters_with_logic, filters_match};
use crate::ledger::{has_key, SeenItems};
use crate::models::{
    copy_opt, opt_text, Interest, ParsedFeedItem, PendingMatch, ScrapedItem, ScraperConfig,
    ScraperTestResult,
};
use crate::outside::{fresh_id, percent_encoded};
use crate::scheduler::search_term_of;
use crate::text::{
    contains_seq, contains_text, ends_with, from_chars, has_prefix, has_suffix, replaced,
    starts_with, to_chars, trim_bounds, trimmed,
};

verus! {

/// One item container of a page, as the selectors delivered it: the text of
/// its title element, the `href` of its link element if it has both, the text
/// of that link element, and the size read from its size element.
#[derive(Debug, Clone)]
pub struct ScrapedRow {
    pub title: String,
    pub href: Option<String>,
    pub link_text: String,
    pub size: Option<u64>,
}

/// The magnet URI and the torrent URL that a row's link gives. A magnet link
/// is taken as it is; a link to a `.torrent` file or a download path becomes
/// the torrent URL, made absolute with the base URL; any other link is
/// searched for a magnet link in its text.
pub open spec fn row_links(row: ScrapedRow, base_url: Seq<char>) -> (
    Option<Seq<char>>,
    Option<Seq<char>>,
) {
    match row.href {
        None => (None, None),
        Some(h) => if has_prefix(h@, "magnet:"@) {
            (Some(h@), None)
        } else if has_suffix(h@, ".torrent"@) || contains_seq(h@, "/download"@) {
            if has_prefix(h@, "http"@) {
                (None, Some(h@))
            } else {
                (None, Some(base_url + h@))
            }
        } else {
            (embedded_magnet(row.link_text@), None)
        },
    }
}

/// Whether a row yields an item: it has a title and a link.
pub open spec fn row_counts(row: ScrapedRow, base_url: Seq<char>) -> bool {
    trimmed(row.title@).len() > 0 && (row_links(row, base_url).0 is Some || row_links(
        row,
        base_url,
    ).1 is Some)
}

/// Whether `item` is what `row` yields.
pub open spec fn scraped_from(row: ScrapedRow, base_url: Seq<char>, item: ScrapedItem) -> bool {
    &&& item.title@ == trimmed(row.title@)
    &&& opt_text(item.magnet_uri) == row_links(row, base_url).0
    &&& opt_text(item.torrent_url) == row_links(row, base_url).1
    &&& item.size == row.size
}

/// Reads one row of a page. A row without a title or without any download
/// link yields nothing.
pub fn scraped_item_from(row: &ScrapedRow, base_url: &str) -> (r: Option<ScrapedItem>)
    ensures
        r is Some == row_counts(*row, base_url@),
        r matches Some(item) ==> scraped_from(*row, base_url@, item),
{
    let t = to_chars(row.title.as_str());
    let (a, b) = trim_bounds(&t, 0, t.len());
    assert(t@.subrange(0, t@.len() as int) =~= t@);
    if a == b {
        return None;
    }
    let title = from_chars(&t, a, b);
    let mut magnet_uri: Option<String> = None;
    let mut torrent_url: Option<String> = None;
    match &row.href {
        Some(h) => {
            if starts_with(h.as_str(), "magnet:") {
                magnet_uri = Some(h.clone());
            } else if ends_with(h.as_str(), ".torrent") || contains_text(h.as_str(), "/download") {
                if starts_with(h.as_str(), "http") {
                    torrent_url = Some(h.clone());
                } else {
                    let mut url = String::from_str(base_url);
                    url.append(h.as_str());
                    torrent_url = Some(url);
                }
            } else {
                magnet_uri = extract_magnet_from_text(row.link_text.as_str());
            }
        },
        None => {},
    }
    if magnet_uri.is_none() && torrent_url.is_none() {
        return None;
    }
    Some(ScrapedItem { title, magnet_uri, torrent_url, size: row.size })
}

/// The number of the first `n` rows that yield an item.
pub open spec fn counted_rows(rows: Seq<ScrapedRow>, base_url: Seq<char>, n: int) -> int
    decreases n,
{
    if n <= 0 || n > rows.len() {
        0
    } else {
        counted_rows(rows, base_url, n - 1) + if row_counts(rows[n - 1], base_url) {
            1int
        } else {
            0int
        }
    }
}

/// Reads the rows of a page, in page order. The `k`-th item comes from the
/// `k`-th row that yields one.
pub fn parse_page(rows: &Vec<ScrapedRow>, config: &ScraperConfig) -> (items: Vec<ScrapedItem>)
    ensures
        items@.len() == counted_rows(rows@, config.base_url@, rows@.len() as int),
        forall|i: int|
            0 <= i < rows@.len() && row_counts(#[trigger] rows@[i], config.base_url@)
                ==> scraped_from(
                rows@[i],
                config.base_url@,
                items@[counted_rows(rows@, config.base_url@, i)],
            ),
{
    let mut items: Vec<ScrapedItem> = Vec::new();
    let mut i: usize = 0;
    while i < rows.len()
        invariant
            i <= rows@.len(),
            items@.len() <= i,
            items@.len() == counted_rows(rows@, config.base_url@, i as int),
            forall|j: int|
                0 <= j < i && row_counts(#[trigger] rows@[j], config.base_url@) ==> 0
                    <= counted_rows(rows@, config.base_url@, j) < items@.len() && scraped_from(
                    rows@[j],
                    config.base_url@,
                    items@[counted_rows(rows@, config.base_url@, j)],
                ),
        decreases rows@.len() - i,
    {
        match scraped_item_from(&rows[i], config.base_url.as_str()) {
            Some(item) => {
                items.push(item);
            },
            None => {},
        }
        i += 1;
    }
    items
}

/// The search template of a site with the interest's term filled in, if the
/// site has a template.
pub fn build_search_url(config: &ScraperConfig, interest: &Interest) -> (r: Option<String>)
    ensures
        opt_text(r) == match config.search_url_template {
            Some(t) => Some(
                replaced(t@, "{search}"@, percent_encoded(search_term_of(*interest))),
            ),
            None => None,
        },
{
    match &config.search_url_template {
        Some(t) => Some(crate::scheduler::build_search_url(t.as_str(), interest)),
        None => None,
    }
}

/// The URL to scrape for an interest: the filled-in search template, or the
/// base URL when the site has no template.
pub fn scrape_url(config: &ScraperConfig, interest: &Interest) -> (r: String)
    ensures
        r@ == match config.search_url_template {
            Some(t) => replaced(t@, "{search}"@, percent_encoded(search_term_of(*interest))),
            None => config.base_url@,
        },
{
    match build_search_url(config, interest) {
        Some(u) => u,
        None => config.base_url.clone(),
    }
}

/// The URL to scrape when a configuration is tried out: the search template as
/// it stands, or the base URL.
pub fn trial_url(config: &ScraperConfig) -> (r: String)
    ensures
        r@ == match config.search_url_template {
            Some(t) => t@,
            None => config.base_url@,
        },
{
    match &config.search_url_template {
        Some(t) => t.clone(),
        None => config.base_url.clone(),
    }
}

/// The outcome of trying a configuration: the items found, and how many.
pub fn test_result(items: Vec<ScrapedItem>) -> (r: ScraperTestResult)
    ensures
        r.items == items,
        r.total_count == items@.len(),
{
    let total_count = items.len();
    ScraperTestResult { items, total_count }
}

/// The dedup key of a scraped item: `config:interest:title`.
pub open spec fn scraped_key(config: ScraperConfig, interest: Interest, item: ScrapedItem) -> Seq<
    char,
> {
    config.id@ + seq![':'] + interest.id@ + seq![':'] + item.title@
}

/// Whether the interest's filters accept a scraped item.
pub open spec fn scraped_matches(interest: Interest, item: ScrapedItem) -> bool {
    filters_match(item.title@, item.size, interest.filters@, interest.filter_logic)
}

/// The facts of the match queued for a scraped item.
pub open spec fn scraped_match(
    config: ScraperConfig,
    interest: Interest,
    item: ScrapedItem,
    now: Seq<char>,
) -> MatchFacts {
    MatchFacts {
        source_id: config.id@,
        source_name: config.name@ + " (scraper)"@,
        interest_id: interest.id@,
        interest_name: interest.name@,
        title: item.title@,
        magnet_uri: opt_text(item.magnet_uri),
        torrent_url: opt_text(item.torrent_url),
        created_at: now,
        has_metadata: false,
    }
}

/// The scraper's ledger and the queue after one scraped item: a seen item
/// changes nothing; every other item is marked seen, and queued when the
/// interest's filters accept it.
pub open spec fn step_scraped(
    l: (Seq<(Seq<char>, Seq<char>)>, Seq<MatchFacts>),
    config: ScraperConfig,
    interest: Interest,
    item: ScrapedItem,
    now: Seq<char>,
) -> (Seq<(Seq<char>, Seq<char>)>, Seq<MatchFacts>) {
    let key = scraped_key(config, interest, item);
    if has_key(l.0, key) {
        l
    } else if scraped_matches(interest, item) {
        (l.0.push((key, now)), l.1.push(scraped_match(config, interest, item, now)))
    } else {
        (l.0.push((key, now)), l.1)
    }
}

/// The scraper's ledger and the queue after all items of a page, in order.
pub open spec fn poll_scraped(
    l: (Seq<(Seq<char>, Seq<char>)>, Seq<MatchFacts>),
    config: ScraperConfig,
    interest: Interest,
    items: Seq<ScrapedItem>,
    now: Seq<char>,
) -> (Seq<(Seq<char>, Seq<char>)>, Seq<MatchFacts>)
    decreases items.len(),
{
    if items.len() == 0 {
        l
    } else {
        step_scraped(
            poll_scraped(l, config, interest, items.drop_last(), now),
            config,
            interest,
            items.last(),
            now,
        )
    }
}

fn process_scraped_item(
    seen: &mut SeenItems,
    queue: &mut Vec<PendingMatch>,
    config: &ScraperConfig,
    interest: &Interest,
    item: &ScrapedItem,
    now: &str,
) -> (queued: bool)
    requires
        old(seen).wf(),
    ensures
        final(seen).wf(),
        (final(seen)@, queue_facts(final(queue)@)) == step_scraped(
            (old(seen)@, queue_facts(old(queue)@)),
            *config,
            *interest,
            *item,
            now@,
        ),
        final(queue)@.len() == old(queue)@.len() + if queued {
            1int
        } else {
            0int
        },
        final(queue)@.take(old(queue)@.len() as int) == old(queue)@,
{
    let ghost before = queue@;
    assert(before.take(before.len() as int) =~= before);
    let mut key = config.id.clone();
    key.push(':');
    key.append(interest.id.as_str());
    key.push(':');
    key.append(item.title.as_str());
    assert(key@ =~= scraped_key(*config, *interest, *item));
    if seen.contains_key(key.as_str()) {
        return false;
    }
    let feed_item = ParsedFeedItem {
        id: item.title.clone(),
        guid: item.title.clone(),
        title: item.title.clone(),
        magnet_uri: copy_opt(&item.magnet_uri),
        torrent_url: copy_opt(&item.torrent_url),
        size: item.size,
        published_date: Some(now.to_owned()),
    };
    let matched = evaluate_filters_with_logic(
        &feed_item,
        interest.filters.as_slice(),
        &interest.filter_logic,
    );
    seen.insert_new(key, now.to_owned());
    if matched.is_none() {
        return false;
    }
    let mut source_name = config.name.clone();
    source_name.append(" (scraper)");
    let pending = PendingMatch {
        id: fresh_id(),
        source_id: config.id.clone(),
        source_name,
        interest_id: interest.id.clone(),
        interest_name: interest.name.clone(),
        title: item.title.clone(),
        magnet_uri: copy_opt(&item.magnet_uri),
        torrent_url: copy_opt(&item.torrent_url),
        created_at: now.to_owned(),
        metadata: None,
    };
    assert(facts(pending) == scraped_match(*config, *interest, *item, now@));
    queue.push(pending);
    assert(queue@.take(before.len() as int) =~= before);
    assert(queue_facts(queue@) =~= queue_facts(before).push(
        scraped_match(*config, *interest, *item, now@),
    ));
    true
}

/// Matches the items scraped for one interest against that interest, behind
/// the scraper's own ledger; returns how many pending matches were queued.
pub fn process_scraped_items(
    seen: &mut SeenItems,
    queue: &mut Vec<PendingMatch>,
    config: &ScraperConfig,
    interest: &Interest,
    items: &Vec<ScrapedItem>,
    now: &str,
) -> (count: usize)
    requires
        old(seen).wf(),
    ensures
        final(seen).wf(),
        (final(seen)@, queue_facts(final(queue)@)) == poll_scraped(
            (old(seen)@, queue_facts(old(queue)@)),
            *config,
            *interest,
            items@,
            now@,
        ),
        final(queue)@.len() == old(queue)@.len() + count,
        final(queue)@.take(old(queue)@.len() as int) == old(queue)@,
{
    let ghost start = queue@;
    assert(start.take(start.len() as int) =~= start);
    let mut count: usize = 0;
    let mut i: usize = 0;
    while i < items.len()
        invariant
            i <= items@.len(),
            count <= i,
            seen.wf(),
            (seen@, queue_facts(queue@)) == poll_scraped(
                (old(seen)@, queue_facts(old(queue)@)),
                *config,
                *interest,
                items@.take(i as int),
                now@,
            ),
            start == old(queue)@,
            queue@.len() == start.len() + count,
            queue@.take(start.len() as int) == start,
        decreases items@.len() - i,
    {
        let ghost mid = queue@;
        proof {
            assert(items@.take(i + 1).drop_last() =~= items@.take(i as int));
            assert(items@.take(i + 1).last() == items@[i as int]);
        }
        if process_scraped_item(seen, queue, config, interest, &items[i], now) {
            count += 1;
        }
        assert(queue@.take(start.len() as int) =~= mid.take(start.len() as int));
        i += 1;
    }
    assert(items@.take(items@.len() as int) =~= items@);
    count
}

} // verus!
