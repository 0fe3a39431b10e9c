use whenthen::config::{default_rss_interval, AppConfig, ThemeMode};
use whenthen::engine::{process_standard_items, RssState};
use whenthen::errors::WhenThenError;
use whenthen::feed::{
    size_tokens, unit_shift, build_metadata, extract_magnet_from_text, is_suspicious_file, is_video_file, normalize_entry,
    parse_feed_entries, test_items, FeedEntry, FeedLink,
};
use whenthen::i18n::locale_for;
use whenthen::ledger::{is_fresh, maybe_cleanup_seen_items, SeenEntry, SeenItems};
use whenthen::lifecycle::{
    add_interest, add_source, approve_match, attach_metadata, mark_bad, metadata_request,
    recheck_interest, reject_match, remove_interest, remove_source, toggle_interest,
    toggle_source, unmark_bad, update_interest, update_source,
};
use whenthen::models::{
    BadItem, FeedFilter, FetchFeedResult, FilterLogic, FilterType, Interest, ParsedFeedItem,
    PendingMatch, ScrapedItem, ScraperConfig, Source,
};
use whenthen::scheduler::{
    build_search_url, complete_source_check, due_sources, enabled_sources, finish_source_check,
    global_check_is_due, has_search_placeholder, is_in_backoff, is_source_due, plan_fetch,
    plan_tick, text_after, timestamp_text, FetchPlan,
};
use whenthen::scraper::{parse_page, process_scraped_items, scraped_item_from, ScrapedRow};
use whenthen::subtitles::srt_to_vtt;

const T0: i64 = 1_704_067_200;

fn source(id: &str, url: &str) -> Source {
    Source {
        id: id.to_string(),
        name: format!("Source {}", id),
        url: url.to_string(),
        enabled: true,
        check_interval_minutes: None,
        last_checked: None,
        next_check_at: None,
        etag: None,
        last_modified: None,
        failure_count: 0,
        retry_after: None,
        use_guid_dedup: false,
    }
}

fn interest(id: &str, needle: &str) -> Interest {
    Interest {
        id: id.to_string(),
        name: format!("Interest {}", id),
        enabled: true,
        filters: vec![FeedFilter {
            filter_type: FilterType::MustContain,
            value: needle.to_string(),
            enabled: true,
        }],
        filter_logic: FilterLogic::And,
        search_term: None,
        smart_episode_filter: false,
        download_path: None,
    }
}

fn item(id: &str, title: &str) -> ParsedFeedItem {
    ParsedFeedItem {
        id: id.to_string(),
        guid: id.to_string(),
        title: title.to_string(),
        magnet_uri: Some(format!("magnet:?xt=urn:btih:{}", id)),
        torrent_url: None,
        size: None,
        published_date: None,
    }
}

fn pending(id: &str, interest_id: &str, magnet: Option<&str>, torrent: Option<&str>) -> PendingMatch {
    PendingMatch {
        id: id.to_string(),
        source_id: "s".to_string(),
        source_name: "S".to_string(),
        interest_id: interest_id.to_string(),
        interest_name: "I".to_string(),
        title: format!("title {}", id),
        magnet_uri: magnet.map(|s| s.to_string()),
        torrent_url: torrent.map(|s| s.to_string()),
        created_at: "2024-01-01T00:00:00+00:00".to_string(),
        metadata: None,
    }
}

#[test]
fn srt_blocks_become_cues() {
    let srt = "1\r\n00:00:01,000 --> 00:00:04,000\r\nHello\r\nWorld\r\n\r\njunk\r\n\r\n2\n00:00:05,500 --> 00:00:08,000\nSecond line\n";
    let result = srt_to_vtt(srt).unwrap();
    assert_eq!(
        result,
        "WEBVTT\n\n00:00:01.000 --> 00:00:04.000\nHello\nWorld\n\n00:00:05.500 --> 00:00:08.000\nSecond line\n\n"
    );
    assert_eq!(srt_to_vtt("").unwrap(), "WEBVTT\n\n");
}

#[test]
fn test_srt_to_vtt_conversion() {
    let srt = "1\n00:00:01,000 --> 00:00:04,000\nHello World\n\n2\n00:00:05,000 --> 00:00:08,000\nSecond line";
    let result = srt_to_vtt(srt).unwrap();
    assert!(result.starts_with("WEBVTT"));
    assert!(result.contains("00:00:01.000 --> 00:00:04.000"));
    assert!(result.contains("Hello World"));
}

#[test]
fn search_urls_substitute_the_encoded_term() {
    assert!(has_search_placeholder("https://x.example/?q={search}"));
    assert!(!has_search_placeholder("https://x.example/rss"));
    let mut i = interest("i1", "x");
    i.name = "My Show & Co".to_string();
    assert_eq!(
        build_search_url("https://x.example/?q={search}&p={search}", &i),
        "https://x.example/?q=My%20Show%20%26%20Co&p=My%20Show%20%26%20Co"
    );
    i.search_term = Some("".to_string());
    assert_eq!(build_search_url("{search}", &i), "My%20Show%20%26%20Co");
    i.search_term = Some("term".to_string());
    assert_eq!(build_search_url("a/{search}/b", &i), "a/term/b");
}

#[test]
fn timestamps_are_rfc3339() {
    assert_eq!(timestamp_text(T0), "2024-01-01T00:00:00+00:00");
    assert_eq!(text_after(T0, 90), Some("2024-01-01T00:01:30+00:00".to_string()));
    assert_eq!(text_after(i64::MAX, 1), None);
    assert_eq!(timestamp_text(i64::MAX), "");
}

#[test]
fn success_resets_backoff_and_schedules_next_check() {
    let mut s = source("s1", "https://x.example/rss");
    s.failure_count = 4;
    s.retry_after = Some("2024-01-01T00:00:00+00:00".to_string());
    s.etag = Some("old".to_string());
    s.last_modified = Some("lm-old".to_string());
    finish_source_check(&mut s, Some((Some("new".to_string()), None)), T0, 15);
    assert_eq!(s.failure_count, 0);
    assert_eq!(s.retry_after, None);
    assert_eq!(s.etag, Some("new".to_string()));
    assert_eq!(s.last_modified, Some("lm-old".to_string()));
    assert_eq!(s.last_checked, Some("2024-01-01T00:00:00+00:00".to_string()));
    assert_eq!(s.next_check_at, Some("2024-01-01T00:15:00+00:00".to_string()));
    s.check_interval_minutes = Some(60);
    finish_source_check(&mut s, Some((None, None)), T0, 15);
    assert_eq!(s.next_check_at, Some("2024-01-01T01:00:00+00:00".to_string()));
    assert_eq!(s.etag, Some("new".to_string()));
}

#[test]
fn failure_counts_and_backs_off() {
    let mut s = source("s1", "https://x.example/rss");
    finish_source_check(&mut s, None, T0, 15);
    assert_eq!(s.failure_count, 1);
    assert_eq!(s.retry_after, Some("2024-01-01T00:01:00+00:00".to_string()));
    finish_source_check(&mut s, None, T0, 15);
    assert_eq!(s.failure_count, 2);
    assert_eq!(s.retry_after, Some("2024-01-01T00:02:00+00:00".to_string()));
    s.failure_count = 9;
    finish_source_check(&mut s, None, T0, 15);
    assert_eq!(s.failure_count, 10);
    assert_eq!(s.retry_after, Some("2024-01-01T00:30:00+00:00".to_string()));
    s.failure_count = u32::MAX;
    finish_source_check(&mut s, None, T0, 15);
    assert_eq!(s.failure_count, u32::MAX);
    assert_eq!(s.last_checked, Some("2024-01-01T00:00:00+00:00".to_string()));
    assert!(is_in_backoff(&s, T0));
    assert!(is_in_backoff(&s, T0 + 1799));
    assert!(!is_in_backoff(&s, T0 + 1800));
    assert!(!is_source_due(&s, T0 + 10, true));
}

#[test]
fn due_sources_follow_their_schedule() {
    let mut a = source("a", "https://a.example/rss");
    let mut b = source("b", "https://b.example/rss");
    let mut c = source("c", "https://c.example/rss");
    let mut d = source("d", "https://d.example/rss");
    let e = source("e", "https://e.example/rss");
    a.next_check_at = Some("2024-01-01T00:00:00+00:00".to_string());
    b.next_check_at = Some("2024-01-01T00:00:01+00:00".to_string());
    c.next_check_at = Some("not a time".to_string());
    d.enabled = false;
    let sources = vec![a, b, c, d, e];
    let interests = vec![interest("i", "x")];
    assert_eq!(due_sources(&sources, &interests, T0, false), vec![0, 2]);
    assert_eq!(due_sources(&sources, &interests, T0, true), vec![0, 2, 4]);
    assert_eq!(due_sources(&sources, &interests, T0 + 1, true), vec![0, 1, 2, 4]);
    let mut off = interest("i", "x");
    off.enabled = false;
    assert_eq!(due_sources(&sources, &vec![off], T0, true), Vec::<usize>::new());
    assert_eq!(due_sources(&sources, &vec![], T0, true), Vec::<usize>::new());
    assert!(global_check_is_due(900, 15));
    assert!(!global_check_is_due(899, 15));
}

#[test]
fn not_modified_is_a_successful_check_that_touches_nothing() {
    let mut state = RssState::new();
    let mut s = source("s1", "https://x.example/rss");
    s.failure_count = 3;
    s.retry_after = Some("2023-12-31T00:00:00+00:00".to_string());
    s.etag = Some("tag".to_string());
    let interests = vec![interest("i1", "ubuntu")];
    let res = FetchFeedResult {
        items: vec![item("a", "ubuntu iso")],
        etag: None,
        last_modified: None,
        not_modified: true,
    };
    let n = complete_source_check(&mut state, &mut s, &interests, Some(res), T0, 15);
    assert_eq!(n, 0);
    assert_eq!(state.pending_matches.len(), 0);
    assert_eq!(state.seen_items.len(), 0);
    assert_eq!(state.seen_episodes.len(), 0);
    assert_eq!(s.failure_count, 0);
    assert_eq!(s.retry_after, None);
    assert_eq!(s.etag, Some("tag".to_string()));
    assert_eq!(s.last_checked, Some("2024-01-01T00:00:00+00:00".to_string()));
}

#[test]
fn changed_feed_is_matched_and_tokens_are_stored() {
    let mut state = RssState::new();
    let mut s = source("s1", "https://x.example/rss");
    let interests = vec![interest("i1", "ubuntu")];
    let res = FetchFeedResult {
        items: vec![item("a", "ubuntu iso"), item("b", "fedora iso")],
        etag: Some("e1".to_string()),
        last_modified: Some("lm1".to_string()),
        not_modified: false,
    };
    let n = complete_source_check(&mut state, &mut s, &interests, Some(res), T0, 15);
    assert_eq!(n, 1);
    assert_eq!(state.pending_matches.len(), 1);
    assert_eq!(state.pending_matches[0].created_at, "2024-01-01T00:00:00+00:00");
    assert_eq!(state.seen_items.len(), 1);
    assert_eq!(s.etag, Some("e1".to_string()));
    assert_eq!(s.last_modified, Some("lm1".to_string()));
    let failed = complete_source_check(&mut state, &mut s, &interests, None, T0, 15);
    assert_eq!(failed, 0);
    assert_eq!(s.failure_count, 1);
    assert_eq!(state.pending_matches.len(), 1);
}

#[test]
fn approve_removes_the_match_and_resolves_the_path() {
    let mut state = RssState::new();
    let mut i1 = interest("i1", "x");
    i1.download_path = Some("/media/shows".to_string());
    state.interests = vec![i1, interest("i2", "y")];
    state.pending_matches = vec![
        pending("m1", "i1", Some("magnet:?xt=1"), Some("https://x/1.torrent")),
        pending("m2", "i2", None, Some("https://x/2.torrent")),
        pending("m3", "i2", None, None),
    ];
    let d = approve_match(&mut state, "m1").unwrap();
    assert_eq!(d.uri, "magnet:?xt=1");
    assert!(d.is_magnet);
    let o = d.options.unwrap();
    assert_eq!(o.output_folder, Some("/media/shows".to_string()));
    assert_eq!(o.only_files, None);
    assert_eq!(state.pending_matches.len(), 2);
    assert_eq!(state.pending_matches[0].id, "m2");
    let d2 = approve_match(&mut state, "m2").unwrap();
    assert_eq!(d2.uri, "https://x/2.torrent");
    assert!(!d2.is_magnet);
    assert!(d2.options.is_none());
    assert!(matches!(approve_match(&mut state, "nope"), Err(WhenThenError::NotFound(m)) if m == "Match not found"));
    assert_eq!(state.pending_matches.len(), 1);
    assert!(matches!(approve_match(&mut state, "m3"), Err(WhenThenError::InvalidInput(m)) if m == "No torrent URI"));
    assert_eq!(state.pending_matches.len(), 0);
}

#[test]
fn reject_removes_only_the_named_match() {
    let mut state = RssState::new();
    state.pending_matches = vec![
        pending("m1", "i1", Some("magnet:?xt=1"), None),
        pending("m2", "i1", Some("magnet:?xt=2"), None),
    ];
    assert!(matches!(reject_match(&mut state, "zz"), Err(WhenThenError::NotFound(_))));
    assert_eq!(state.pending_matches.len(), 2);
    assert_eq!(reject_match(&mut state, "m1").unwrap(), 1);
    assert_eq!(state.pending_matches[0].id, "m2");
    assert_eq!(state.seen_items.len(), 0);
}

#[test]
fn metadata_is_attached_to_a_waiting_match() {
    let mut state = RssState::new();
    state.pending_matches = vec![
        pending("m1", "i1", None, Some("https://x/1.torrent")),
        pending("m2", "i1", None, None),
    ];
    assert_eq!(metadata_request(&state, "m1").unwrap(), "https://x/1.torrent");
    assert!(matches!(metadata_request(&state, "m2"), Err(WhenThenError::InvalidInput(_))));
    assert!(matches!(metadata_request(&state, "m9"), Err(WhenThenError::NotFound(_))));
    let files = vec![("Movie.MKV".to_string(), 700u64), ("run.exe".to_string(), 5u64), ("a.txt".to_string(), 1u64)];
    let meta = build_metadata("Movie".to_string(), &files, true).unwrap();
    assert_eq!(meta.total_size, 706);
    assert_eq!(meta.file_count, 3);
    assert!(meta.files[0].is_video && !meta.files[0].is_suspicious);
    assert!(!meta.files[1].is_video && meta.files[1].is_suspicious);
    assert!(!meta.files[2].is_video && !meta.files[2].is_suspicious);
    assert_eq!(meta.files[1].name, "run.exe");
    assert!(attach_metadata(&mut state, "m1", meta.clone()));
    assert!(!attach_metadata(&mut state, "m9", meta));
    assert_eq!(state.pending_matches[0].metadata.as_ref().unwrap().total_size, 706);
    assert_eq!(state.pending_matches[0].id, "m1");
    assert!(state.pending_matches[1].metadata.is_none());
    assert!(matches!(
        build_metadata("x".to_string(), &vec![], true),
        Err(WhenThenError::Torrent(m)) if m == "Metadata fetch timed out"
    ));
    assert_eq!(build_metadata("x".to_string(), &vec![], false).unwrap().file_count, 0);
    assert!(is_video_file("a.ts") && is_video_file("A.WebM") && !is_video_file("a.tsx"));
    assert!(is_suspicious_file("x.JS") && is_suspicious_file("x.ps1") && !is_suspicious_file("x.json"));
}

fn bad(hash: &str, title: &str, interest_id: Option<&str>) -> BadItem {
    BadItem {
        info_hash: hash.to_string(),
        title: title.to_string(),
        interest_id: interest_id.map(|s| s.to_string()),
        interest_name: None,
        marked_at: "2024-01-01T00:00:00+00:00".to_string(),
        reason: None,
    }
}

#[test]
fn bad_items_are_keyed_by_hash() {
    let mut state = RssState::new();
    state.pending_matches = vec![pending("m1", "i1", Some("magnet:?xt=1"), None)];
    assert_eq!(mark_bad(&mut state, bad("h1", "one", Some("i1")), true), Some("i1".to_string()));
    assert_eq!(mark_bad(&mut state, bad("h2", "two", Some("i1")), false), None);
    assert_eq!(mark_bad(&mut state, bad("h1", "one again", None), true), None);
    assert_eq!(state.bad_items.len(), 2);
    assert_eq!(state.bad_items[0].title, "one again");
    assert_eq!(state.bad_items[1].info_hash, "h2");
    assert_eq!(state.pending_matches.len(), 1);
    unmark_bad(&mut state, "h1");
    assert_eq!(state.bad_items.len(), 1);
    assert_eq!(state.bad_items[0].info_hash, "h2");
    unmark_bad(&mut state, "h1");
    assert_eq!(state.bad_items.len(), 1);
}

#[test]
fn recheck_names_the_interest_or_fails() {
    let mut off = interest("i2", "y");
    off.enabled = false;
    let interests = vec![interest("i1", "x"), off];
    assert_eq!(recheck_interest(&interests, "i1").unwrap(), Some(0));
    assert_eq!(recheck_interest(&interests, "i2").unwrap(), None);
    assert!(matches!(
        recheck_interest(&interests, "i3"),
        Err(WhenThenError::NotFound(m)) if m == "Interest not found"
    ));
}

#[test]
fn registries_add_update_toggle_remove() {
    let mut sources: Vec<Source> = Vec::new();
    assert!(add_source(&mut sources, source("a", "https://a.example/rss")).is_ok());
    assert!(add_source(&mut sources, source("b", "https://b.example/rss")).is_ok());
    assert!(matches!(
        add_source(&mut sources, source("c", "https://a.example/rss")),
        Err(WhenThenError::InvalidInput(m)) if m == "Source URL already exists"
    ));
    assert_eq!(sources.len(), 2);
    let mut changed = source("b", "https://b2.example/rss");
    changed.name = "renamed".to_string();
    assert!(update_source(&mut sources, changed).is_ok());
    assert_eq!(sources[1].name, "renamed");
    assert_eq!(sources[1].url, "https://b2.example/rss");
    assert!(matches!(
        update_source(&mut sources, source("zz", "u")),
        Err(WhenThenError::NotFound(m)) if m == "Source not found"
    ));
    assert!(toggle_source(&mut sources, "a", false).is_ok());
    assert!(!sources[0].enabled);
    assert_eq!(sources[0].id, "a");
    assert!(sources[1].enabled);
    assert!(matches!(toggle_source(&mut sources, "zz", true), Err(WhenThenError::NotFound(_))));
    remove_source(&mut sources, "a");
    assert_eq!(sources.len(), 1);
    assert_eq!(sources[0].id, "b");
    remove_source(&mut sources, "a");
    assert_eq!(sources.len(), 1);

    let mut interests: Vec<Interest> = Vec::new();
    add_interest(&mut interests, interest("i1", "x"));
    add_interest(&mut interests, interest("i2", "y"));
    let mut upd = interest("i2", "z");
    upd.smart_episode_filter = true;
    assert!(update_interest(&mut interests, upd).is_ok());
    assert!(interests[1].smart_episode_filter);
    assert!(matches!(
        update_interest(&mut interests, interest("i9", "q")),
        Err(WhenThenError::NotFound(m)) if m == "Interest not found"
    ));
    assert!(toggle_interest(&mut interests, "i1", false).is_ok());
    assert!(!interests[0].enabled);
    assert!(matches!(toggle_interest(&mut interests, "i9", false), Err(WhenThenError::NotFound(_))));
    remove_interest(&mut interests, "i1");
    assert_eq!(interests.len(), 1);
    assert_eq!(interests[0].id, "i2");
}

#[test]
fn stale_seen_items_are_purged() {
    let mut seen = SeenItems::new();
    assert!(seen.check_and_insert("k1".to_string(), "2024-01-01T00:00:00+00:00".to_string()));
    assert!(seen.check_and_insert("k2".to_string(), "2023-10-01T00:00:00+00:00".to_string()));
    assert!(seen.check_and_insert("k3".to_string(), "garbage".to_string()));
    assert!(seen.check_and_insert("k4".to_string(), "2024-01-01T03:00:00+02:00".to_string()));
    assert!(!seen.check_and_insert("k1".to_string(), "2024-02-02T00:00:00+00:00".to_string()));
    assert_eq!(seen.len(), 4);
    assert_eq!(seen.timestamp_at(0), "2024-01-01T00:00:00+00:00");
    assert!(!maybe_cleanup_seen_items(&mut seen, 3599, T0 + 86400));
    assert_eq!(seen.len(), 4);
    assert!(maybe_cleanup_seen_items(&mut seen, 3600, T0 + 86400));
    assert_eq!(seen.len(), 2);
    assert_eq!(seen.key_at(0), "k1");
    assert_eq!(seen.key_at(1), "k4");
    assert_eq!(seen.purge(T0 + 5_184_000 - 1), 0);
    assert_eq!(seen.purge(T0 + 5_184_000), 1);
    assert_eq!(seen.key_at(0), "k4");
    assert!(is_fresh(Some(0), 5_183_999));
    assert!(!is_fresh(Some(0), 5_184_000));
    assert!(!is_fresh(None, 0));
    assert!(is_fresh(Some(i64::MAX), i64::MIN));
    assert!(!is_fresh(Some(i64::MIN), i64::MAX));
}

fn link(href: &str, rel: Option<&str>, media_type: Option<&str>) -> FeedLink {
    FeedLink {
        href: href.to_string(),
        rel: rel.map(|s| s.to_string()),
        media_type: media_type.map(|s| s.to_string()),
    }
}

fn entry(links: Vec<FeedLink>) -> FeedEntry {
    FeedEntry {
        id: "e1".to_string(),
        title: Some("Title 1.5 GB".to_string()),
        links,
        media_urls: vec![],
        content_body: None,
        summary: None,
        published: Some("2024-01-01T00:00:00+00:00".to_string()),
        size: Some(1_610_612_736),
    }
}

#[test]
fn entries_are_normalized() {
    let e = entry(vec![
        link("https://x/page.html", None, None),
        link("https://x/enc", Some("enclosure"), None),
        link("https://x/other", Some("enclosure"), None),
        link("magnet:?xt=urn:btih:1", None, None),
        link("https://x/file.torrent", None, None),
        link("https://x/bt", None, Some("application/x-bittorrent")),
    ]);
    let it = normalize_entry(&e);
    assert_eq!(it.id, "e1");
    assert_eq!(it.guid, "e1");
    assert_eq!(it.title, "Title 1.5 GB");
    assert_eq!(it.magnet_uri, Some("magnet:?xt=urn:btih:1".to_string()));
    assert_eq!(it.torrent_url, Some("https://x/file.torrent".to_string()));
    assert_eq!(it.size, Some(1_610_612_736));
    assert_eq!(it.published_date, Some("2024-01-01T00:00:00+00:00".to_string()));

    let mut m = entry(vec![link("https://x/bt", None, Some("application/x-bittorrent"))]);
    m.media_urls = vec!["https://x/media".to_string(), "magnet:?xt=2".to_string(), "https://x/m.torrent".to_string()];
    m.title = None;
    let it = normalize_entry(&m);
    assert_eq!(it.title, "");
    assert_eq!(it.magnet_uri, Some("magnet:?xt=2".to_string()));
    assert_eq!(it.torrent_url, Some("https://x/m.torrent".to_string()));

    let mut t = entry(vec![link("https://x/page.html", None, None)]);
    t.content_body = Some("nothing here".to_string());
    t.summary = Some("get it: <a href=\"magnet:?xt=3&dn=a\">here</a>".to_string());
    let it = normalize_entry(&t);
    assert_eq!(it.magnet_uri, Some("magnet:?xt=3&dn=a".to_string()));
    assert_eq!(it.torrent_url, None);

    let f = entry(vec![
        link("https://x/download.html", None, None),
        link("https://x/wiki/download", None, None),
        link("https://x/get.php?id=1", None, None),
        link("https://x/torrent/2", None, None),
    ]);
    let it = normalize_entry(&f);
    assert_eq!(it.magnet_uri, None);
    assert_eq!(it.torrent_url, Some("https://x/get.php?id=1".to_string()));

    let all = parse_feed_entries(&vec![e, f]);
    assert_eq!(all.len(), 2);
    assert_eq!(all[1].torrent_url, Some("https://x/get.php?id=1".to_string()));
    assert_eq!(normalize_entry(&entry(vec![])).torrent_url, None);
}

#[test]
fn magnet_links_end_at_whitespace_or_quotes() {
    assert_eq!(extract_magnet_from_text("see magnet:?xt=1&dn=x now"), Some("magnet:?xt=1&dn=x".to_string()));
    assert_eq!(extract_magnet_from_text("magnet:?xt=1"), Some("magnet:?xt=1".to_string()));
    assert_eq!(extract_magnet_from_text("'magnet:?xt=1'"), Some("magnet:?xt=1".to_string()));
    assert_eq!(extract_magnet_from_text("magnet:?a<b magnet:?c"), Some("magnet:?a".to_string()));
    assert_eq!(extract_magnet_from_text("magnet: nothing"), None);
}

#[test]
fn feed_preview_counts_matches() {
    let mut big = item("c", "ubuntu server");
    big.size = Some(5);
    let items = vec![item("a", "ubuntu desktop"), item("b", "fedora"), big];
    let filters = vec![FeedFilter {
        filter_type: FilterType::MustContain,
        value: "ubuntu".to_string(),
        enabled: true,
    }];
    let r = test_items(&items, &filters);
    assert_eq!(r.total_count, 3);
    assert_eq!(r.matched_count, 2);
    assert_eq!(r.items.len(), 3);
    assert!(r.items[0].matches);
    assert_eq!(r.items[0].matched_filter, Some("contains \"ubuntu\"".to_string()));
    assert!(!r.items[1].matches);
    assert_eq!(r.items[1].matched_filter, None);
    assert_eq!(r.items[1].title, "fedora");
    assert_eq!(r.items[2].size, Some(5));
}

fn config() -> ScraperConfig {
    ScraperConfig {
        id: "c1".to_string(),
        name: "Site".to_string(),
        base_url: "https://site.example".to_string(),
        search_url_template: Some("https://site.example/s?q={search}".to_string()),
        item_selector: "tr".to_string(),
        title_selector: "td.t".to_string(),
        link_selector: "a".to_string(),
        size_selector: None,
        enabled: true,
        request_delay_ms: 500,
    }
}

fn row(title: &str, href: Option<&str>, text: &str) -> ScrapedRow {
    ScrapedRow {
        title: title.to_string(),
        href: href.map(|s| s.to_string()),
        link_text: text.to_string(),
        size: Some(42),
    }
}

#[test]
fn scraped_rows_become_items() {
    let c = config();
    let rows = vec![
        row("  Ubuntu ISO \n", Some("magnet:?xt=1"), ""),
        row("   ", Some("magnet:?xt=2"), ""),
        row("Relative", Some("/download/3"), ""),
        row("Absolute", Some("https://o.example/f.torrent"), ""),
        row("In text", Some("#"), "copy magnet:?xt=5 now"),
        row("No link", None, "magnet:?xt=6"),
        row("Plain page", Some("/about"), "about"),
    ];
    let items = parse_page(&rows, &c);
    assert_eq!(items.len(), 4);
    assert_eq!(items[0].title, "Ubuntu ISO");
    assert_eq!(items[0].magnet_uri, Some("magnet:?xt=1".to_string()));
    assert_eq!(items[0].size, Some(42));
    assert_eq!(items[1].torrent_url, Some("https://site.example/download/3".to_string()));
    assert_eq!(items[1].magnet_uri, None);
    assert_eq!(items[2].torrent_url, Some("https://o.example/f.torrent".to_string()));
    assert_eq!(items[3].magnet_uri, Some("magnet:?xt=5".to_string()));
    assert!(scraped_item_from(&rows[5], "b").is_none());
    let i = interest("i1", "ubuntu");
    assert_eq!(
        whenthen::scraper::build_search_url(&c, &i),
        Some("https://site.example/s?q=Interest%20i1".to_string())
    );
    let mut bare = config();
    bare.search_url_template = None;
    assert_eq!(whenthen::scraper::build_search_url(&bare, &i), None);
    assert_eq!(whenthen::scraper::scrape_url(&bare, &i), "https://site.example");
    assert_eq!(whenthen::scraper::scrape_url(&c, &i), "https://site.example/s?q=Interest%20i1");
    assert_eq!(whenthen::scraper::trial_url(&c), "https://site.example/s?q={search}");
    assert_eq!(whenthen::scraper::trial_url(&bare), "https://site.example");
    let r = whenthen::scraper::test_result(items);
    assert_eq!(r.total_count, 4);
    assert_eq!(r.items.len(), 4);
}

#[test]
fn scraped_items_are_matched_once() {
    let c = config();
    let i = interest("i1", "ubuntu");
    let items = vec![
        ScrapedItem { title: "Ubuntu ISO".to_string(), magnet_uri: Some("magnet:?xt=1".to_string()), torrent_url: None, size: None },
        ScrapedItem { title: "Fedora ISO".to_string(), magnet_uri: Some("magnet:?xt=2".to_string()), torrent_url: None, size: None },
    ];
    let mut seen = SeenItems::new();
    let mut queue: Vec<PendingMatch> = Vec::new();
    assert_eq!(process_scraped_items(&mut seen, &mut queue, &c, &i, &items, "now"), 1);
    assert_eq!(seen.len(), 2);
    assert!(seen.contains_key("c1:i1:Ubuntu ISO"));
    assert_eq!(queue[0].source_name, "Site (scraper)");
    assert_eq!(queue[0].source_id, "c1");
    assert_eq!(queue[0].title, "Ubuntu ISO");
    assert_eq!(queue[0].created_at, "now");
    assert_eq!(process_scraped_items(&mut seen, &mut queue, &c, &i, &items, "later"), 0);
    assert_eq!(queue.len(), 1);
}

#[test]
fn fresh_match_identifiers_differ() {
    let mut state = RssState::new();
    let src = source("s1", "https://x.example/rss");
    let interests = vec![interest("i1", "iso")];
    let items = vec![item("a", "a iso"), item("b", "b iso")];
    assert_eq!(process_standard_items(&mut state, &src, &interests, &items, "t"), 2);
    assert_ne!(state.pending_matches[0].id, state.pending_matches[1].id);
    assert_eq!(state.pending_matches[0].id.len(), 36);
}

#[test]
fn default_settings() {
    let c = AppConfig::with_download_directory("/tmp/dl".to_string());
    assert_eq!(c.download_directory, "/tmp/dl");
    assert_eq!(c.rss_check_interval_minutes, 15);
    assert_eq!(default_rss_interval(), 15);
    assert_eq!(c.theme, ThemeMode::System);
    assert_eq!(c.locale, "system");
    assert_eq!(c.subtitle_languages, vec!["en".to_string()]);
    assert_eq!(c.listen_port, 4240);
    assert_eq!(c.media_server_port, 9080);
}

#[test]
fn fetch_plans_follow_the_url() {
    let mut off = interest("i2", "y");
    off.enabled = false;
    let mut named = interest("i3", "z");
    named.search_term = Some("a b".to_string());
    let interests = vec![interest("i1", "x"), off, named];
    let mut plain = source("s1", "https://x.example/rss");
    plain.etag = Some("e".to_string());
    match plan_fetch(&plain, &interests) {
        FetchPlan::Conditional { url, etag, last_modified } => {
            assert_eq!(url, "https://x.example/rss");
            assert_eq!(etag, Some("e".to_string()));
            assert_eq!(last_modified, None);
        }
        FetchPlan::PerInterest { .. } => panic!("a plain URL is fetched once"),
    }
    let mut search = source("s2", "https://x.example/?q={search}");
    search.etag = Some("e".to_string());
    match plan_fetch(&search, &interests) {
        FetchPlan::PerInterest { requests } => {
            assert_eq!(requests.len(), 2);
            assert_eq!(requests[0].interest_index, 0);
            assert_eq!(requests[0].url, "https://x.example/?q=Interest%20i1");
            assert_eq!(requests[1].interest_index, 2);
            assert_eq!(requests[1].url, "https://x.example/?q=a%20b");
        }
        FetchPlan::Conditional { .. } => panic!("a template is fetched per interest"),
    }
}

#[test]
fn on_demand_checks_take_every_enabled_source() {
    let mut a = source("a", "https://a.example/rss");
    a.retry_after = Some("2999-01-01T00:00:00+00:00".to_string());
    let mut b = source("b", "https://b.example/rss");
    b.enabled = false;
    let c = source("c", "https://c.example/rss");
    let sources = vec![a, b, c];
    assert_eq!(enabled_sources(&sources, &vec![interest("i", "x")]), vec![0, 2]);
    assert_eq!(enabled_sources(&sources, &vec![]), Vec::<usize>::new());
}

#[test]
fn errors_render_with_their_category() {
    assert_eq!(WhenThenError::NotFound("Match not found".to_string()).message(), "Not found: Match not found");
    assert_eq!(WhenThenError::InvalidInput("No torrent URI".to_string()).message(), "Invalid input: No torrent URI");
    assert_eq!(WhenThenError::TorrentNotFound(1203).message(), "Torrent not found: 1203");
    assert_eq!(WhenThenError::TorrentNotFound(0).message(), "Torrent not found: 0");
    assert_eq!(WhenThenError::Rss("timeout".to_string()).message(), "RSS error: timeout");
    assert_eq!(WhenThenError::Scraper("bad".to_string()).category(), "Scraper error: ");
    assert_eq!(WhenThenError::Torrent("x".to_string()).message(), "Torrent error: x");
    assert_eq!(WhenThenError::Internal("x".to_string()).message(), "Internal error: x");
    assert_eq!(WhenThenError::Config("x".to_string()).message(), "Config error: x");
    assert_eq!(WhenThenError::DeviceNotFound("x".to_string()).message(), "Device not found: x");
    assert_eq!(WhenThenError::CastConnection("x".to_string()).message(), "Cast connection error: x");
    assert_eq!(WhenThenError::CastPlayback("x".to_string()).message(), "Cast playback error: x");
    assert_eq!(WhenThenError::UnsupportedFormat("x".to_string()).message(), "Unsupported format: x");
    assert_eq!(WhenThenError::FileNotFound("x".to_string()).message(), "File not found: x");
    assert_eq!(WhenThenError::SubtitleParse("x".to_string()).message(), "Subtitle parse error: x");
    assert_eq!(WhenThenError::OpenSubtitles("x".to_string()).message(), "OpenSubtitles error: x");
}

#[test]
fn locale_follows_the_language_tag() {
    assert_eq!(locale_for("es_ES.UTF-8"), "es");
    assert_eq!(locale_for("ES-mx"), "es");
    assert_eq!(locale_for("en_US"), "en");
    assert_eq!(locale_for(""), "en");
}

#[test]
fn stored_entries_are_restored_fresh_and_once() {
    let entries = vec![
        SeenEntry { key: "a".to_string(), timestamp: "2024-01-01T00:00:00+00:00".to_string() },
        SeenEntry { key: "b".to_string(), timestamp: "2020-01-01T00:00:00+00:00".to_string() },
        SeenEntry { key: "a".to_string(), timestamp: "2024-01-02T00:00:00+00:00".to_string() },
        SeenEntry { key: "c".to_string(), timestamp: "".to_string() },
        SeenEntry { key: "d".to_string(), timestamp: "2024-01-01T00:00:01Z".to_string() },
    ];
    let seen = SeenItems::restore(&entries, T0 + 60);
    assert_eq!(seen.len(), 2);
    assert_eq!(seen.key_at(0), "a");
    assert_eq!(seen.timestamp_at(0), "2024-01-01T00:00:00+00:00");
    assert_eq!(seen.key_at(1), "d");
    assert!(!seen.contains_key("b"));
}

#[test]
fn announced_sizes_are_found_with_their_unit() {
    let t = size_tokens("Some.Movie 1.5 GB x264", false).unwrap();
    assert_eq!(t.number, "1.5");
    assert_eq!(t.unit_shift, 30);
    let t = size_tokens("700MiB and 2 GB", false).unwrap();
    assert_eq!(t.number, "700");
    assert_eq!(t.unit_shift, 20);
    assert!(size_tokens("2 TB", false).is_none());
    assert_eq!(size_tokens("2 TiB", true).unwrap().unit_shift, 40);
    assert_eq!(size_tokens("12 KB", true).unwrap().unit_shift, 10);
    assert!(size_tokens("no size here", true).is_none());
    assert_eq!(unit_shift("KiB"), 10);
    assert_eq!(unit_shift("bytes"), 0);
}

#[test]
fn a_tick_without_enabled_interests_is_skipped() {
    let mut a = source("a", "https://a.example/rss");
    a.next_check_at = Some("2024-01-01T00:00:00+00:00".to_string());
    let b = source("b", "https://b.example/rss");
    let sources = vec![a, b];
    let mut off = interest("i", "x");
    off.enabled = false;
    assert!(plan_tick(&sources, &vec![off], T0, 10_000, 15).is_none());
    let interests = vec![interest("i", "x")];
    let p = plan_tick(&sources, &interests, T0, 899, 15).unwrap();
    assert!(!p.global_due);
    assert_eq!(p.due, vec![0]);
    let p = plan_tick(&sources, &interests, T0, 900, 15).unwrap();
    assert!(p.global_due);
    assert_eq!(p.due, vec![0, 1]);
}
