use whenthen::backoff::calculate_backoff;
use whenthen::engine::{process_items_for_interest, process_standard_items, RssState};
use whenthen::episodes::{extract_episode_id, format_episode, is_quality_upgrade};
use whenthen::filters::{
    evaluate_filters, evaluate_filters_with_logic, size_in_range, size_within, wildcard_to_regex,
};
use whenthen::models::{
    FeedFilter, FilterLogic, FilterType, Interest, ParsedFeedItem, Source,
};

fn filter(kind: FilterType, value: &str) -> FeedFilter {
    FeedFilter { filter_type: kind, value: value.to_string(), enabled: true }
}

fn item(id: &str, title: &str) -> ParsedFeedItem {
    ParsedFeedItem {
        id: id.to_string(),
        guid: format!("guid-{}", id),
        title: title.to_string(),
        magnet_uri: Some("magnet:?xt=urn:btih:abc".to_string()),
        torrent_url: None,
        size: None,
        published_date: None,
    }
}

fn source(url: &str) -> Source {
    Source {
        id: "src1".to_string(),
        name: "Example".to_string(),
        url: url.to_string(),
        enabled: true,
        check_interval_minutes: None,
        last_checked: None,
        next_check_at: None,
        etag: None,
        last_modified: None,
        failure_count: 0,
        retry_after: None,
        use_guid_dedup: false,
    }
}

fn interest(id: &str, filters: Vec<FeedFilter>, smart: bool) -> Interest {
    Interest {
        id: id.to_string(),
        name: format!("Interest {}", id),
        enabled: true,
        filters,
        filter_logic: FilterLogic::And,
        search_term: None,
        smart_episode_filter: smart,
        download_path: None,
    }
}

#[test]
fn no_enabled_filters_matches_everything() {
    let it = item("a", "anything at all");
    assert_eq!(evaluate_filters(&it, &[]), Some("no filters".to_string()));
    let mut f = filter(FilterType::MustContain, "zzz");
    f.enabled = false;
    assert_eq!(
        evaluate_filters_with_logic(&it, &[f], &FilterLogic::Or),
        Some("no filters".to_string())
    );
}

#[test]
fn must_contain_is_case_insensitive() {
    let it = item("a", "Ubuntu-24.04-Desktop.iso");
    let f = filter(FilterType::MustContain, "UBUNTU");
    assert_eq!(evaluate_filters(&it, &[f]), Some("contains \"UBUNTU\"".to_string()));
    let g = filter(FilterType::MustContain, "fedora");
    assert_eq!(evaluate_filters(&it, &[g]), None);
}

#[test]
fn must_not_contain_excludes() {
    let it = item("a", "Show.S01E01.CAM");
    let f = filter(FilterType::MustNotContain, "cam");
    assert_eq!(evaluate_filters(&it, &[f]), None);
    let g = filter(FilterType::MustNotContain, "hdtv");
    assert_eq!(evaluate_filters(&it, &[g]), Some("excludes \"hdtv\"".to_string()));
}

#[test]
fn regex_filter_is_case_sensitive_and_fails_closed() {
    let it = item("a", "Show.S01E01.1080p");
    assert_eq!(
        evaluate_filters(&it, &[filter(FilterType::Regex, r"S\d+E\d+")]),
        Some("regex /S\\d+E\\d+/".to_string())
    );
    assert_eq!(evaluate_filters(&it, &[filter(FilterType::Regex, r"show")]), None);
    assert_eq!(evaluate_filters(&it, &[filter(FilterType::Regex, r"(unclosed")]), None);
}

#[test]
fn wildcard_filter_translates_and_escapes() {
    assert_eq!(wildcard_to_regex("a*b?c.d"), "a.*b.c\\.d");
    assert_eq!(wildcard_to_regex("(x)[y]{z}|+^$\\"), "\\(x\\)\\[y\\]\\{z\\}\\|\\+\\^\\$\\\\");
    let it = item("a", "Show.Name.S01E01.1080p");
    assert_eq!(
        evaluate_filters(&it, &[filter(FilterType::Wildcard, "show*1080?")]),
        Some("wildcard \"show*1080?\"".to_string())
    );
    assert_eq!(evaluate_filters(&it, &[filter(FilterType::Wildcard, "showXname")]), None);
}

#[test]
fn size_range_bounds_are_inclusive() {
    let mb = 1024 * 1024;
    assert!(size_in_range(Some(100 * mb), "100-500"));
    assert!(size_in_range(Some(500 * mb), "100-500"));
    assert!(size_in_range(Some(500 * mb + mb - 1), "100-500"));
    assert!(!size_in_range(Some(99 * mb), "100-500"));
    assert!(!size_in_range(Some(501 * mb), "100-500"));
    assert!(size_in_range(Some(7), "garbage"));
    assert!(size_in_range(Some(7), "1-2-3"));
    assert!(size_in_range(Some(700 * mb), "x-y"));
    assert!(size_in_range(Some(700 * mb), "-800"));
    assert!(!size_in_range(Some(700 * mb), "-600"));
    assert!(size_within(5 * mb, None, None));
    assert!(!size_within(5 * mb, Some(6), None));
}

#[test]
fn size_range_rejects_item_larger_than_bounds() {
    let mut it = item("a", "big file");
    it.size = Some(1_073_741_824);
    assert_eq!(evaluate_filters(&it, &[filter(FilterType::SizeRange, "100-500")]), None);
}

#[test]
fn unknown_size_passes_size_range() {
    let it = item("a", "some file");
    assert_eq!(
        evaluate_filters(&it, &[filter(FilterType::SizeRange, "100-500")]),
        Some("size 100-500".to_string())
    );
    assert!(size_in_range(None, "9-1"));
}

#[test]
fn and_needs_all_or_needs_one() {
    let it = item("a", "ubuntu desktop");
    let fs = vec![filter(FilterType::MustContain, "ubuntu"), filter(FilterType::MustContain, "server")];
    assert_eq!(evaluate_filters_with_logic(&it, &fs, &FilterLogic::And), None);
    assert_eq!(
        evaluate_filters_with_logic(&it, &fs, &FilterLogic::Or),
        Some("contains \"ubuntu\"".to_string())
    );
    let gs = vec![filter(FilterType::MustContain, "ubuntu"), filter(FilterType::MustNotContain, "server")];
    assert_eq!(
        evaluate_filters_with_logic(&it, &gs, &FilterLogic::And),
        Some("contains \"ubuntu\", excludes \"server\"".to_string())
    );
    assert_eq!(
        evaluate_filters_with_logic(&it, &gs, &FilterLogic::Or),
        Some("contains \"ubuntu\", excludes \"server\"".to_string())
    );
    let hs = vec![filter(FilterType::MustContain, "x1"), filter(FilterType::MustContain, "x2")];
    assert_eq!(evaluate_filters_with_logic(&it, &hs, &FilterLogic::Or), None);
}

#[test]
fn episode_ids_are_canonical() {
    assert_eq!(extract_episode_id("Show.S01E01.1080p"), Some("S01E01".to_string()));
    assert_eq!(extract_episode_id("Show.s1e2.720p"), Some("S01E02".to_string()));
    assert_eq!(extract_episode_id("Show 3x07 HDTV"), Some("S03E07".to_string()));
    assert_eq!(extract_episode_id("Daily.2024.01.15.WEB"), Some("2024-01-15".to_string()));
    assert_eq!(extract_episode_id("Daily 2024-01-15"), Some("2024-01-15".to_string()));
    assert_eq!(extract_episode_id("ubuntu-24.04-desktop.iso"), None);
    assert_eq!(format_episode(12, 5), "S12E05");
    assert_eq!(format_episode(0, 123), "S00E123");
}

#[test]
fn quality_upgrade_markers() {
    assert!(is_quality_upgrade("Show.S01E01.PROPER.720p"));
    assert!(is_quality_upgrade("Show.S01E01.repack"));
    assert!(is_quality_upgrade("Show.S01E01.ReRip"));
    assert!(!is_quality_upgrade("Show.S01E01.720p"));
}

#[test]
fn backoff_doubles_then_caps() {
    assert_eq!(calculate_backoff(0), 60);
    assert_eq!(calculate_backoff(1), 60);
    assert_eq!(calculate_backoff(2), 120);
    assert_eq!(calculate_backoff(3), 240);
    assert_eq!(calculate_backoff(4), 480);
    assert_eq!(calculate_backoff(5), 960);
    assert_eq!(calculate_backoff(6), 1800);
    assert_eq!(calculate_backoff(7), 1800);
    assert_eq!(calculate_backoff(u32::MAX), 1800);
    let mut last = 0;
    for n in 0..40u32 {
        let b = calculate_backoff(n);
        assert!(last <= b && b <= 1800);
        last = b;
    }
}

#[test]
fn repolling_an_unchanged_feed_queues_nothing() {
    let mut state = RssState::new();
    let src = source("https://feed.example/rss");
    let interests = vec![interest("i1", vec![filter(FilterType::MustContain, "ubuntu")], false)];
    let mut it = item("a1", "ubuntu-24.04-desktop.iso");
    it.magnet_uri = Some("magnet:?xt=...".to_string());
    let items = vec![it];
    let n = process_standard_items(&mut state, &src, &interests, &items, "2024-01-01T00:00:00+00:00");
    assert_eq!(n, 1);
    assert_eq!(state.pending_matches.len(), 1);
    assert_eq!(state.seen_items.len(), 1);
    assert_eq!(state.seen_items.key_at(0), "src1:a1");
    assert_eq!(state.seen_items.timestamp_at(0), "2024-01-01T00:00:00+00:00");
    let m = &state.pending_matches[0];
    assert_eq!(m.source_id, "src1");
    assert_eq!(m.source_name, "Example");
    assert_eq!(m.interest_id, "i1");
    assert_eq!(m.title, "ubuntu-24.04-desktop.iso");
    assert_eq!(m.magnet_uri, Some("magnet:?xt=...".to_string()));
    assert_eq!(m.created_at, "2024-01-01T00:00:00+00:00");
    assert!(m.metadata.is_none());
    assert!(!m.id.is_empty());
    let again = process_standard_items(&mut state, &src, &interests, &items, "2024-01-01T00:15:00+00:00");
    assert_eq!(again, 0);
    assert_eq!(state.pending_matches.len(), 1);
    assert_eq!(state.seen_items.len(), 1);
}

#[test]
fn upgrades_pass_the_episode_gate_and_plain_duplicates_do_not() {
    let mut state = RssState::new();
    let src = source("https://feed.example/rss");
    let interests = vec![interest("i1", vec![], true)];
    let items = vec![
        item("1", "Show.S01E01.1080p"),
        item("2", "Show.S01E01.1080p.REPACK"),
        item("3", "Show.S01E01.720p"),
    ];
    let n = process_standard_items(&mut state, &src, &interests, &items, "t");
    assert_eq!(n, 2);
    assert_eq!(state.pending_matches[0].title, "Show.S01E01.1080p");
    assert_eq!(state.pending_matches[1].title, "Show.S01E01.1080p.REPACK");
    assert_eq!(state.seen_episodes.len(), 1);
    assert!(state.seen_episodes.would_duplicate("i1", "S01E01"));
    assert!(state.seen_items.contains_key("src1:1"));
    assert!(state.seen_items.contains_key("src1:2"));
    assert!(!state.seen_items.contains_key("src1:3"));
    assert_eq!(process_standard_items(&mut state, &src, &interests, &items, "u"), 0);
    assert_eq!(state.pending_matches.len(), 2);
}

#[test]
fn first_matching_interest_wins() {
    let mut state = RssState::new();
    let src = source("https://feed.example/rss");
    let mut off = interest("i0", vec![], false);
    off.enabled = false;
    let interests = vec![
        off,
        interest("i1", vec![filter(FilterType::MustContain, "fedora")], false),
        interest("i2", vec![filter(FilterType::MustContain, "ubuntu")], false),
        interest("i3", vec![], false),
    ];
    let items = vec![item("a", "ubuntu iso")];
    assert_eq!(process_standard_items(&mut state, &src, &interests, &items, "t"), 1);
    assert_eq!(state.pending_matches[0].interest_id, "i2");
}

#[test]
fn items_without_a_link_are_marked_seen_and_never_queued() {
    let mut state = RssState::new();
    let mut src = source("https://feed.example/rss");
    src.use_guid_dedup = true;
    let interests = vec![interest("i1", vec![], false)];
    let mut it = item("a", "no link here");
    it.magnet_uri = None;
    let items = vec![it];
    assert_eq!(process_standard_items(&mut state, &src, &interests, &items, "t"), 0);
    assert_eq!(state.pending_matches.len(), 0);
    assert!(state.seen_items.contains_key("src1:guid-a"));
}

#[test]
fn placeholder_mode_keys_by_interest_and_marks_everything_seen() {
    let mut state = RssState::new();
    let src = source("https://feed.example/rss?q={search}");
    let i1 = interest("i1", vec![filter(FilterType::MustContain, "ubuntu")], false);
    let items = vec![item("a", "ubuntu iso"), item("b", "fedora iso")];
    assert_eq!(process_items_for_interest(&mut state, &src, &i1, &items, true, "t"), 1);
    assert!(state.seen_items.contains_key("src1:i1:a"));
    assert!(state.seen_items.contains_key("src1:i1:b"));
    assert_eq!(state.seen_items.len(), 2);
    assert_eq!(process_items_for_interest(&mut state, &src, &i1, &items, true, "t"), 0);
    assert_eq!(state.pending_matches.len(), 1);
    assert_eq!(process_items_for_interest(&mut state, &src, &i1, &items, false, "t"), 1);
    assert!(state.seen_items.contains_key("src1:a"));
}
