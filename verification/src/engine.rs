//! Matching the items of one poll against the interests, behind the dedup
//! gates, into the pending-match queue.
//!
//! The engine state is one value; whoever holds `&mut RssState` holds the
//! ledgers exclusively, so the membership check, the filter evaluation and the
//! insert of one item cannot interleave with another poll.

use vstd::prelude::*;
use vstd::string::*;
use crate::episodes::{episode_id, extract_episode_id, is_quality_upgrade, is_upgrade};
use crate::filters::{evaluate_filters_with_logic, filters_match};
use crate::ledger::{has_key, has_mark, SeenEpisodes, SeenItems};
use crate::models::{
    copy_opt, opt_text, BadItem, Interest, ParsedFeedItem, PendingMatch, Source,
};
use crate::outside::fresh_id;

verus! {

/// Everything the engine remembers between polls.
#[derive(Debug, Clone)]
pub struct RssState {
    pub sources: Vec<Source>,
    pub interests: Vec<Interest>,
    pub seen_items: SeenItems,
    pub bad_items: Vec<BadItem>,
    pub pending_matches: Vec<PendingMatch>,
    pub seen_episodes: SeenEpisodes,
}

/// What a pending match says, apart from its identifier.
pub struct MatchFacts {
    pub source_id: Seq<char>,
    pub source_name: Seq<char>,
    pub interest_id: Seq<char>,
    pub interest_name: Seq<char>,
    pub title: Seq<char>,
    pub magnet_uri: Option<Seq<char>>,
    pub torrent_url: Option<Seq<char>>,
    pub created_at: Seq<char>,
    pub has_metadata: bool,
}

/// The part of the state that a poll may change.
pub struct Ledgers {
    pub seen: Seq<(Seq<char>, Seq<char>)>,
    pub episodes: Seq<(Seq<char>, Seq<char>)>,
    pub queued: Seq<MatchFacts>,
}

/// The facts of one pending match.
pub open spec fn facts(m: PendingMatch) -> MatchFacts {
    MatchFacts {
        source_id: m.source_id@,
        source_name: m.source_name@,
        interest_id: m.interest_id@,
        interest_name: m.interest_name@,
        title: m.title@,
        magnet_uri: opt_text(m.magnet_uri),
        torrent_url: opt_text(m.torrent_url),
        created_at: m.created_at@,
        has_metadata: m.metadata is Some,
    }
}

/// The facts of a queue, in queue order.
pub open spec fn queue_facts(q: Seq<PendingMatch>) -> Seq<MatchFacts> {
    Seq::new(q.len(), |i: int| facts(q[i]))
}

impl RssState {
    /// Both ledgers are free of duplicates.
    pub open spec fn wf(&self) -> bool {
        self.seen_items.wf() && self.seen_episodes.wf()
    }

    /// The ledgers and the queue, as a poll sees them.
    pub open spec fn ledgers(&self) -> Ledgers {
        Ledgers {
            seen: self.seen_items@,
            episodes: self.seen_episodes@,
            queued: queue_facts(self.pending_matches@),
        }
    }

    /// A state with nothing configured and nothing remembered.
    pub fn new() -> (r: Self)
        ensures
            r.wf(),
            r.sources@.len() == 0,
            r.interests@.len() == 0,
            r.bad_items@.len() == 0,
            r.pending_matches@.len() == 0,
            r.seen_items@.len() == 0,
            r.seen_episodes@.len() == 0,
    {
        RssState {
            sources: Vec::new(),
            interests: Vec::new(),
            seen_items: SeenItems::new(),
            bad_items: Vec::new(),
            pending_matches: Vec::new(),
            seen_episodes: SeenEpisodes::new(),
        }
    }
}

/// The part of an item that identifies it within its source.
pub open spec fn base_id(source: Source, item: ParsedFeedItem) -> Seq<char> {
    if source.use_guid_dedup {
        item.guid@
    } else {
        item.id@
    }
}

/// The dedup key of an item of a source: `source:item`.
pub open spec fn item_key(source: Source, item: ParsedFeedItem) -> Seq<char> {
    source.id@ + seq![':'] + base_id(source, item)
}

/// The dedup key of an item fetched for one interest: `source:interest:item`.
pub open spec fn interest_key(source: Source, interest: Interest, item: ParsedFeedItem) -> Seq<
    char,
> {
    source.id@ + seq![':'] + interest.id@ + seq![':'] + base_id(source, item)
}

/// Whether an item can lead to a download at all.
pub open spec fn has_link(item: ParsedFeedItem) -> bool {
    item.magnet_uri is Some || item.torrent_url is Some
}

/// Whether the interest's filters accept the item.
pub open spec fn interest_matches(interest: Interest, item: ParsedFeedItem) -> bool {
    filters_match(item.title@, item.size, interest.filters@, interest.filter_logic)
}

/// Whether the episode gate applies to this interest and title, and with which
/// identifier.
pub open spec fn gated_episode(interest: Interest, title: Seq<char>) -> Option<Seq<char>> {
    if interest.smart_episode_filter && !is_upgrade(title) {
        episode_id(title)
    } else {
        None
    }
}

/// Whether the interest takes the item: it is enabled, its filters accept the
/// item, and the episode gate lets it through.
pub open spec fn takes(
    episodes: Seq<(Seq<char>, Seq<char>)>,
    interest: Interest,
    item: ParsedFeedItem,
) -> bool {
    &&& interest.enabled
    &&& interest_matches(interest, item)
    &&& match gated_episode(interest, item.title@) {
        Some(e) => !has_mark(episodes, interest.id@, e),
        None => true,
    }
}

/// The first interest at or after `from` that takes the item.
pub open spec fn first_taker(
    episodes: Seq<(Seq<char>, Seq<char>)>,
    interests: Seq<Interest>,
    item: ParsedFeedItem,
    from: int,
) -> Option<int>
    decreases interests.len() - from,
{
    if from < 0 || from >= interests.len() {
        None
    } else if takes(episodes, interests[from], item) {
        Some(from)
    } else {
        first_taker(episodes, interests, item, from + 1)
    }
}

/// The facts of the match that `interest` gets for `item`.
pub open spec fn new_match(
    source: Source,
    interest: Interest,
    item: ParsedFeedItem,
    now: Seq<char>,
) -> MatchFacts {
    MatchFacts {
        source_id: source.id@,
        source_name: source.name@,
        interest_id: interest.id@,
        interest_name: interest.name@,
        title: item.title@,
        magnet_uri: opt_text(item.magnet_uri),
        torrent_url: opt_text(item.torrent_url),
        created_at: now,
        has_metadata: false,
    }
}

/// The ledgers after `interest` took `item` under `key`.
pub open spec fn accept(
    l: Ledgers,
    key: Seq<char>,
    source: Source,
    interest: Interest,
    item: ParsedFeedItem,
    now: Seq<char>,
) -> Ledgers {
    Ledgers {
        seen: l.seen.push((key, now)),
        episodes: match gated_episode(interest, item.title@) {
            Some(e) => l.episodes.push((interest.id@, e)),
            None => l.episodes,
        },
        queued: l.queued.push(new_match(source, interest, item, now)),
    }
}

/// One item of a source polled once for all interests. A seen item changes
/// nothing. An item without a link is marked seen. Otherwise the first interest
/// that takes it gets a pending match and the item is marked seen; if none
/// does, nothing is recorded.
pub open spec fn step_standard(
    l: Ledgers,
    source: Source,
    interests: Seq<Interest>,
    item: ParsedFeedItem,
    now: Seq<char>,
) -> Ledgers {
    let key = item_key(source, item);
    if has_key(l.seen, key) {
        l
    } else if !has_link(item) {
        Ledgers { seen: l.seen.push((key, now)), ..l }
    } else {
        match first_taker(l.episodes, interests, item, 0) {
            Some(i) => accept(l, key, source, interests[i], item, now),
            None => l,
        }
    }
}

/// All items of one poll, in feed order.
pub open spec fn poll_standard(
    l: Ledgers,
    source: Source,
    interests: Seq<Interest>,
    items: Seq<ParsedFeedItem>,
    now: Seq<char>,
) -> Ledgers
    decreases items.len(),
{
    if items.len() == 0 {
        l
    } else {
        step_standard(
            poll_standard(l, source, interests, items.drop_last(), now),
            source,
            interests,
            items.last(),
            now,
        )
    }
}

/// One item of a feed fetched for a single interest. A seen item changes
/// nothing; every other item is marked seen, and is queued when it has a link
/// and the interest takes it.
pub open spec fn step_interest(
    l: Ledgers,
    source: Source,
    interest: Interest,
    item: ParsedFeedItem,
    use_interest_key: bool,
    now: Seq<char>,
) -> Ledgers {
    let key = if use_interest_key {
        interest_key(source, interest, item)
    } else {
        item_key(source, item)
    };
    if has_key(l.seen, key) {
        l
    } else if has_link(item) && interest_matches(interest, item) && match gated_episode(
        interest,
        item.title@,
    ) {
        Some(e) => !has_mark(l.episodes, interest.id@, e),
        None => true,
    } {
        accept(l, key, source, interest, item, now)
    } else {
        Ledgers { seen: l.seen.push((key, now)), ..l }
    }
}

/// All items fetched for a single interest, in feed order.
pub open spec fn poll_interest(
    l: Ledgers,
    source: Source,
    interest: Interest,
    items: Seq<ParsedFeedItem>,
    use_interest_key: bool,
    now: Seq<char>,
) -> Ledgers
    decreases items.len(),
{
    if items.len() == 0 {
        l
    } else {
        step_interest(
            poll_interest(l, source, interest, items.drop_last(), use_interest_key, now),
            source,
            interest,
            items.last(),
            use_interest_key,
            now,
        )
    }
}

/// Builds the dedup key of an item, with the interest in it when asked.
pub fn build_item_key(
    source: &Source,
    interest: Option<&Interest>,
    item: &ParsedFeedItem,
) -> (r: String)
    ensures
        r@ == match interest {
            Some(i) => interest_key(*source, *i, *item),
            None => item_key(*source, *item),
        },
{
    let mut key = source.id.clone();
    key.push(':');
    match interest {
        Some(i) => {
            key.append(i.id.as_str());
            key.push(':');
        },
        None => {},
    }
    if source.use_guid_dedup {
        key.append(item.guid.as_str());
    } else {
        key.append(item.id.as_str());
    }
    proof {
        match interest {
            Some(i) => {
                assert(key@ =~= interest_key(*source, *i, *item));
            },
            None => {
                assert(key@ =~= item_key(*source, *item));
            },
        }
    }
    key
}

/// Decides whether `interest` takes `item`, and returns the episode to record
/// if the episode gate was consulted.
fn interest_takes(episodes: &SeenEpisodes, interest: &Interest, item: &ParsedFeedItem) -> (r: (
    bool,
    Option<String>,
))
    ensures
        r.0 == (interest_matches(*interest, *item) && match gated_episode(
            *interest,
            item.title@,
        ) {
            Some(e) => !has_mark(episodes@, interest.id@, e),
            None => true,
        }),
        r.0 ==> opt_text(r.1) == gated_episode(*interest, item.title@),
{
    let matched = evaluate_filters_with_logic(
        item,
        interest.filters.as_slice(),
        &interest.filter_logic,
    );
    if matched.is_none() {
        return (false, None);
    }
    if interest.smart_episode_filter && !is_quality_upgrade(item.title.as_str()) {
        match extract_episode_id(item.title.as_str()) {
            Some(e) => {
                if episodes.would_duplicate(interest.id.as_str(), e.as_str()) {
                    (false, None)
                } else {
                    (true, Some(e))
                }
            },
            None => (true, None),
        }
    } else {
        (true, None)
    }
}

/// Records that `interest` took `item`: the key, the episode if there is one
/// to record, and a new pending match with a fresh identifier.
fn enqueue(
    state: &mut RssState,
    key: String,
    episode: Option<String>,
    source: &Source,
    interest: &Interest,
    item: &ParsedFeedItem,
    now: &str,
)
    requires
        old(state).wf(),
        !has_key(old(state).seen_items@, key@),
        opt_text(episode) == gated_episode(*interest, item.title@),
        episode matches Some(e) ==> !has_mark(old(state).seen_episodes@, interest.id@, e@),
    ensures
        final(state).wf(),
        final(state).ledgers() == accept(
            old(state).ledgers(),
            key@,
            *source,
            *interest,
            *item,
            now@,
        ),
        final(state).pending_matches@.len() == old(state).pending_matches@.len() + 1,
        final(state).pending_matches@.take(old(state).pending_matches@.len() as int) == old(state).pending_matches@,
        final(state).sources == old(state).sources,
        final(state).interests == old(state).interests,
        final(state).bad_items == old(state).bad_items,
{
    let ghost before = state.pending_matches@;
    state.seen_items.insert_new(key, now.to_owned());
    match episode {
        Some(e) => {
            state.seen_episodes.record(interest.id.clone(), e);
        },
        None => {},
    }
    let pending = PendingMatch {
        id: fresh_id(),
        source_id: source.id.clone(),
        source_name: source.name.clone(),
        interest_id: interest.id.clone(),
        interest_name: interest.name.clone(),
        title: item.title.clone(),
        magnet_uri: copy_opt(&item.magnet_uri),
        torrent_url: copy_opt(&item.torrent_url),
        created_at: now.to_owned(),
        metadata: None,
    };
    assert(facts(pending) == new_match(*source, *interest, *item, now@));
    state.pending_matches.push(pending);
    assert(state.pending_matches@.take(before.len() as int) =~= before);
    assert(queue_facts(state.pending_matches@) =~= queue_facts(before).push(
        new_match(*source, *interest, *item, now@),
    ));
}

/// Marks an item seen without queueing it.
fn mark_seen(state: &mut RssState, key: String, now: &str)
    requires
        old(state).wf(),
        !has_key(old(state).seen_items@, key@),
    ensures
        final(state).wf(),
        final(state).ledgers() == (Ledgers {
            seen: old(state).ledgers().seen.push((key@, now@)),
            ..old(state).ledgers()
        }),
        final(state).pending_matches == old(state).pending_matches,
        final(state).sources == old(state).sources,
        final(state).interests == old(state).interests,
        final(state).bad_items == old(state).bad_items,
{
    state.seen_items.insert_new(key, now.to_owned());
}

/// Handles one item of a source that is polled once for all interests, and says
/// whether a pending match was queued.
pub fn process_standard_item(
    state: &mut RssState,
    source: &Source,
    interests: &Vec<Interest>,
    item: &ParsedFeedItem,
    now: &str,
) -> (queued: bool)
    requires
        old(state).wf(),
    ensures
        final(state).wf(),
        final(state).ledgers() == step_standard(
            old(state).ledgers(),
            *source,
            interests@,
            *item,
            now@,
        ),
        final(state).pending_matches@.len() == old(state).pending_matches@.len() + if queued {
            1int
        } else {
            0int
        },
        final(state).pending_matches@.take(old(state).pending_matches@.len() as int) == old(state).pending_matches@,
        final(state).sources == old(state).sources,
        final(state).interests == old(state).interests,
        final(state).bad_items == old(state).bad_items,
{
    let ghost before = state.pending_matches@;
    assert(before.take(before.len() as int) =~= before);
    let key = build_item_key(source, None, item);
    if state.seen_items.contains_key(key.as_str()) {
        return false;
    }
    if item.magnet_uri.is_none() && item.torrent_url.is_none() {
        mark_seen(state, key, now);
        return false;
    }
    let mut i: usize = 0;
    while i < interests.len()
        invariant
            i <= interests@.len(),
            first_taker(state.seen_episodes@, interests@, *item, 0) == first_taker(
                state.seen_episodes@,
                interests@,
                *item,
                i as int,
            ),
            *state == *old(state),
            state.wf(),
            has_link(*item),
            key@ == item_key(*source, *item),
            !has_key(state.seen_items@, key@),
            before == state.pending_matches@,
        decreases interests@.len() - i,
    {
        let interest = &interests[i];
        if interest.enabled {
            let (taken, episode) = interest_takes(&state.seen_episodes, interest, item);
            if taken {
                enqueue(state, key, episode, source, interest, item, now);
                return true;
            }
        }
        i += 1;
    }
    false
}

/// Matches the items of one poll against every enabled interest. Each unseen
/// item goes to the first interest that takes it; returns how many pending
/// matches were queued.
pub fn process_standard_items(
    state: &mut RssState,
    source: &Source,
    interests: &Vec<Interest>,
    items: &Vec<ParsedFeedItem>,
    now: &str,
) -> (count: usize)
    requires
        old(state).wf(),
    ensures
        final(state).wf(),
        final(state).ledgers() == poll_standard(
            old(state).ledgers(),
            *source,
            interests@,
            items@,
            now@,
        ),
        final(state).pending_matches@.len() == old(state).pending_matches@.len() + count,
        final(state).pending_matches@.take(old(state).pending_matches@.len() as int) == old(state).pending_matches@,
        final(state).sources == old(state).sources,
        final(state).interests == old(state).interests,
        final(state).bad_items == old(state).bad_items,
{
    let ghost start = state.pending_matches@;
    assert(start.take(start.len() as int) =~= start);
    let mut count: usize = 0;
    let mut i: usize = 0;
    while i < items.len()
        invariant
            i <= items@.len(),
            count <= i,
            state.wf(),
            state.ledgers() == poll_standard(
                old(state).ledgers(),
                *source,
                interests@,
                items@.take(i as int),
                now@,
            ),
            start == old(state).pending_matches@,
            state.pending_matches@.len() == start.len() + count,
            state.pending_matches@.take(start.len() as int) == start,
            state.sources == old(state).sources,
            state.interests == old(state).interests,
            state.bad_items == old(state).bad_items,
        decreases items@.len() - i,
    {
        let ghost mid = state.pending_matches@;
        proof {
            assert(items@.take(i + 1).drop_last() =~= items@.take(i as int));
            assert(items@.take(i + 1).last() == items@[i as int]);
        }
        if process_standard_item(state, source, interests, &items[i], now) {
            count += 1;
        }
        assert(state.pending_matches@.take(start.len() as int) =~= mid.take(start.len() as int));
        i += 1;
    }
    assert(items@.take(items@.len() as int) =~= items@);
    count
}

/// Handles one item of a feed fetched for a single interest, and says whether a
/// pending match was queued.
pub fn process_interest_item(
    state: &mut RssState,
    source: &Source,
    interest: &Interest,
    item: &ParsedFeedItem,
    use_interest_key: bool,
    now: &str,
) -> (queued: bool)
    requires
        old(state).wf(),
    ensures
        final(state).wf(),
        final(state).ledgers() == step_interest(
            old(state).ledgers(),
            *source,
            *interest,
            *item,
            use_interest_key,
            now@,
        ),
        final(state).pending_matches@.len() == old(state).pending_matches@.len() + if queued {
            1int
        } else {
            0int
        },
        final(state).pending_matches@.take(old(state).pending_matches@.len() as int) == old(state).pending_matches@,
        final(state).sources == old(state).sources,
        final(state).interests == old(state).interests,
        final(state).bad_items == old(state).bad_items,
{
    let ghost before = state.pending_matches@;
    assert(before.take(before.len() as int) =~= before);
    let key = if use_interest_key {
        build_item_key(source, Some(interest), item)
    } else {
        build_item_key(source, None, item)
    };
    if state.seen_items.contains_key(key.as_str()) {
        return false;
    }
    if item.magnet_uri.is_none() && item.torrent_url.is_none() {
        mark_seen(state, key, now);
        return false;
    }
    let (taken, episode) = interest_takes(&state.seen_episodes, interest, item);
    if taken {
        enqueue(state, key, episode, source, interest, item, now);
        true
    } else {
        mark_seen(state, key, now);
        false
    }
}

/// Matches the items fetched for one interest against that interest alone;
/// returns how many pending matches were queued.
pub fn process_items_for_interest(
    state: &mut RssState,
    source: &Source,
    interest: &Interest,
    items: &Vec<ParsedFeedItem>,
    use_interest_key: bool,
    now: &str,
) -> (count: usize)
    requires
        old(state).wf(),
    ensures
        final(state).wf(),
        final(state).ledgers() == poll_interest(
            old(state).ledgers(),
            *source,
            *interest,
            items@,
            use_interest_key,
            now@,
        ),
        final(state).pending_matches@.len() == old(state).pending_matches@.len() + count,
        final(state).pending_matches@.take(old(state).pending_matches@.len() as int) == old(state).pending_matches@,
        final(state).sources == old(state).sources,
        final(state).interests == old(state).interests,
        final(state).bad_items == old(state).bad_items,
{
    let ghost start = state.pending_matches@;
    assert(start.take(start.len() as int) =~= start);
    let mut count: usize = 0;
    let mut i: usize = 0;
    while i < items.len()
        invariant
            i <= items@.len(),
            count <= i,
            state.wf(),
            state.ledgers() == poll_interest(
                old(state).ledgers(),
                *source,
                *interest,
                items@.take(i as int),
                use_interest_key,
                now@,
            ),
            start == old(state).pending_matches@,
            state.pending_matches@.len() == start.len() + count,
            state.pending_matches@.take(start.len() as int) == start,
            state.sources == old(state).sources,
            state.interests == old(state).interests,
            state.bad_items == old(state).bad_items,
        decreases items@.len() - i,
    {
        let ghost mid = state.pending_matches@;
        proof {
            assert(items@.take(i + 1).drop_last() =~= items@.take(i as int));
            assert(items@.take(i + 1).last() == items@[i as int]);
        }
        if process_interest_item(state, source, interest, &items[i], use_interest_key, now) {
            count += 1;
        }
        assert(state.pending_matches@.take(start.len() as int) =~= mid.take(start.len() as int));
        i += 1;
    }
    assert(items@.take(items@.len() as int) =~= items@);
    count
}

} // verus!
