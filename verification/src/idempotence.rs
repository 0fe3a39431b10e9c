//! Polling an unchanged feed a second time changes nothing.

use vstd::prelude::*;
use crate::engine::{
    first_taker, gated_episode, has_link, interest_key, item_key, poll_interest,
    poll_standard, step_interest, step_standard, takes, Ledgers, MatchFacts,
};
use crate::ledger::{has_key, has_mark};
use crate::models::{Interest, ParsedFeedItem, ScrapedItem, ScraperConfig, Source};
use crate::scraper::{poll_scraped, scraped_key};

verus! {

/// Every key and every episode mark of `a` is in `b`.
pub open spec fn extends(a: Ledgers, b: Ledgers) -> bool {
    &&& forall|k: Seq<char>| has_key(a.seen, k) ==> has_key(b.seen, k)
    &&& forall|i: Seq<char>, e: Seq<char>| #[trigger]
        has_mark(a.episodes, i, e) ==> has_mark(b.episodes, i, e)
}

/// The item can no longer change the ledgers: it is seen, or it has a link and
/// no interest takes it.
pub open spec fn settled(
    l: Ledgers,
    source: Source,
    interests: Seq<Interest>,
    item: ParsedFeedItem,
) -> bool {
    has_key(l.seen, item_key(source, item)) || (has_link(item) && first_taker(
        l.episodes,
        interests,
        item,
        0,
    ) is None)
}

proof fn lemma_push_key(s: Seq<(Seq<char>, Seq<char>)>, p: (Seq<char>, Seq<char>))
    ensures
        has_key(s.push(p), p.0),
        forall|k: Seq<char>| has_key(s, k) ==> has_key(s.push(p), k),
{
    assert(s.push(p)[s.len() as int].0 == p.0);
    assert forall|k: Seq<char>| has_key(s, k) implies has_key(s.push(p), k) by {
        let w = choose|i: int| 0 <= i < s.len() && (#[trigger] s[i]).0 == k;
        assert(s.push(p)[w].0 == k);
    }
}

proof fn lemma_push_mark(s: Seq<(Seq<char>, Seq<char>)>, p: (Seq<char>, Seq<char>))
    ensures
        has_mark(s.push(p), p.0, p.1),
        forall|i: Seq<char>, e: Seq<char>| #[trigger]
            has_mark(s, i, e) ==> has_mark(s.push(p), i, e),
{
    assert(s.push(p)[s.len() as int] == p);
    assert forall|i: Seq<char>, e: Seq<char>| #[trigger] has_mark(s, i, e) implies has_mark(
        s.push(p),
        i,
        e,
    ) by {
        let w = choose|x: int| 0 <= x < s.len() && #[trigger] s[x] == (i, e);
        assert(s.push(p)[w] == (i, e));
    }
}

/// What `first_taker` returns: the least index at or after `from` whose
/// interest takes the item, or nothing when there is none.
pub proof fn lemma_first_taker(
    episodes: Seq<(Seq<char>, Seq<char>)>,
    interests: Seq<Interest>,
    item: ParsedFeedItem,
    from: int,
)
    requires
        0 <= from,
    ensures
        match first_taker(episodes, interests, item, from) {
            Some(i) => from <= i < interests.len() && takes(episodes, interests[i], item)
                && forall|j: int| from <= j < i ==> !takes(episodes, #[trigger] interests[j], item),
            None => forall|j: int|
                from <= j < interests.len() ==> !takes(episodes, #[trigger] interests[j], item),
        },
    decreases interests.len() - from,
{
    if from < interests.len() && !takes(episodes, interests[from], item) {
        lemma_first_taker(episodes, interests, item, from + 1);
    }
}

/// An interest whose episode gate is on does not take a plain release of an
/// episode it has been offered already.
pub proof fn lemma_seen_episode_is_not_taken(
    episodes: Seq<(Seq<char>, Seq<char>)>,
    interest: Interest,
    item: ParsedFeedItem,
    episode: Seq<char>,
)
    requires
        gated_episode(interest, item.title@) == Some(episode),
        has_mark(episodes, interest.id@, episode),
    ensures
        !takes(episodes, interest, item),
{
}

/// An item whose key is in the ledger never changes the ledgers or the queue.
pub proof fn lemma_seen_item_is_skipped(
    l: Ledgers,
    source: Source,
    interests: Seq<Interest>,
    interest: Interest,
    item: ParsedFeedItem,
    use_interest_key: bool,
    now: Seq<char>,
)
    ensures
        has_key(l.seen, item_key(source, item)) ==> step_standard(l, source, interests, item, now)
            == l,
        has_key(l.seen, poll_key(source, interest, item, use_interest_key)) ==> step_interest(
            l,
            source,
            interest,
            item,
            use_interest_key,
            now,
        ) == l,
{
}

/// A step only adds to the ledgers.
pub proof fn lemma_step_extends(
    l: Ledgers,
    source: Source,
    interests: Seq<Interest>,
    item: ParsedFeedItem,
    now: Seq<char>,
)
    ensures
        extends(l, step_standard(l, source, interests, item, now)),
{
    let key = item_key(source, item);
    lemma_push_key(l.seen, (key, now));
    match first_taker(l.episodes, interests, item, 0) {
        Some(i) => {
            match gated_episode(interests[i], item.title@) {
                Some(e) => {
                    lemma_push_mark(l.episodes, (interests[i].id@, e));
                },
                None => {},
            }
        },
        None => {},
    }
}

/// After its step an item is settled.
pub proof fn lemma_step_settles(
    l: Ledgers,
    source: Source,
    interests: Seq<Interest>,
    item: ParsedFeedItem,
    now: Seq<char>,
)
    ensures
        settled(step_standard(l, source, interests, item, now), source, interests, item),
{
    let key = item_key(source, item);
    lemma_push_key(l.seen, (key, now));
}

/// A settled item stays settled when the ledgers grow.
pub proof fn lemma_settled_stays(
    a: Ledgers,
    b: Ledgers,
    source: Source,
    interests: Seq<Interest>,
    item: ParsedFeedItem,
)
    requires
        extends(a, b),
        settled(a, source, interests, item),
    ensures
        settled(b, source, interests, item),
{
    if !has_key(a.seen, item_key(source, item)) {
        lemma_first_taker(a.episodes, interests, item, 0);
        lemma_first_taker(b.episodes, interests, item, 0);
        match first_taker(b.episodes, interests, item, 0) {
            Some(i) => {
                assert(takes(b.episodes, interests[i], item));
                assert(!takes(a.episodes, interests[i], item));
                match gated_episode(interests[i], item.title@) {
                    Some(e) => {
                        assert(has_mark(a.episodes, interests[i].id@, e));
                    },
                    None => {},
                }
            },
            None => {},
        }
    }
}

/// The step of a settled item changes nothing, whatever the time.
pub proof fn lemma_settled_fixed(
    l: Ledgers,
    source: Source,
    interests: Seq<Interest>,
    item: ParsedFeedItem,
    now: Seq<char>,
)
    requires
        settled(l, source, interests, item),
    ensures
        step_standard(l, source, interests, item, now) == l,
{
}

/// A poll only adds to the ledgers, and leaves every one of its items settled.
pub proof fn lemma_poll_settles(
    l: Ledgers,
    source: Source,
    interests: Seq<Interest>,
    items: Seq<ParsedFeedItem>,
    now: Seq<char>,
)
    ensures
        extends(l, poll_standard(l, source, interests, items, now)),
        forall|j: int|
            0 <= j < items.len() ==> settled(
                poll_standard(l, source, interests, items, now),
                source,
                interests,
                #[trigger] items[j],
            ),
    decreases items.len(),
{
    if items.len() > 0 {
        let mid = poll_standard(l, source, interests, items.drop_last(), now);
        let end = poll_standard(l, source, interests, items, now);
        lemma_poll_settles(l, source, interests, items.drop_last(), now);
        lemma_step_extends(mid, source, interests, items.last(), now);
        lemma_step_settles(mid, source, interests, items.last(), now);
        assert forall|j: int| 0 <= j < items.len() implies settled(
            end,
            source,
            interests,
            #[trigger] items[j],
        ) by {
            if j < items.len() - 1 {
                assert(items.drop_last()[j] == items[j]);
                lemma_settled_stays(mid, end, source, interests, items[j]);
            }
        }
    }
}

/// A poll whose items are all settled changes nothing.
pub proof fn lemma_poll_fixed(
    l: Ledgers,
    source: Source,
    interests: Seq<Interest>,
    items: Seq<ParsedFeedItem>,
    now: Seq<char>,
)
    requires
        forall|j: int| 0 <= j < items.len() ==> settled(l, source, interests, #[trigger] items[j]),
    ensures
        poll_standard(l, source, interests, items, now) == l,
    decreases items.len(),
{
    if items.len() > 0 {
        assert forall|j: int| 0 <= j < items.drop_last().len() implies settled(
            l,
            source,
            interests,
            #[trigger] items.drop_last()[j],
        ) by {
            assert(items.drop_last()[j] == items[j]);
        }
        lemma_poll_fixed(l, source, interests, items.drop_last(), now);
        lemma_settled_fixed(l, source, interests, items[items.len() - 1], now);
    }
}

/// Polling a source again with the same feed and the same interests, at any
/// later time, leaves the seen items, the seen episodes and the queue exactly
/// as the first poll left them: no item is queued a second time.
pub proof fn lemma_repoll_changes_nothing(
    l: Ledgers,
    source: Source,
    interests: Seq<Interest>,
    items: Seq<ParsedFeedItem>,
    first: Seq<char>,
    second: Seq<char>,
)
    ensures
        poll_standard(
            poll_standard(l, source, interests, items, first),
            source,
            interests,
            items,
            second,
        ) == poll_standard(l, source, interests, items, first),
{
    lemma_poll_settles(l, source, interests, items, first);
    lemma_poll_fixed(
        poll_standard(l, source, interests, items, first),
        source,
        interests,
        items,
        second,
    );
}

/// The key under which a feed fetched for one interest remembers an item.
pub open spec fn poll_key(
    source: Source,
    interest: Interest,
    item: ParsedFeedItem,
    use_interest_key: bool,
) -> Seq<char> {
    if use_interest_key {
        interest_key(source, interest, item)
    } else {
        item_key(source, item)
    }
}

/// A poll for one interest keeps every key, and marks each of its items seen.
pub proof fn lemma_interest_poll_marks(
    l: Ledgers,
    source: Source,
    interest: Interest,
    items: Seq<ParsedFeedItem>,
    use_interest_key: bool,
    now: Seq<char>,
)
    ensures
        forall|k: Seq<char>|
            has_key(l.seen, k) ==> has_key(
                poll_interest(l, source, interest, items, use_interest_key, now).seen,
                k,
            ),
        forall|j: int|
            0 <= j < items.len() ==> has_key(
                poll_interest(l, source, interest, items, use_interest_key, now).seen,
                poll_key(source, interest, #[trigger] items[j], use_interest_key),
            ),
    decreases items.len(),
{
    if items.len() > 0 {
        let mid = poll_interest(l, source, interest, items.drop_last(), use_interest_key, now);
        let end = poll_interest(l, source, interest, items, use_interest_key, now);
        let key = poll_key(source, interest, items.last(), use_interest_key);
        lemma_interest_poll_marks(l, source, interest, items.drop_last(), use_interest_key, now);
        lemma_push_key(mid.seen, (key, now));
        assert(has_key(end.seen, key));
        assert forall|j: int| 0 <= j < items.len() implies has_key(
            end.seen,
            poll_key(source, interest, #[trigger] items[j], use_interest_key),
        ) by {
            if j < items.len() - 1 {
                assert(items.drop_last()[j] == items[j]);
            }
        }
    }
}

/// A poll for one interest whose items are all seen changes nothing.
pub proof fn lemma_interest_poll_fixed(
    l: Ledgers,
    source: Source,
    interest: Interest,
    items: Seq<ParsedFeedItem>,
    use_interest_key: bool,
    now: Seq<char>,
)
    requires
        forall|j: int|
            0 <= j < items.len() ==> has_key(
                l.seen,
                poll_key(source, interest, #[trigger] items[j], use_interest_key),
            ),
    ensures
        poll_interest(l, source, interest, items, use_interest_key, now) == l,
    decreases items.len(),
{
    if items.len() > 0 {
        assert forall|j: int| 0 <= j < items.drop_last().len() implies has_key(
            l.seen,
            poll_key(source, interest, #[trigger] items.drop_last()[j], use_interest_key),
        ) by {
            assert(items.drop_last()[j] == items[j]);
        }
        lemma_interest_poll_fixed(l, source, interest, items.drop_last(), use_interest_key, now);
        assert(has_key(
            l.seen,
            poll_key(source, interest, items[items.len() - 1], use_interest_key),
        ));
    }
}

/// Fetching the same feed for the same interest again, at any later time,
/// leaves the ledgers and the queue exactly as the first poll left them.
pub proof fn lemma_interest_repoll_changes_nothing(
    l: Ledgers,
    source: Source,
    interest: Interest,
    items: Seq<ParsedFeedItem>,
    use_interest_key: bool,
    first: Seq<char>,
    second: Seq<char>,
)
    ensures
        poll_interest(
            poll_interest(l, source, interest, items, use_interest_key, first),
            source,
            interest,
            items,
            use_interest_key,
            second,
        ) == poll_interest(l, source, interest, items, use_interest_key, first),
{
    lemma_interest_poll_marks(l, source, interest, items, use_interest_key, first);
    lemma_interest_poll_fixed(
        poll_interest(l, source, interest, items, use_interest_key, first),
        source,
        interest,
        items,
        use_interest_key,
        second,
    );
}

/// A scrape keeps every key of the scraper's ledger, and marks each of its
/// items seen.
pub proof fn lemma_scrape_marks(
    l: (Seq<(Seq<char>, Seq<char>)>, Seq<MatchFacts>),
    config: ScraperConfig,
    interest: Interest,
    items: Seq<ScrapedItem>,
    now: Seq<char>,
)
    ensures
        forall|k: Seq<char>|
            has_key(l.0, k) ==> has_key(poll_scraped(l, config, interest, items, now).0, k),
        forall|j: int|
            0 <= j < items.len() ==> has_key(
                poll_scraped(l, config, interest, items, now).0,
                scraped_key(config, interest, #[trigger] items[j]),
            ),
    decreases items.len(),
{
    if items.len() > 0 {
        let mid = poll_scraped(l, config, interest, items.drop_last(), now);
        let end = poll_scraped(l, config, interest, items, now);
        let key = scraped_key(config, interest, items.last());
        lemma_scrape_marks(l, config, interest, items.drop_last(), now);
        lemma_push_key(mid.0, (key, now));
        assert(has_key(end.0, key));
        assert forall|j: int| 0 <= j < items.len() implies has_key(
            end.0,
            scraped_key(config, interest, #[trigger] items[j]),
        ) by {
            if j < items.len() - 1 {
                assert(items.drop_last()[j] == items[j]);
            }
        }
    }
}

/// A scrape whose items are all seen changes nothing.
pub proof fn lemma_scrape_fixed(
    l: (Seq<(Seq<char>, Seq<char>)>, Seq<MatchFacts>),
    config: ScraperConfig,
    interest: Interest,
    items: Seq<ScrapedItem>,
    now: Seq<char>,
)
    requires
        forall|j: int|
            0 <= j < items.len() ==> has_key(
                l.0,
                scraped_key(config, interest, #[trigger] items[j]),
            ),
    ensures
        poll_scraped(l, config, interest, items, now) == l,
    decreases items.len(),
{
    if items.len() > 0 {
        assert forall|j: int| 0 <= j < items.drop_last().len() implies has_key(
            l.0,
            scraped_key(config, interest, #[trigger] items.drop_last()[j]),
        ) by {
            assert(items.drop_last()[j] == items[j]);
        }
        lemma_scrape_fixed(l, config, interest, items.drop_last(), now);
        assert(has_key(l.0, scraped_key(config, interest, items[items.len() - 1])));
    }
}

/// Scraping the same page for the same interest again, at any later time,
/// leaves the scraper's ledger and the queue exactly as the first scrape left
/// them.
pub proof fn lemma_rescrape_changes_nothing(
    l: (Seq<(Seq<char>, Seq<char>)>, Seq<MatchFacts>),
    config: ScraperConfig,
    interest: Interest,
    items: Seq<ScrapedItem>,
    first: Seq<char>,
    second: Seq<char>,
)
    ensures
        poll_scraped(poll_scraped(l, config, interest, items, first), config, interest, items, second)
            == poll_scraped(l, config, interest, items, first),
{
    lemma_scrape_marks(l, config, interest, items, first);
    lemma_scrape_fixed(
        poll_scraped(l, config, interest, items, first),
        config,
        interest,
        items,
        second,
    );
}

} // verus!
