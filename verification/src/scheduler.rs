//! Deciding which sources are due, and what a finished check leaves behind.

use vstd::prelude::*;
use vstd::string::*;
use crate::backoff::{backoff_minutes, calculate_backoff};
use crate::engine::{poll_standard, process_standard_items, Ledgers, RssState};
use crate::models::{copy_opt, opt_text, FetchFeedResult, Interest, Source};
use crate::outside::{
    format_rfc3339, parse_rfc3339, percent_encode, percent_encoded, rfc3339_seconds, rfc3339_text,
};
use crate::text::{contains_seq, contains_text, replace_all, replaced};

verus! {

/// Whether a source URL is a search template.
pub open spec fn is_search_template(url: Seq<char>) -> bool {
    contains_seq(url, "{search}"@)
}

/// Checks if a URL contains the `{search}` placeholder.
pub fn has_search_placeholder(url: &str) -> (r: bool)
    ensures
        r == is_search_template(url@),
{
    contains_text(url, "{search}")
}

/// The term an interest searches for: its search term, or its name when it has
/// none or an empty one.
pub open spec fn search_term_of(interest: Interest) -> Seq<char> {
    match interest.search_term {
        Some(s) => if s@.len() > 0 {
            s@
        } else {
            interest.name@
        },
        None => interest.name@,
    }
}

/// Builds the URL to fetch for one interest: the template with `{search}`
/// replaced by the percent-encoded search term.
pub fn build_search_url(url_template: &str, interest: &Interest) -> (r: String)
    ensures
        r@ == replaced(url_template@, "{search}"@, percent_encoded(search_term_of(*interest))),
{
    let encoded = match &interest.search_term {
        Some(s) => if s.as_str().is_empty() {
            percent_encode(interest.name.as_str())
        } else {
            percent_encode(s.as_str())
        },
        None => percent_encode(interest.name.as_str()),
    };
    replace_all(url_template, "{search}", encoded.as_str())
}

/// One fetch of a search-template source: for which interest, and from where.
#[derive(Debug, Clone)]
pub struct SearchRequest {
    pub interest_index: usize,
    pub url: String,
}

/// How a source is fetched.
#[derive(Debug, Clone)]
pub enum FetchPlan {
    /// Once for all interests, with the cache tokens of the last fetch.
    Conditional { url: String, etag: Option<String>, last_modified: Option<String> },
    /// Once per enabled interest, without cache tokens.
    PerInterest { requests: Vec<SearchRequest> },
}

/// The indices of the enabled interests, in list order.
pub open spec fn enabled_interests(interests: Seq<Interest>) -> Seq<int>
    decreases interests.len(),
{
    if interests.len() == 0 {
        Seq::empty()
    } else {
        let rest = enabled_interests(interests.drop_last());
        if interests.last().enabled {
            rest.push(interests.len() - 1)
        } else {
            rest
        }
    }
}

/// Whether `requests` asks once for every enabled interest, in list order,
/// each time at the template filled in for that interest.
pub open spec fn asks_each_interest(
    requests: Seq<SearchRequest>,
    template: Seq<char>,
    interests: Seq<Interest>,
) -> bool {
    &&& requests.len() == enabled_interests(interests).len()
    &&& forall|k: int|
        0 <= k < requests.len() ==> {
            &&& (#[trigger] requests[k]).interest_index == enabled_interests(interests)[k]
            &&& 0 <= enabled_interests(interests)[k] < interests.len()
            &&& requests[k].url@ == replaced(
                template,
                "{search}"@,
                percent_encoded(search_term_of(interests[enabled_interests(interests)[k]])),
            )
        }
}

/// Decides how a source is fetched: a search template once per enabled
/// interest and never with cache tokens, any other URL once with the tokens of
/// its last fetch.
pub fn plan_fetch(source: &Source, interests: &Vec<Interest>) -> (plan: FetchPlan)
    ensures
        is_search_template(source.url@) ==> (plan matches FetchPlan::PerInterest { requests }
            && asks_each_interest(requests@, source.url@, interests@)),
        !is_search_template(source.url@) ==> (plan matches FetchPlan::Conditional {
            url,
            etag,
            last_modified,
        } && url@ == source.url@ && opt_text(etag) == opt_text(source.etag) && opt_text(
            last_modified,
        ) == opt_text(source.last_modified)),
{
    if !has_search_placeholder(source.url.as_str()) {
        return FetchPlan::Conditional {
            url: source.url.clone(),
            etag: copy_opt(&source.etag),
            last_modified: copy_opt(&source.last_modified),
        };
    }
    let mut requests: Vec<SearchRequest> = Vec::new();
    let mut i: usize = 0;
    while i < interests.len()
        invariant
            i <= interests@.len(),
            asks_each_interest(requests@, source.url@, interests@.take(i as int)),
        decreases interests@.len() - i,
    {
        let ghost prev = interests@.take(i as int);
        let ghost next = interests@.take(i + 1);
        let ghost before = requests@;
        proof {
            assert(next.drop_last() =~= prev);
            assert(next.last() == interests@[i as int]);
        }
        if interests[i].enabled {
            let url = build_search_url(source.url.as_str(), &interests[i]);
            requests.push(SearchRequest { interest_index: i, url });
        }
        proof {
            assert forall|k: int| 0 <= k < requests@.len() implies {
                &&& (#[trigger] requests@[k]).interest_index == enabled_interests(next)[k]
                &&& 0 <= enabled_interests(next)[k] < next.len()
                &&& requests@[k].url@ == replaced(
                    source.url@,
                    "{search}"@,
                    percent_encoded(search_term_of(next[enabled_interests(next)[k]])),
                )
            } by {
                if k < before.len() {
                    assert(requests@[k] == before[k]);
                    assert(enabled_interests(next)[k] == enabled_interests(prev)[k]);
                    assert(next[enabled_interests(prev)[k]] == prev[enabled_interests(prev)[k]]);
                }
            }
        }
        i += 1;
    }
    assert(interests@.take(interests@.len() as int) =~= interests@);
    FetchPlan::PerInterest { requests }
}

/// Whether the source must still wait after a failure. A retry time that
/// cannot be read does not hold the source back.
pub open spec fn in_backoff(source: Source, now: i64) -> bool {
    match source.retry_after {
        Some(t) => match rfc3339_seconds(t@) {
            Some(s) => now < s,
            None => false,
        },
        None => false,
    }
}

/// Whether the source's own schedule, or the global one when it has none, asks
/// for a check. A time that cannot be read asks for one.
pub open spec fn check_wanted(source: Source, now: i64, global_due: bool) -> bool {
    match source.next_check_at {
        Some(t) => match rfc3339_seconds(t@) {
            Some(s) => now >= s,
            None => true,
        },
        None => global_due,
    }
}

/// Whether the source is checked in this tick.
pub open spec fn source_due(source: Source, now: i64, global_due: bool) -> bool {
    source.enabled && !in_backoff(source, now) && check_wanted(source, now, global_due)
}

/// Whether some interest is enabled.
pub open spec fn any_enabled(interests: Seq<Interest>) -> bool {
    exists|i: int| 0 <= i < interests.len() && (#[trigger] interests[i]).enabled
}

/// The indices of the sources that are due, in list order.
pub open spec fn due_indices(sources: Seq<Source>, now: i64, global_due: bool) -> Seq<usize>
    decreases sources.len(),
{
    if sources.len() == 0 {
        Seq::empty()
    } else {
        let rest = due_indices(sources.drop_last(), now, global_due);
        if source_due(sources.last(), now, global_due) {
            rest.push((sources.len() - 1) as usize)
        } else {
            rest
        }
    }
}

/// Checks if a source is in its backoff period.
pub fn is_in_backoff(source: &Source, now: i64) -> (r: bool)
    ensures
        r == in_backoff(*source, now),
{
    match &source.retry_after {
        Some(t) => match parse_rfc3339(t.as_str()) {
            Some(s) => now < s,
            None => false,
        },
        None => false,
    }
}

/// Decides whether a source is checked in this tick.
pub fn is_source_due(source: &Source, now: i64, global_due: bool) -> (r: bool)
    ensures
        r == source_due(*source, now, global_due),
{
    if !source.enabled {
        return false;
    }
    if is_in_backoff(source, now) {
        return false;
    }
    match &source.next_check_at {
        Some(t) => match parse_rfc3339(t.as_str()) {
            Some(s) => now >= s,
            None => true,
        },
        None => global_due,
    }
}

/// Whether the global interval has passed since the last global pass.
pub fn global_check_is_due(elapsed_secs: u64, global_interval_minutes: u32) -> (r: bool)
    ensures
        r == (elapsed_secs >= global_interval_minutes * 60),
{
    let interval: u64 = global_interval_minutes as u64 * 60;
    elapsed_secs >= interval
}

/// Whether at least one interest is enabled.
pub fn has_enabled_interest(interests: &Vec<Interest>) -> (r: bool)
    ensures
        r == any_enabled(interests@),
{
    let mut i: usize = 0;
    while i < interests.len()
        invariant
            i <= interests@.len(),
            forall|j: int| 0 <= j < i ==> !(#[trigger] interests@[j]).enabled,
        decreases interests@.len() - i,
    {
        if interests[i].enabled {
            return true;
        }
        i += 1;
    }
    false
}

/// The indices of the enabled sources, in list order.
pub open spec fn enabled_indices(sources: Seq<Source>) -> Seq<usize>
    decreases sources.len(),
{
    if sources.len() == 0 {
        Seq::empty()
    } else {
        let rest = enabled_indices(sources.drop_last());
        if sources.last().enabled {
            rest.push((sources.len() - 1) as usize)
        } else {
            rest
        }
    }
}

/// Plans a check on demand: every enabled source, by index and in list order,
/// whatever its schedule and backoff. With no interest enabled nothing is
/// checked.
pub fn enabled_sources(sources: &Vec<Source>, interests: &Vec<Interest>) -> (r: Vec<usize>)
    ensures
        !any_enabled(interests@) ==> r@.len() == 0,
        any_enabled(interests@) ==> r@ == enabled_indices(sources@),
{
    let mut out: Vec<usize> = Vec::new();
    if !has_enabled_interest(interests) {
        return out;
    }
    let mut i: usize = 0;
    while i < sources.len()
        invariant
            i <= sources@.len(),
            out@ == enabled_indices(sources@.take(i as int)),
        decreases sources@.len() - i,
    {
        proof {
            assert(sources@.take(i + 1).drop_last() =~= sources@.take(i as int));
            assert(sources@.take(i + 1).last() == sources@[i as int]);
        }
        if sources[i].enabled {
            out.push(i);
        }
        i += 1;
    }
    assert(sources@.take(sources@.len() as int) =~= sources@);
    out
}

/// Plans one tick: the sources to check, by index and in list order. With no
/// interest enabled nothing is checked.
pub fn due_sources(
    sources: &Vec<Source>,
    interests: &Vec<Interest>,
    now: i64,
    global_due: bool,
) -> (r: Vec<usize>)
    ensures
        !any_enabled(interests@) ==> r@.len() == 0,
        any_enabled(interests@) ==> r@ == due_indices(sources@, now, global_due),
{
    let mut out: Vec<usize> = Vec::new();
    if !has_enabled_interest(interests) {
        return out;
    }
    let mut i: usize = 0;
    while i < sources.len()
        invariant
            i <= sources@.len(),
            out@ == due_indices(sources@.take(i as int), now, global_due),
        decreases sources@.len() - i,
    {
        proof {
            assert(sources@.take(i + 1).drop_last() =~= sources@.take(i as int));
            assert(sources@.take(i + 1).last() == sources@[i as int]);
        }
        if is_source_due(&sources[i], now, global_due) {
            out.push(i);
        }
        i += 1;
    }
    assert(sources@.take(sources@.len() as int) =~= sources@);
    out
}

/// What one tick has to do.
#[derive(Debug, Clone)]
pub struct TickPlan {
    /// Whether the global interval has passed; the caller then restarts it.
    pub global_due: bool,
    /// The sources to check, by index and in list order.
    pub due: Vec<usize>,
}

/// Plans one tick of the service from the seconds passed since the last global
/// pass. With no interest enabled the tick is skipped as a whole; otherwise
/// every enabled source that is not backing off is checked when its own
/// schedule, or the global interval if it has none, asks for it.
pub fn plan_tick(
    sources: &Vec<Source>,
    interests: &Vec<Interest>,
    now: i64,
    elapsed_secs: u64,
    global_interval_minutes: u32,
) -> (r: Option<TickPlan>)
    ensures
        !any_enabled(interests@) ==> r is None,
        any_enabled(interests@) ==> (r matches Some(p) && p.global_due == (elapsed_secs
            >= global_interval_minutes * 60) && p.due@ == due_indices(
            sources@,
            now,
            p.global_due,
        )),
{
    if !has_enabled_interest(interests) {
        return None;
    }
    let global_due = global_check_is_due(elapsed_secs, global_interval_minutes);
    let due = due_sources(sources, interests, now, global_due);
    Some(TickPlan { global_due, due })
}

/// The text of the instant `secs` seconds after `now`, if the calendar reaches
/// that far.
pub open spec fn offset_text(now: i64, secs: int) -> Option<Seq<char>> {
    if now + secs <= i64::MAX && now + secs >= i64::MIN {
        rfc3339_text((now + secs) as i64)
    } else {
        None
    }
}

/// The stamp written into the ledgers at `now`; empty when the calendar does
/// not reach that far.
pub open spec fn stamp(now: i64) -> Seq<char> {
    match rfc3339_text(now) {
        Some(t) => t,
        None => Seq::empty(),
    }
}

/// Renders the instant `secs` seconds after `now`.
pub fn text_after(now: i64, secs: u64) -> (r: Option<String>)
    ensures
        opt_text(r) == offset_text(now, secs as int),
{
    let t: i128 = now as i128 + secs as i128;
    if t > i64::MAX as i128 {
        None
    } else {
        format_rfc3339(t as i64)
    }
}

/// Renders the stamp written into the ledgers at `now`.
pub fn timestamp_text(now: i64) -> (r: String)
    ensures
        r@ == stamp(now),
{
    match format_rfc3339(now) {
        Some(t) => t,
        None => String::new(),
    }
}

/// The fields of a source that no check touches are the same in both.
pub open spec fn same_identity(old_source: Source, new_source: Source) -> bool {
    &&& new_source.id@ == old_source.id@
    &&& new_source.name@ == old_source.name@
    &&& new_source.url@ == old_source.url@
    &&& new_source.enabled == old_source.enabled
    &&& new_source.check_interval_minutes == old_source.check_interval_minutes
    &&& new_source.use_guid_dedup == old_source.use_guid_dedup
}

/// A cache token after a successful check: the new one if the server sent one,
/// else the old one.
pub open spec fn refreshed(old_token: Option<String>, new_token: Option<Seq<char>>) -> Option<
    Seq<char>,
> {
    match new_token {
        Some(t) => Some(t),
        None => opt_text(old_token),
    }
}

/// The failure counter after one more failure.
pub open spec fn bumped(count: u32) -> u32 {
    if count == u32::MAX {
        u32::MAX
    } else {
        (count + 1) as u32
    }
}

/// The interval in minutes that applies to a source.
pub open spec fn interval_minutes(source: Source, global_interval_minutes: u32) -> u32 {
    match source.check_interval_minutes {
        Some(m) => m,
        None => global_interval_minutes,
    }
}

/// How a finished check leaves a source. `outcome` holds the cache tokens of a
/// successful check and is `None` after a failed one. Success clears the
/// failure count and the retry time; failure counts one more and sets the
/// retry time by the backoff. Either way the check is stamped and the next one
/// scheduled.
pub open spec fn checked(
    old_source: Source,
    new_source: Source,
    outcome: Option<(Option<Seq<char>>, Option<Seq<char>>)>,
    now: i64,
    global_interval_minutes: u32,
) -> bool {
    &&& same_identity(old_source, new_source)
    &&& opt_text(new_source.last_checked) == rfc3339_text(now)
    &&& opt_text(new_source.next_check_at) == offset_text(
        now,
        interval_minutes(old_source, global_interval_minutes) * 60,
    )
    &&& match outcome {
        Some((etag, last_modified)) => {
            &&& new_source.failure_count == 0
            &&& new_source.retry_after is None
            &&& opt_text(new_source.etag) == refreshed(old_source.etag, etag)
            &&& opt_text(new_source.last_modified) == refreshed(
                old_source.last_modified,
                last_modified,
            )
        },
        None => {
            &&& new_source.failure_count == bumped(old_source.failure_count)
            &&& opt_text(new_source.retry_after) == offset_text(
                now,
                (backoff_minutes(bumped(old_source.failure_count) as nat) * 60) as int,
            )
            &&& opt_text(new_source.etag) == opt_text(old_source.etag)
            &&& opt_text(new_source.last_modified) == opt_text(old_source.last_modified)
        },
    }
}

/// The views of a pair of optional cache tokens.
pub open spec fn tokens_text(outcome: Option<(Option<String>, Option<String>)>) -> Option<
    (Option<Seq<char>>, Option<Seq<char>>),
> {
    match outcome {
        Some((a, b)) => Some((opt_text(a), opt_text(b))),
        None => None,
    }
}

/// Writes the result of a check into its source: the backoff state, the cache
/// tokens, the stamp of this check and the time of the next.
pub fn finish_source_check(
    source: &mut Source,
    outcome: Option<(Option<String>, Option<String>)>,
    now: i64,
    global_interval_minutes: u32,
)
    ensures
        checked(*old(source), *final(source), tokens_text(outcome), now, global_interval_minutes),
{
    let interval: u32 = match source.check_interval_minutes {
        Some(m) => m,
        None => global_interval_minutes,
    };
    match outcome {
        Some((etag, last_modified)) => {
            source.failure_count = 0;
            source.retry_after = None;
            if etag.is_some() {
                source.etag = etag;
            }
            if last_modified.is_some() {
                source.last_modified = last_modified;
            }
        },
        None => {
            let count: u32 = if source.failure_count == u32::MAX {
                u32::MAX
            } else {
                source.failure_count + 1
            };
            source.failure_count = count;
            source.retry_after = text_after(now, calculate_backoff(count));
        },
    }
    source.next_check_at = text_after(now, interval as u64 * 60);
    source.last_checked = format_rfc3339(now);
}

/// The ledgers after a conditional fetch came back: an unchanged feed, or a
/// failed fetch, leaves them as they were; a changed feed is matched.
pub open spec fn ledgers_after_check(
    l: Ledgers,
    source: Source,
    interests: Seq<Interest>,
    fetched: Option<FetchFeedResult>,
    now: i64,
) -> Ledgers {
    match fetched {
        Some(res) => if res.not_modified {
            l
        } else {
            poll_standard(l, source, interests, res.items@, stamp(now))
        },
        None => l,
    }
}

/// What a conditional fetch hands to the source: its cache tokens, none of
/// them when the feed was unchanged; nothing when the fetch failed.
pub open spec fn fetch_outcome(fetched: Option<FetchFeedResult>) -> Option<
    (Option<Seq<char>>, Option<Seq<char>>),
> {
    match fetched {
        Some(res) => if res.not_modified {
            Some((None, None))
        } else {
            Some((opt_text(res.etag), opt_text(res.last_modified)))
        },
        None => None,
    }
}

/// Completes the check of a source that is polled once for all interests, given
/// what the conditional fetch returned (`None` when it failed). A changed feed
/// is matched against the interests; an unchanged one counts as a successful
/// check and touches neither ledger nor queue. Returns how many pending matches
/// were queued.
pub fn complete_source_check(
    state: &mut RssState,
    source: &mut Source,
    interests: &Vec<Interest>,
    fetched: Option<FetchFeedResult>,
    now: i64,
    global_interval_minutes: u32,
) -> (count: usize)
    requires
        old(state).wf(),
    ensures
        final(state).wf(),
        final(state).ledgers() == ledgers_after_check(
            old(state).ledgers(),
            *old(source),
            interests@,
            fetched,
            now,
        ),
        checked(
            *old(source),
            *final(source),
            fetch_outcome(fetched),
            now,
            global_interval_minutes,
        ),
        final(state).pending_matches@.len() == old(state).pending_matches@.len() + count,
        final(state).pending_matches@.take(old(state).pending_matches@.len() as int) == old(state).pending_matches@,
        final(state).sources == old(state).sources,
        final(state).interests == old(state).interests,
        final(state).bad_items == old(state).bad_items,
        fetched matches Some(res) && res.not_modified ==> count == 0 && *final(state) == *old(state),
        fetched is None ==> count == 0 && *final(state) == *old(state),
{
    let ghost before = state.pending_matches@;
    assert(before.take(before.len() as int) =~= before);
    match fetched {
        Some(res) => {
            if res.not_modified {
                finish_source_check(source, Some((None, None)), now, global_interval_minutes);
                0
            } else {
                let text = timestamp_text(now);
                let count = process_standard_items(
                    state,
                    source,
                    interests,
                    &res.items,
                    text.as_str(),
                );
                finish_source_check(
                    source,
                    Some((res.etag, res.last_modified)),
                    now,
                    global_interval_minutes,
                );
                count
            }
        },
        None => {
            finish_source_check(source, None, now, global_interval_minutes);
            0
        },
    }
}

/// A successful check clears the failure count and the retry time, whatever
/// they were.
pub proof fn lemma_success_resets(
    old_source: Source,
    new_source: Source,
    tokens: (Option<Seq<char>>, Option<Seq<char>>),
    now: i64,
    global_interval_minutes: u32,
)
    requires
        checked(old_source, new_source, Some(tokens), now, global_interval_minutes),
    ensures
        new_source.failure_count == 0,
        new_source.retry_after is None,
        !in_backoff(new_source, now),
{
}

/// An unchanged feed writes nothing into the ledgers and queues nothing, and is
/// still a successful check: the source is stamped with the time of the check,
/// its failure count is cleared and no retry time is left.
pub proof fn lemma_not_modified_changes_nothing(
    l: Ledgers,
    old_source: Source,
    new_source: Source,
    interests: Seq<Interest>,
    res: FetchFeedResult,
    now: i64,
    global_interval_minutes: u32,
)
    requires
        res.not_modified,
        checked(old_source, new_source, fetch_outcome(Some(res)), now, global_interval_minutes),
    ensures
        ledgers_after_check(l, old_source, interests, Some(res), now) == l,
        opt_text(new_source.last_checked) == rfc3339_text(now),
        new_source.failure_count == 0,
        new_source.retry_after is None,
        opt_text(new_source.etag) == opt_text(old_source.etag),
        opt_text(new_source.last_modified) == opt_text(old_source.last_modified),
{
}

} // verus!
