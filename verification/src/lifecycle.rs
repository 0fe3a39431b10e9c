//! The pending-match queue, the bad-item store and the registries of sources
//! and interests, as the user's commands change them.

use vstd::prelude::*;
use vstd::string::*;
use crate::engine::RssState;
use crate::errors::WhenThenError;
use crate::models::{
    copy_opt, opt_text, BadItem, Interest, PendingMatch, Source, TorrentAddOptions,
    TorrentMetadata,
};
use crate::text::{has_prefix, starts_with};

verus! {

/// The result is a not-found error with the given detail.
pub open spec fn not_found<T>(r: Result<T, WhenThenError>, detail: Seq<char>) -> bool {
    r matches Err(WhenThenError::NotFound(msg)) && msg@ == detail
}

/// The result is an invalid-input error with the given detail.
pub open spec fn invalid_input<T>(r: Result<T, WhenThenError>, detail: Seq<char>) -> bool {
    r matches Err(WhenThenError::InvalidInput(msg)) && msg@ == detail
}

/// The first index at or after `from` that holds `id`.
pub open spec fn position_from(ids: Seq<Seq<char>>, id: Seq<char>, from: int) -> Option<int>
    decreases ids.len() - from,
{
    if from < 0 || from >= ids.len() {
        None
    } else if ids[from] == id {
        Some(from)
    } else {
        position_from(ids, id, from + 1)
    }
}

/// The first index that holds `id`.
pub open spec fn position(ids: Seq<Seq<char>>, id: Seq<char>) -> Option<int> {
    position_from(ids, id, 0)
}

/// The identifiers of the queued matches, in queue order.
pub open spec fn match_ids(q: Seq<PendingMatch>) -> Seq<Seq<char>> {
    Seq::new(q.len(), |i: int| q[i].id@)
}

/// The identifiers of the sources, in list order.
pub open spec fn source_ids(s: Seq<Source>) -> Seq<Seq<char>> {
    Seq::new(s.len(), |i: int| s[i].id@)
}

/// The URLs of the sources, in list order.
pub open spec fn source_urls(s: Seq<Source>) -> Seq<Seq<char>> {
    Seq::new(s.len(), |i: int| s[i].url@)
}

/// The identifiers of the interests, in list order.
pub open spec fn interest_ids(s: Seq<Interest>) -> Seq<Seq<char>> {
    Seq::new(s.len(), |i: int| s[i].id@)
}

/// The content hashes of the bad items, in list order.
pub open spec fn bad_hashes(s: Seq<BadItem>) -> Seq<Seq<char>> {
    Seq::new(s.len(), |i: int| s[i].info_hash@)
}

/// The first index of `keys` that holds `key`.
pub fn find_key(keys: &Vec<String>, key: &str) -> (r: Option<usize>)
    ensures
        match r {
            Some(i) => position(Seq::new(keys@.len(), |j: int| keys@[j]@), key@) == Some(i as int)
                && i < keys@.len(),
            None => position(Seq::new(keys@.len(), |j: int| keys@[j]@), key@) is None,
        },
{
    let ghost ids = Seq::new(keys@.len(), |j: int| keys@[j]@);
    let wanted = key.to_owned();
    let mut i: usize = 0;
    while i < keys.len()
        invariant
            i <= keys@.len(),
            wanted@ == key@,
            ids == Seq::new(keys@.len(), |j: int| keys@[j]@),
            position_from(ids, key@, 0) == position_from(ids, key@, i as int),
        decreases keys@.len() - i,
    {
        if keys[i] == wanted {
            return Some(i);
        }
        i += 1;
    }
    None
}

fn pending_ids(q: &Vec<PendingMatch>) -> (r: Vec<String>)
    ensures
        Seq::new(r@.len(), |j: int| r@[j]@) == match_ids(q@),
{
    let mut out: Vec<String> = Vec::new();
    let mut i: usize = 0;
    while i < q.len()
        invariant
            i <= q@.len(),
            out@.len() == i,
            forall|j: int| 0 <= j < i ==> out@[j]@ == q@[j].id@,
        decreases q@.len() - i,
    {
        out.push(q[i].id.clone());
        i += 1;
    }
    assert(Seq::new(out@.len(), |j: int| out@[j]@) =~= match_ids(q@));
    out
}

fn ids_of_sources(s: &Vec<Source>) -> (r: Vec<String>)
    ensures
        Seq::new(r@.len(), |j: int| r@[j]@) == source_ids(s@),
{
    let mut out: Vec<String> = Vec::new();
    let mut i: usize = 0;
    while i < s.len()
        invariant
            i <= s@.len(),
            out@.len() == i,
            forall|j: int| 0 <= j < i ==> out@[j]@ == s@[j].id@,
        decreases s@.len() - i,
    {
        out.push(s[i].id.clone());
        i += 1;
    }
    assert(Seq::new(out@.len(), |j: int| out@[j]@) =~= source_ids(s@));
    out
}

fn urls_of_sources(s: &Vec<Source>) -> (r: Vec<String>)
    ensures
        Seq::new(r@.len(), |j: int| r@[j]@) == source_urls(s@),
{
    let mut out: Vec<String> = Vec::new();
    let mut i: usize = 0;
    while i < s.len()
        invariant
            i <= s@.len(),
            out@.len() == i,
            forall|j: int| 0 <= j < i ==> out@[j]@ == s@[j].url@,
        decreases s@.len() - i,
    {
        out.push(s[i].url.clone());
        i += 1;
    }
    assert(Seq::new(out@.len(), |j: int| out@[j]@) =~= source_urls(s@));
    out
}

fn ids_of_interests(s: &Vec<Interest>) -> (r: Vec<String>)
    ensures
        Seq::new(r@.len(), |j: int| r@[j]@) == interest_ids(s@),
{
    let mut out: Vec<String> = Vec::new();
    let mut i: usize = 0;
    while i < s.len()
        invariant
            i <= s@.len(),
            out@.len() == i,
            forall|j: int| 0 <= j < i ==> out@[j]@ == s@[j].id@,
        decreases s@.len() - i,
    {
        out.push(s[i].id.clone());
        i += 1;
    }
    assert(Seq::new(out@.len(), |j: int| out@[j]@) =~= interest_ids(s@));
    out
}

fn hashes_of(s: &Vec<BadItem>) -> (r: Vec<String>)
    ensures
        Seq::new(r@.len(), |j: int| r@[j]@) == bad_hashes(s@),
{
    let mut out: Vec<String> = Vec::new();
    let mut i: usize = 0;
    while i < s.len()
        invariant
            i <= s@.len(),
            out@.len() == i,
            forall|j: int| 0 <= j < i ==> out@[j]@ == s@[j].info_hash@,
        decreases s@.len() - i,
    {
        out.push(s[i].info_hash.clone());
        i += 1;
    }
    assert(Seq::new(out@.len(), |j: int| out@[j]@) =~= bad_hashes(s@));
    out
}

/// The entries of `s` whose key is not `key`, in their old order.
pub open spec fn without_key<T>(s: Seq<T>, keys: Seq<Seq<char>>, key: Seq<char>) -> Seq<T>
    decreases s.len(),
{
    if s.len() == 0 || keys.len() != s.len() {
        Seq::empty()
    } else {
        let rest = without_key(s.drop_last(), keys.drop_last(), key);
        if keys.last() != key {
            rest.push(s.last())
        } else {
            rest
        }
    }
}

/// Removes from `v` every entry whose key is `key`.
fn remove_key<T>(v: &mut Vec<T>, keys: &Vec<String>, key: &str) -> (removed: usize)
    requires
        keys@.len() == old(v)@.len(),
    ensures
        final(v)@ == without_key(old(v)@, Seq::new(keys@.len(), |j: int| keys@[j]@), key@),
        removed == old(v)@.len() - final(v)@.len(),
{
    let ghost ids = Seq::new(keys@.len(), |j: int| keys@[j]@);
    let ghost start = v@;
    let wanted = key.to_owned();
    let mut i: usize = 0;
    let mut k: usize = 0;
    while k < keys.len()
        invariant
            i <= k <= keys@.len(),
            wanted@ == key@,
            ids == Seq::new(keys@.len(), |j: int| keys@[j]@),
            start.len() == keys@.len(),
            v@.len() == start.len() - (k - i),
            v@.subrange(0, i as int) == without_key(start.take(k as int), ids.take(k as int), key@),
            v@.subrange(i as int, v@.len() as int) == start.subrange(k as int, start.len() as int),
        decreases keys@.len() - k,
    {
        let ghost before = v@;
        proof {
            assert(start.take(k + 1).drop_last() =~= start.take(k as int));
            assert(ids.take(k + 1).drop_last() =~= ids.take(k as int));
            assert(ids.take(k + 1).last() == keys@[k as int]@);
            assert(start.take(k + 1).last() == start[k as int]);
            assert forall|x: int| i <= x < before.len() implies #[trigger] before[x] == start[x
                + (k - i)] by {
                assert(before.subrange(i as int, before.len() as int)[x - i] == start.subrange(
                    k as int,
                    start.len() as int,
                )[x - i]);
            }
            assert(before[i as int] == start[k as int]);
        }
        if keys[k] == wanted {
            let _ = v.remove(i);
            assert(v@.subrange(0, i as int) =~= before.subrange(0, i as int));
            assert forall|x: int| i <= x < v@.len() implies #[trigger] v@[x] == start[x + (k + 1
                - i)] by {
                assert(v@[x] == before[x + 1]);
            }
            assert(v@.subrange(i as int, v@.len() as int) =~= start.subrange(
                k + 1,
                start.len() as int,
            ));
        } else {
            i += 1;
            assert(v@.subrange(0, i as int) =~= before.subrange(0, i - 1).push(start[k as int]));
            assert forall|x: int| i <= x < v@.len() implies #[trigger] v@[x] == start[x + (k + 1
                - i)] by {
                assert(v@[x] == before[x]);
            }
            assert(v@.subrange(i as int, v@.len() as int) =~= start.subrange(
                k + 1,
                start.len() as int,
            ));
        }
        k += 1;
    }
    proof {
        assert(start.take(start.len() as int) =~= start);
        assert(ids.take(ids.len() as int) =~= ids);
        assert(v@.subrange(0, i as int) =~= v@);
    }
    k - i
}

/// What an approved match hands to the download collaborator.
#[derive(Debug, Clone)]
pub struct ApprovedDownload {
    pub uri: String,
    pub is_magnet: bool,
    pub options: Option<TorrentAddOptions>,
}

/// The link of a match: its magnet URI, else its torrent URL.
pub open spec fn link_of(m: PendingMatch) -> Option<Seq<char>> {
    match m.magnet_uri {
        Some(u) => Some(u@),
        None => opt_text(m.torrent_url),
    }
}

/// The download path that an interest sets for its matches.
pub open spec fn custom_path(interests: Seq<Interest>, interest_id: Seq<char>) -> Option<
    Seq<char>,
> {
    match position(interest_ids(interests), interest_id) {
        Some(i) => opt_text(interests[i].download_path),
        None => None,
    }
}

/// Looks up the download path that an interest sets for its matches.
pub fn download_path_for(interests: &Vec<Interest>, interest_id: &str) -> (r: Option<String>)
    ensures
        opt_text(r) == custom_path(interests@, interest_id@),
{
    let ids = ids_of_interests(interests);
    match find_key(&ids, interest_id) {
        Some(i) => copy_opt(&interests[i].download_path),
        None => None,
    }
}

/// Approves a pending match: takes it off the queue and says what to download
/// and where. An unknown identifier is a not-found error and changes nothing;
/// a match without any link is an invalid-input error, and is off the queue
/// all the same.
pub fn approve_match(state: &mut RssState, match_id: &str) -> (r: Result<
    ApprovedDownload,
    WhenThenError,
>)
    ensures
        final(state).sources == old(state).sources,
        final(state).interests == old(state).interests,
        final(state).bad_items == old(state).bad_items,
        final(state).seen_items == old(state).seen_items,
        final(state).seen_episodes == old(state).seen_episodes,
        match position(match_ids(old(state).pending_matches@), match_id@) {
            None => {
                &&& not_found(r, "Match not found"@)
                &&& final(state).pending_matches == old(state).pending_matches
            },
            Some(i) => {
                &&& final(state).pending_matches@ == old(state).pending_matches@.remove(i)
                &&& match link_of(old(state).pending_matches@[i]) {
                    None => invalid_input(r, "No torrent URI"@),
                    Some(uri) => {
                        &&& r matches Ok(d) && d.uri@ == uri && d.is_magnet == has_prefix(
                            uri,
                            "magnet:"@,
                        ) && (match custom_path(
                            old(state).interests@,
                            old(state).pending_matches@[i].interest_id@,
                        ) {
                            Some(p) => d.options matches Some(o) && opt_text(o.output_folder)
                                == Some(p) && o.only_files is None,
                            None => d.options is None,
                        })
                    },
                }
            },
        },
{
    let ids = pending_ids(&state.pending_matches);
    let index = match find_key(&ids, match_id) {
        Some(i) => i,
        None => {
            return Err(WhenThenError::NotFound(String::from_str("Match not found")));
        },
    };
    let pending = state.pending_matches.remove(index);
    let path = download_path_for(&state.interests, pending.interest_id.as_str());
    let uri = match pending.magnet_uri {
        Some(u) => u,
        None => match pending.torrent_url {
            Some(u) => u,
            None => {
                return Err(WhenThenError::InvalidInput(String::from_str("No torrent URI")));
            },
        },
    };
    let options = match path {
        Some(p) => Some(TorrentAddOptions { output_folder: Some(p), only_files: None }),
        None => None,
    };
    let is_magnet = starts_with(uri.as_str(), "magnet:");
    Ok(ApprovedDownload { uri, is_magnet, options })
}

/// Rejects a pending match: takes it off the queue and touches nothing else.
/// Returns how many matches still wait. An unknown identifier is a not-found
/// error.
pub fn reject_match(state: &mut RssState, match_id: &str) -> (r: Result<usize, WhenThenError>)
    ensures
        final(state).sources == old(state).sources,
        final(state).interests == old(state).interests,
        final(state).bad_items == old(state).bad_items,
        final(state).seen_items == old(state).seen_items,
        final(state).seen_episodes == old(state).seen_episodes,
        final(state).pending_matches@ == without_key(
            old(state).pending_matches@,
            match_ids(old(state).pending_matches@),
            match_id@,
        ),
        match position(match_ids(old(state).pending_matches@), match_id@) {
            None => not_found(r, "Match not found"@),
            Some(_) => r matches Ok(n) && n == final(state).pending_matches@.len(),
        },
{
    let ids = pending_ids(&state.pending_matches);
    let found = find_key(&ids, match_id);
    let _ = remove_key(&mut state.pending_matches, &ids, match_id);
    match found {
        Some(_) => Ok(state.pending_matches.len()),
        None => Err(WhenThenError::NotFound(String::from_str("Match not found"))),
    }
}

/// The link whose metadata is to be fetched for a pending match.
pub fn metadata_request(state: &RssState, match_id: &str) -> (r: Result<String, WhenThenError>)
    ensures
        match position(match_ids(state.pending_matches@), match_id@) {
            None => not_found(r, "Match not found"@),
            Some(i) => match link_of(state.pending_matches@[i]) {
                None => invalid_input(r, "No torrent URI"@),
                Some(uri) => r matches Ok(u) && u@ == uri,
            },
        },
{
    let ids = pending_ids(&state.pending_matches);
    let index = match find_key(&ids, match_id) {
        Some(i) => i,
        None => {
            return Err(WhenThenError::NotFound(String::from_str("Match not found")));
        },
    };
    let pending = &state.pending_matches[index];
    match &pending.magnet_uri {
        Some(u) => Ok(u.clone()),
        None => match &pending.torrent_url {
            Some(u) => Ok(u.clone()),
            None => Err(WhenThenError::InvalidInput(String::from_str("No torrent URI"))),
        },
    }
}

/// Attaches fetched metadata to a pending match, if it still waits; says
/// whether it did. Nothing else about the match changes.
pub fn attach_metadata(state: &mut RssState, match_id: &str, metadata: TorrentMetadata) -> (r:
    bool)
    ensures
        final(state).sources == old(state).sources,
        final(state).interests == old(state).interests,
        final(state).bad_items == old(state).bad_items,
        final(state).seen_items == old(state).seen_items,
        final(state).seen_episodes == old(state).seen_episodes,
        final(state).pending_matches@.len() == old(state).pending_matches@.len(),
        match position(match_ids(old(state).pending_matches@), match_id@) {
            None => !r && final(state).pending_matches == old(state).pending_matches,
            Some(i) => {
                &&& r
                &&& final(state).pending_matches@[i].metadata == Some(metadata)
                &&& final(state).pending_matches@[i].id == old(state).pending_matches@[i].id
                &&& final(state).pending_matches@[i].title == old(state).pending_matches@[i].title
                &&& final(state).pending_matches@[i].magnet_uri == old(state).pending_matches@[i].magnet_uri
                &&& final(state).pending_matches@[i].torrent_url == old(state).pending_matches@[i].torrent_url
                &&& forall|j: int|
                    0 <= j < old(state).pending_matches@.len() && j != i ==> final(state).pending_matches@[j] == old(state).pending_matches@[j]
            },
        },
{
    let ids = pending_ids(&state.pending_matches);
    match find_key(&ids, match_id) {
        Some(i) => {
            let mut m = state.pending_matches.remove(i);
            m.metadata = Some(metadata);
            state.pending_matches.insert(i, m);
            true
        },
        None => false,
    }
}

/// The store after a release is marked bad: the entry with that hash is
/// replaced, or the release is added at the end.
pub open spec fn marked(items: Seq<BadItem>, item: BadItem) -> Seq<BadItem> {
    match position(bad_hashes(items), item.info_hash@) {
        Some(i) => items.update(i, item),
        None => items.push(item),
    }
}

/// Marks a release as bad, and says which interest to scan again: the one the
/// release was matched for, when a rescan is asked for. Neither the queue nor
/// the ledgers change.
pub fn mark_bad(state: &mut RssState, item: BadItem, trigger_rescan: bool) -> (rescan: Option<
    String,
>)
    ensures
        final(state).bad_items@ == marked(old(state).bad_items@, item),
        final(state).sources == old(state).sources,
        final(state).interests == old(state).interests,
        final(state).pending_matches == old(state).pending_matches,
        final(state).seen_items == old(state).seen_items,
        final(state).seen_episodes == old(state).seen_episodes,
        opt_text(rescan) == if trigger_rescan {
            opt_text(item.interest_id)
        } else {
            None
        },
{
    let rescan = if trigger_rescan {
        copy_opt(&item.interest_id)
    } else {
        None
    };
    let hashes = hashes_of(&state.bad_items);
    match find_key(&hashes, item.info_hash.as_str()) {
        Some(i) => {
            let _ = state.bad_items.remove(i);
            state.bad_items.insert(i, item);
            assert(state.bad_items@ =~= old(state).bad_items@.update(i as int, item));
        },
        None => {
            state.bad_items.push(item);
        },
    }
    rescan
}

/// Takes a release off the bad-item store.
pub fn unmark_bad(state: &mut RssState, info_hash: &str)
    ensures
        final(state).bad_items@ == without_key(
            old(state).bad_items@,
            bad_hashes(old(state).bad_items@),
            info_hash@,
        ),
        final(state).sources == old(state).sources,
        final(state).interests == old(state).interests,
        final(state).pending_matches == old(state).pending_matches,
        final(state).seen_items == old(state).seen_items,
        final(state).seen_episodes == old(state).seen_episodes,
{
    let hashes = hashes_of(&state.bad_items);
    let _ = remove_key(&mut state.bad_items, &hashes, info_hash);
}

/// Decides a rescan of one interest: an unknown interest is a not-found error,
/// a disabled one needs no scan, an enabled one is named by its index.
pub fn recheck_interest(interests: &Vec<Interest>, interest_id: &str) -> (r: Result<
    Option<usize>,
    WhenThenError,
>)
    ensures
        match position(interest_ids(interests@), interest_id@) {
            None => not_found(r, "Interest not found"@),
            Some(i) => if interests@[i].enabled {
                r matches Ok(Some(k)) && k == i
            } else {
                r matches Ok(None)
            },
        },
{
    let ids = ids_of_interests(interests);
    match find_key(&ids, interest_id) {
        Some(i) => if interests[i].enabled {
            Ok(Some(i))
        } else {
            Ok(None)
        },
        None => Err(WhenThenError::NotFound(String::from_str("Interest not found"))),
    }
}

/// Adds a source, unless one with the same URL exists.
pub fn add_source(sources: &mut Vec<Source>, source: Source) -> (r: Result<(), WhenThenError>)
    ensures
        match position(source_urls(old(sources)@), source.url@) {
            Some(_) => final(sources)@ == old(sources)@ && invalid_input(r, "Source URL already exists"@),
            None => final(sources)@ == old(sources)@.push(source) && r is Ok,
        },
{
    let urls = urls_of_sources(sources);
    match find_key(&urls, source.url.as_str()) {
        Some(_) => Err(WhenThenError::InvalidInput(String::from_str("Source URL already exists"))),
        None => {
            sources.push(source);
            Ok(())
        },
    }
}

/// Replaces the source that has the same identifier.
pub fn update_source(sources: &mut Vec<Source>, source: Source) -> (r: Result<(), WhenThenError>)
    ensures
        match position(source_ids(old(sources)@), source.id@) {
            Some(i) => final(sources)@ == old(sources)@.update(i, source) && r is Ok,
            None => final(sources)@ == old(sources)@ && not_found(r, "Source not found"@),
        },
{
    let ids = ids_of_sources(sources);
    match find_key(&ids, source.id.as_str()) {
        Some(i) => {
            let _ = sources.remove(i);
            sources.insert(i, source);
            assert(sources@ =~= old(sources)@.update(i as int, source));
            Ok(())
        },
        None => Err(WhenThenError::NotFound(String::from_str("Source not found"))),
    }
}

/// Removes the sources that have the given identifier.
pub fn remove_source(sources: &mut Vec<Source>, source_id: &str)
    ensures
        final(sources)@ == without_key(old(sources)@, source_ids(old(sources)@), source_id@),
{
    let ids = ids_of_sources(sources);
    let _ = remove_key(sources, &ids, source_id);
}

/// Enables or disables the source that has the given identifier.
pub fn toggle_source(sources: &mut Vec<Source>, source_id: &str, enabled: bool) -> (r: Result<
    (),
    WhenThenError,
>)
    ensures
        final(sources)@.len() == old(sources)@.len(),
        match position(source_ids(old(sources)@), source_id@) {
            Some(i) => {
                &&& r is Ok
                &&& final(sources)@[i] == (Source { enabled, ..old(sources)@[i] })
                &&& forall|j: int|
                    0 <= j < old(sources)@.len() && j != i ==> final(sources)@[j] == old(sources)@[j]
            },
            None => final(sources)@ == old(sources)@ && not_found(r, "Source not found"@),
        },
{
    let ids = ids_of_sources(sources);
    match find_key(&ids, source_id) {
        Some(i) => {
            let mut s = sources.remove(i);
            s.enabled = enabled;
            sources.insert(i, s);
            Ok(())
        },
        None => Err(WhenThenError::NotFound(String::from_str("Source not found"))),
    }
}

/// Adds an interest.
pub fn add_interest(interests: &mut Vec<Interest>, interest: Interest)
    ensures
        final(interests)@ == old(interests)@.push(interest),
{
    interests.push(interest);
}

/// Replaces the interest that has the same identifier.
pub fn update_interest(interests: &mut Vec<Interest>, interest: Interest) -> (r: Result<
    (),
    WhenThenError,
>)
    ensures
        match position(interest_ids(old(interests)@), interest.id@) {
            Some(i) => final(interests)@ == old(interests)@.update(i, interest) && r is Ok,
            None => final(interests)@ == old(interests)@ && not_found(r, "Interest not found"@),
        },
{
    let ids = ids_of_interests(interests);
    match find_key(&ids, interest.id.as_str()) {
        Some(i) => {
            let _ = interests.remove(i);
            interests.insert(i, interest);
            assert(interests@ =~= old(interests)@.update(i as int, interest));
            Ok(())
        },
        None => Err(WhenThenError::NotFound(String::from_str("Interest not found"))),
    }
}

/// Removes the interests that have the given identifier.
pub fn remove_interest(interests: &mut Vec<Interest>, interest_id: &str)
    ensures
        final(interests)@ == without_key(
            old(interests)@,
            interest_ids(old(interests)@),
            interest_id@,
        ),
{
    let ids = ids_of_interests(interests);
    let _ = remove_key(interests, &ids, interest_id);
}

/// Enables or disables the interest that has the given identifier.
pub fn toggle_interest(interests: &mut Vec<Interest>, interest_id: &str, enabled: bool) -> (r:
    Result<(), WhenThenError>)
    ensures
        final(interests)@.len() == old(interests)@.len(),
        match position(interest_ids(old(interests)@), interest_id@) {
            Some(i) => {
                &&& r is Ok
                &&& final(interests)@[i] == (Interest { enabled, ..old(interests)@[i] })
                &&& forall|j: int|
                    0 <= j < old(interests)@.len() && j != i ==> final(interests)@[j] == old(interests)@[j]
            },
            None => final(interests)@ == old(interests)@ && not_found(r, "Interest not found"@),
        },
{
    let ids = ids_of_interests(interests);
    match find_key(&ids, interest_id) {
        Some(i) => {
            let mut s = interests.remove(i);
            s.enabled = enabled;
            interests.insert(i, s);
            Ok(())
        },
        None => Err(WhenThenError::NotFound(String::from_str("Interest not found"))),
    }
}

} // verus!
