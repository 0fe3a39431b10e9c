//! The seen-item and seen-episode ledgers.
//!
//! Both are kept as lists in insertion order; no key occurs twice.

use vstd::prelude::*;
use vstd::string::*;
use crate::outside::{parse_rfc3339, rfc3339_seconds};

verus! {

/// The age, in seconds, from which a seen-item entry is purged: sixty days.
pub const MAX_AGE_SECS: i64 = 5184000;

/// The number of seconds between two purges.
pub const CLEANUP_INTERVAL_SECS: u64 = 3600;

/// One remembered item: its dedup key and when it was first seen.
#[derive(Debug, Clone)]
pub struct SeenEntry {
    pub key: String,
    pub timestamp: String,
}

/// One remembered episode of one interest.
#[derive(Debug, Clone)]
pub struct EpisodeMark {
    pub interest_id: String,
    pub episode_id: String,
}

/// Whether `key` is among the entries.
pub open spec fn has_key(seen: Seq<(Seq<char>, Seq<char>)>, key: Seq<char>) -> bool {
    exists|i: int| 0 <= i < seen.len() && (#[trigger] seen[i]).0 == key
}

/// Whether the pair is among the marks.
pub open spec fn has_mark(
    marks: Seq<(Seq<char>, Seq<char>)>,
    interest: Seq<char>,
    episode: Seq<char>,
) -> bool {
    exists|i: int| 0 <= i < marks.len() && #[trigger] marks[i] == (interest, episode)
}

/// No key occurs twice.
pub open spec fn distinct_keys(seen: Seq<(Seq<char>, Seq<char>)>) -> bool {
    forall|i: int, j: int|
        0 <= i < j < seen.len() ==> (#[trigger] seen[i]).0 != (#[trigger] seen[j]).0
}

/// No pair occurs twice.
pub open spec fn distinct_marks(marks: Seq<(Seq<char>, Seq<char>)>) -> bool {
    forall|i: int, j: int| 0 <= i < j < marks.len() ==> #[trigger] marks[i] != #[trigger] marks[j]
}

/// Whether an entry stamped `parsed` is younger than sixty days at `now`. A
/// stamp that could not be read is stale.
pub open spec fn fresh_at(parsed: Option<i64>, now: i64) -> bool {
    match parsed {
        Some(t) => now - t < MAX_AGE_SECS,
        None => false,
    }
}

/// The entries that survive a purge at `now`, in their old order.
pub open spec fn kept(seen: Seq<(Seq<char>, Seq<char>)>, now: i64) -> Seq<(Seq<char>, Seq<char>)>
    decreases seen.len(),
{
    if seen.len() == 0 {
        Seq::empty()
    } else {
        let rest = kept(seen.drop_last(), now);
        if fresh_at(rfc3339_seconds(seen.last().1), now) {
            rest.push(seen.last())
        } else {
            rest
        }
    }
}

/// Every surviving key was a key before.
pub proof fn lemma_kept_keys(seen: Seq<(Seq<char>, Seq<char>)>, now: i64, key: Seq<char>)
    requires
        has_key(kept(seen, now), key),
    ensures
        has_key(seen, key),
    decreases seen.len(),
{
    if seen.len() > 0 {
        let rest = kept(seen.drop_last(), now);
        let k = kept(seen, now);
        let w = choose|i: int| 0 <= i < k.len() && (#[trigger] k[i]).0 == key;
        if fresh_at(rfc3339_seconds(seen.last().1), now) && w == k.len() - 1 {
            assert(seen[seen.len() - 1].0 == key);
        } else {
            assert(rest[w].0 == key);
            lemma_kept_keys(seen.drop_last(), now, key);
            let v = choose|i: int|
                0 <= i < seen.drop_last().len() && (#[trigger] seen.drop_last()[i]).0 == key;
            assert(seen[v].0 == key);
        }
    }
}

/// A purge keeps keys distinct and never lengthens the ledger.
pub proof fn lemma_kept_distinct(seen: Seq<(Seq<char>, Seq<char>)>, now: i64)
    requires
        distinct_keys(seen),
    ensures
        distinct_keys(kept(seen, now)),
        kept(seen, now).len() <= seen.len(),
    decreases seen.len(),
{
    if seen.len() > 0 {
        let rest = kept(seen.drop_last(), now);
        lemma_kept_distinct(seen.drop_last(), now);
        if fresh_at(rfc3339_seconds(seen.last().1), now) {
            let k = rest.push(seen.last());
            assert forall|i: int, j: int| 0 <= i < j < k.len() implies (#[trigger] k[i]).0 != (
            #[trigger] k[j]).0 by {
                if j == k.len() - 1 {
                    if k[i].0 == k[j].0 {
                        assert(rest[i].0 == seen.last().0);
                        lemma_kept_keys(seen.drop_last(), now, seen.last().0);
                        let v = choose|x: int|
                            0 <= x < seen.drop_last().len() && (#[trigger] seen.drop_last()[x]).0
                                == seen.last().0;
                        assert(seen[v].0 == seen[seen.len() - 1].0);
                    }
                } else {
                    assert(rest[i].0 != rest[j].0);
                }
            }
        }
    }
}

/// The ledger built from stored entries at `now`: the fresh ones, each key
/// once, in their stored order.
pub open spec fn restored(entries: Seq<SeenEntry>, now: i64) -> Seq<(Seq<char>, Seq<char>)>
    decreases entries.len(),
{
    if entries.len() == 0 {
        Seq::empty()
    } else {
        let rest = restored(entries.drop_last(), now);
        let e = entries.last();
        if fresh_at(rfc3339_seconds(e.timestamp@), now) && !has_key(rest, e.key@) {
            rest.push((e.key@, e.timestamp@))
        } else {
            rest
        }
    }
}

/// Decides whether an entry is kept, from its stamp as already read.
pub fn is_fresh(parsed: Option<i64>, now: i64) -> (r: bool)
    ensures
        r == fresh_at(parsed, now),
{
    match parsed {
        Some(t) => {
            let age: i128 = now as i128 - t as i128;
            age < 5184000
        },
        None => false,
    }
}

/// Which items have been evaluated already, and when.
#[derive(Debug, Clone)]
pub struct SeenItems {
    entries: Vec<SeenEntry>,
}

impl View for SeenItems {
    type V = Seq<(Seq<char>, Seq<char>)>;

    closed spec fn view(&self) -> Seq<(Seq<char>, Seq<char>)> {
        Seq::new(self.entries@.len(), |i: int| (self.entries@[i].key@, self.entries@[i].timestamp@))
    }
}

impl SeenItems {
    /// No key occurs twice.
    pub open spec fn wf(&self) -> bool {
        distinct_keys(self@)
    }

    /// An empty ledger.
    pub fn new() -> (r: Self)
        ensures
            r@ == Seq::<(Seq<char>, Seq<char>)>::empty(),
            r.wf(),
    {
        let r = SeenItems { entries: Vec::new() };
        assert(r@ =~= Seq::<(Seq<char>, Seq<char>)>::empty());
        r
    }

    /// The ledger that stored entries give at `now`: stale entries, entries
    /// whose stamp cannot be read and repeated keys are left out.
    pub fn restore(entries: &Vec<SeenEntry>, now: i64) -> (r: Self)
        ensures
            r@ == restored(entries@, now),
            r.wf(),
    {
        let mut out = SeenItems::new();
        let mut i: usize = 0;
        while i < entries.len()
            invariant
                i <= entries@.len(),
                out.wf(),
                out@ == restored(entries@.take(i as int), now),
            decreases entries@.len() - i,
        {
            let e = &entries[i];
            proof {
                assert(entries@.take(i + 1).drop_last() =~= entries@.take(i as int));
                assert(entries@.take(i + 1).last() == *e);
            }
            if is_fresh(parse_rfc3339(e.timestamp.as_str()), now) && !out.contains_key(
                e.key.as_str(),
            ) {
                out.insert_new(e.key.clone(), e.timestamp.clone());
            }
            i += 1;
        }
        assert(entries@.take(entries@.len() as int) =~= entries@);
        out
    }

    /// The number of entries.
    pub fn len(&self) -> (r: usize)
        ensures
            r == self@.len(),
    {
        self.entries.len()
    }

    /// The key of the `i`-th entry.
    pub fn key_at(&self, i: usize) -> (r: &String)
        requires
            i < self@.len(),
        ensures
            r@ == self@[i as int].0,
    {
        &self.entries[i].key
    }

    /// The stamp of the `i`-th entry.
    pub fn timestamp_at(&self, i: usize) -> (r: &String)
        requires
            i < self@.len(),
        ensures
            r@ == self@[i as int].1,
    {
        &self.entries[i].timestamp
    }

    /// Whether `key` has been seen.
    pub fn contains_key(&self, key: &str) -> (r: bool)
        ensures
            r == has_key(self@, key@),
    {
        let k = key.to_owned();
        let mut i: usize = 0;
        while i < self.entries.len()
            invariant
                i <= self.entries@.len(),
                k@ == key@,
                forall|j: int| 0 <= j < i ==> (#[trigger] self@[j]).0 != key@,
            decreases self.entries@.len() - i,
        {
            if self.entries[i].key == k {
                assert(self@[i as int].0 == key@);
                return true;
            }
            i += 1;
        }
        false
    }

    /// Records a key that has not been seen.
    pub fn insert_new(&mut self, key: String, timestamp: String)
        requires
            old(self).wf(),
            !has_key(old(self)@, key@),
        ensures
            final(self)@ == old(self)@.push((key@, timestamp@)),
            final(self).wf(),
    {
        let ghost before = self@;
        let ghost pair = (key@, timestamp@);
        self.entries.push(SeenEntry { key, timestamp });
        assert(self@ =~= before.push(pair));
        assert forall|i: int, j: int| 0 <= i < j < self@.len() implies (#[trigger] self@[i]).0 != (
        #[trigger] self@[j]).0 by {
            if j == before.len() {
                assert(before[i].0 != pair.0);
            } else {
                assert(before[i].0 != before[j].0);
            }
        }
    }

    /// Records `key` unless it has been seen, and says whether it was new.
    pub fn check_and_insert(&mut self, key: String, timestamp: String) -> (was_new: bool)
        requires
            old(self).wf(),
        ensures
            was_new == !has_key(old(self)@, key@),
            was_new ==> final(self)@ == old(self)@.push((key@, timestamp@)),
            !was_new ==> final(self)@ == old(self)@,
            final(self).wf(),
            has_key(final(self)@, key@),
    {
        if self.contains_key(key.as_str()) {
            false
        } else {
            let ghost k = key@;
            self.insert_new(key, timestamp);
            assert(self@[self@.len() - 1].0 == k);
            true
        }
    }

    /// Drops the entries that are sixty days old or older at `now`, and those
    /// whose stamp cannot be read. Returns how many were dropped.
    pub fn purge(&mut self, now: i64) -> (removed: usize)
        requires
            old(self).wf(),
        ensures
            final(self)@ == kept(old(self)@, now),
            final(self).wf(),
            removed == old(self)@.len() - final(self)@.len(),
    {
        let ghost before = self@;
        let mut out: Vec<SeenEntry> = Vec::new();
        let mut i: usize = 0;
        while i < self.entries.len()
            invariant
                i <= self.entries@.len(),
                before == self@,
                before.len() == self.entries@.len(),
                out@.len() <= i,
                Seq::new(out@.len(), |j: int| (out@[j].key@, out@[j].timestamp@)) == kept(
                    before.take(i as int),
                    now,
                ),
            decreases self.entries@.len() - i,
        {
            let e = &self.entries[i];
            let ghost prev = Seq::new(out@.len(), |j: int| (out@[j].key@, out@[j].timestamp@));
            proof {
                assert(before.take(i + 1).drop_last() =~= before.take(i as int));
                assert(before.take(i + 1).last() == (e.key@, e.timestamp@));
            }
            if is_fresh(parse_rfc3339(e.timestamp.as_str()), now) {
                out.push(SeenEntry { key: e.key.clone(), timestamp: e.timestamp.clone() });
                assert(Seq::new(out@.len(), |j: int| (out@[j].key@, out@[j].timestamp@)) =~= prev.push(
                    (e.key@, e.timestamp@),
                ));
            }
            i += 1;
        }
        proof {
            assert(before.take(before.len() as int) =~= before);
            lemma_kept_distinct(before, now);
        }
        let removed = self.entries.len() - out.len();
        self.entries = out;
        assert(self@ =~= kept(before, now));
        removed
    }
}

/// Whether a purge is due, given the seconds since the last one.
pub open spec fn cleanup_due(elapsed_secs: u64) -> bool {
    elapsed_secs >= CLEANUP_INTERVAL_SECS
}

/// Purges stale entries when an hour has passed since the last purge, and says
/// whether it did.
pub fn maybe_cleanup_seen_items(seen: &mut SeenItems, elapsed_secs: u64, now: i64) -> (ran: bool)
    requires
        old(seen).wf(),
    ensures
        ran == cleanup_due(elapsed_secs),
        ran ==> final(seen)@ == kept(old(seen)@, now),
        !ran ==> final(seen)@ == old(seen)@,
        final(seen).wf(),
{
    if elapsed_secs >= CLEANUP_INTERVAL_SECS {
        let _ = seen.purge(now);
        true
    } else {
        false
    }
}

/// Which episodes each interest has been offered already.
#[derive(Debug, Clone)]
pub struct SeenEpisodes {
    marks: Vec<EpisodeMark>,
}

impl View for SeenEpisodes {
    type V = Seq<(Seq<char>, Seq<char>)>;

    closed spec fn view(&self) -> Seq<(Seq<char>, Seq<char>)> {
        Seq::new(
            self.marks@.len(),
            |i: int| (self.marks@[i].interest_id@, self.marks@[i].episode_id@),
        )
    }
}

impl SeenEpisodes {
    /// No pair occurs twice.
    pub open spec fn wf(&self) -> bool {
        distinct_marks(self@)
    }

    /// An empty ledger.
    pub fn new() -> (r: Self)
        ensures
            r@ == Seq::<(Seq<char>, Seq<char>)>::empty(),
            r.wf(),
    {
        let r = SeenEpisodes { marks: Vec::new() };
        assert(r@ =~= Seq::<(Seq<char>, Seq<char>)>::empty());
        r
    }

    /// The number of marks.
    pub fn len(&self) -> (r: usize)
        ensures
            r == self@.len(),
    {
        self.marks.len()
    }

    /// Whether the interest has been offered this episode already.
    pub fn would_duplicate(&self, interest_id: &str, episode_id: &str) -> (r: bool)
        ensures
            r == has_mark(self@, interest_id@, episode_id@),
    {
        let a = interest_id.to_owned();
        let b = episode_id.to_owned();
        let mut i: usize = 0;
        while i < self.marks.len()
            invariant
                i <= self.marks@.len(),
                a@ == interest_id@,
                b@ == episode_id@,
                forall|j: int| 0 <= j < i ==> #[trigger] self@[j] != (interest_id@, episode_id@),
            decreases self.marks@.len() - i,
        {
            if self.marks[i].interest_id == a && self.marks[i].episode_id == b {
                assert(self@[i as int] == (interest_id@, episode_id@));
                return true;
            }
            i += 1;
        }
        false
    }

    /// Records a first sighting.
    pub fn record(&mut self, interest_id: String, episode_id: String)
        requires
            old(self).wf(),
            !has_mark(old(self)@, interest_id@, episode_id@),
        ensures
            final(self)@ == old(self)@.push((interest_id@, episode_id@)),
            final(self).wf(),
    {
        let ghost before = self@;
        let ghost pair = (interest_id@, episode_id@);
        self.marks.push(EpisodeMark { interest_id, episode_id });
        assert(self@ =~= before.push(pair));
        assert forall|i: int, j: int| 0 <= i < j < self@.len() implies #[trigger] self@[i]
            != #[trigger] self@[j] by {
            if j == before.len() {
                assert(before[i] != pair);
            } else {
                assert(before[i] != before[j]);
            }
        }
    }
}

} // verus!
