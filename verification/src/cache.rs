//! The reputation cache: the last score computed for each identity.

use crate::fixed::Score;
use crate::identity::Identity;
use vstd::prelude::*;

verus! {

struct CacheEntry {
    identity: Identity,
    score: Score,
}

/// The scores kept, one for each identity that was ever written. Nothing
/// leaves the cache, and the last write to an identity is the one kept.
pub struct ReputationCache {
    entries: Vec<CacheEntry>,
}

/// The score that a mapping gives for `identity`: the one kept for it, and
/// the score of no activity where none is kept.
pub open spec fn cached_score(scores: Map<Seq<u8>, Score>, identity: Seq<u8>) -> Score {
    if scores.contains_key(identity) {
        scores[identity]
    } else {
        Score::none()
    }
}

spec fn key_at(entries: Seq<CacheEntry>, i: int) -> Seq<u8> {
    entries[i].identity@
}

spec fn holds(entries: Seq<CacheEntry>, key: Seq<u8>) -> bool {
    exists|i: int| 0 <= i < entries.len() && #[trigger] key_at(entries, i) == key
}

spec fn index_of(entries: Seq<CacheEntry>, key: Seq<u8>) -> int {
    choose|i: int| 0 <= i < entries.len() && #[trigger] key_at(entries, i) == key
}

spec fn keys_are_distinct(entries: Seq<CacheEntry>) -> bool {
    forall|i: int, j: int|
        0 <= i < j < entries.len() ==> #[trigger] key_at(entries, i) != #[trigger] key_at(
            entries,
            j,
        )
}

spec fn scores_of(entries: Seq<CacheEntry>) -> Map<Seq<u8>, Score> {
    Map::new(
        |key: Seq<u8>| holds(entries, key),
        |key: Seq<u8>| entries[index_of(entries, key)].score,
    )
}

fn position(entries: &Vec<CacheEntry>, identity: &Identity) -> (r: Option<usize>)
    ensures
        match r {
            Some(i) => i < entries@.len() && key_at(entries@, i as int) == identity@,
            None => !holds(entries@, identity@),
        },
{
    let n = entries.len();
    let mut i: usize = 0;
    while i < n
        invariant
            i <= n,
            n == entries@.len(),
            forall|j: int| 0 <= j < i ==> #[trigger] key_at(entries@, j) != identity@,
        decreases n - i,
    {
        if entries[i].identity.same_as(identity) {
            return Some(i);
        }
        i += 1;
    }
    None
}

/// Writing over the entry of a key that is held keeps every other score.
proof fn overwritten(before: Seq<CacheEntry>, i: int, entry: CacheEntry)
    requires
        keys_are_distinct(before),
        0 <= i < before.len(),
        key_at(before, i) == entry.identity@,
    ensures
        keys_are_distinct(before.update(i, entry)),
        scores_of(before.update(i, entry)) == scores_of(before).insert(
            entry.identity@,
            entry.score,
        ),
{
    let after = before.update(i, entry);
    assert forall|j: int| 0 <= j < after.len() implies key_at(after, j) == key_at(before, j) by {}
    assert forall|k: Seq<u8>| holds(after, k) == (holds(before, k) || k == entry.identity@) by {}
}

/// Adding the entry of a key that is not held keeps every other score.
proof fn appended(before: Seq<CacheEntry>, entry: CacheEntry)
    requires
        keys_are_distinct(before),
        !holds(before, entry.identity@),
    ensures
        keys_are_distinct(before.push(entry)),
        scores_of(before.push(entry)) == scores_of(before).insert(entry.identity@, entry.score),
{
    let after = before.push(entry);
    let last = before.len() as int;
    assert forall|j: int| 0 <= j < last implies key_at(after, j) == key_at(before, j) by {}
    assert(key_at(after, last) == entry.identity@);
    assert forall|k: Seq<u8>| holds(after, k) == (holds(before, k) || k == entry.identity@) by {}
}

impl ReputationCache {
    #[verifier::type_invariant]
    spec fn well_formed(self) -> bool {
        keys_are_distinct(self.entries@)
    }

    /// The scores kept, by the bytes of their identities.
    pub closed spec fn view(&self) -> Map<Seq<u8>, Score> {
        scores_of(self.entries@)
    }

    /// A cache that keeps nothing.
    pub fn new() -> (r: ReputationCache)
        ensures
            r@ == Map::<Seq<u8>, Score>::empty(),
    {
        ReputationCache { entries: Vec::new() }
    }

    /// The score kept for `identity`, and the score of no activity where
    /// none was ever written.
    pub fn get(&self, identity: &Identity) -> (r: Score)
        ensures
            r == cached_score(self@, identity@),
    {
        proof {
            use_type_invariant(self);
        }
        match position(&self.entries, identity) {
            Some(i) => self.entries[i].score,
            None => Score::zero(),
        }
    }

    /// Keeps `score` for `identity`, in place of what was kept for it.
    pub fn set(&mut self, identity: Identity, score: Score)
        ensures
            final(self)@ == old(self)@.insert(identity@, score),
    {
        proof {
            use_type_invariant(&*self);
        }
        let mut entries: Vec<CacheEntry> = Vec::new();
        std::mem::swap(&mut self.entries, &mut entries);
        let entry = CacheEntry { identity, score };
        match position(&entries, &entry.identity) {
            Some(i) => {
                proof {
                    overwritten(entries@, i as int, entry);
                }
                entries.set(i, entry);
            },
            None => {
                proof {
                    appended(entries@, entry);
                }
                entries.push(entry);
            },
        }
        self.entries = entries;
    }
}

/// A cache that was never written gives the score of no activity for every
/// identity.
pub proof fn unwritten_reads_none(identity: Seq<u8>)
    ensures
        cached_score(Map::<Seq<u8>, Score>::empty(), identity) == Score::none(),
        cached_score(Map::<Seq<u8>, Score>::empty(), identity)@ == 0,
{
    Score::none_is_zero();
}

/// After a write to an identity, a read of it gives the score written,
/// whatever was kept before.
pub proof fn read_after_write(scores: Map<Seq<u8>, Score>, identity: Seq<u8>, score: Score)
    ensures
        cached_score(scores.insert(identity, score), identity) == score,
{
}

/// The last write wins: two writes to one identity leave what the second
/// alone would have left.
pub proof fn last_write_wins(
    scores: Map<Seq<u8>, Score>,
    identity: Seq<u8>,
    first: Score,
    second: Score,
)
    ensures
        scores.insert(identity, first).insert(identity, second) == scores.insert(identity, second),
{
    assert(scores.insert(identity, first).insert(identity, second) =~= scores.insert(
        identity,
        second,
    ));
}

/// A write to one identity leaves the score of every other as it was.
pub proof fn write_leaves_others(
    scores: Map<Seq<u8>, Score>,
    written: Seq<u8>,
    other: Seq<u8>,
    score: Score,
)
    requires
        written != other,
    ensures
        cached_score(scores.insert(written, score), other) == cached_score(scores, other),
{
}

} // verus!
