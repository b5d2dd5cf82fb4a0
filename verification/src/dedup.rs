//! The bounded deduplication cache that detects retried commands.
//!
//! The cache keeps the `capacity` most recently seen command identifiers and
//! evicts the least recently seen one when a fresh identifier arrives at
//! capacity. It is a best-effort optimization, not a durable ledger: an
//! identifier older than the window is treated as new again.

use vstd::prelude::*;

verus! {

/// A bounded most-recent-first window of command identifiers, backed by an
/// LRU cache of the `lru` crate.
#[verifier::external_body]
pub struct DedupCache {
    cache: lru::LruCache<u128, ()>,
}

/// The identifiers held by a cache, most recently seen first.
pub uninterp spec fn dedup_ids(cache: &DedupCache) -> Seq<u128>;

/// The bound the cache was created with.
pub uninterp spec fn dedup_capacity(cache: &DedupCache) -> nat;

/// How one recorded identifier changes the window: an already-present
/// identifier moves to the front; a fresh one is pushed at the front, and at
/// capacity the last (least recently seen) identifier falls out.
pub open spec fn dedup_record(ids: Seq<u128>, capacity: nat, id: u128) -> Seq<u128> {
    let promoted = seq![id] + ids.remove_value(id);
    if promoted.len() > capacity {
        promoted.take(capacity as int)
    } else {
        promoted
    }
}

/// How one `check_and_record` call changes the window, paired with whether
/// the identifier was already present: a present identifier is reported as a
/// duplicate and leaves the window unchanged; a fresh one is recorded.
pub open spec fn dedup_step(ids: Seq<u128>, capacity: nat, id: u128) -> (Seq<u128>, bool) {
    if ids.contains(id) {
        (ids, true)
    } else {
        (dedup_record(ids, capacity, id), false)
    }
}

impl DedupCache {
    /// Creates a cache that remembers the `capacity` most recently seen
    /// identifiers.
    ///
    /// Relies on `lru::LruCache::new`: the new cache is empty and bounded by
    /// the given capacity.
    #[verifier::external_body]
    pub fn new(capacity: usize) -> (r: Self)
        requires
            capacity >= 1,
        ensures
            dedup_ids(&r) == Seq::<u128>::empty(),
            dedup_capacity(&r) == capacity as nat,
    {
        Self { cache: lru::LruCache::new(core::num::NonZeroUsize::new(capacity).unwrap()) }
    }

    /// Reports whether `id` is in the window, without touching recency.
    ///
    /// Relies on `lru::LruCache::contains`: a plain lookup that does not
    /// update the order of the entries.
    #[verifier::external_body]
    pub fn contains(&self, id: u128) -> (r: bool)
        ensures
            r == dedup_ids(self).contains(id),
    {
        self.cache.contains(&id)
    }

    /// Records `id` as the most recently seen identifier, evicting the least
    /// recently seen one if the cache is at capacity.
    ///
    /// Relies on `lru::LruCache::put`: an existing key moves to the front of
    /// the recency order; a fresh key is inserted at the front, and when the
    /// cache is full the entry at the back is evicted first.
    #[verifier::external_body]
    pub fn record(&mut self, id: u128)
        ensures
            dedup_ids(final(self)) == dedup_record(
                dedup_ids(old(self)),
                dedup_capacity(old(self)),
                id,
            ),
            dedup_capacity(final(self)) == dedup_capacity(old(self)),
    {
        self.cache.put(id, ());
    }

    /// The atomic check-then-insert at the heart of command deduplication:
    /// reports whether `id` was already in the window and, only if it was
    /// not, records it.
    pub fn check_and_record(&mut self, id: u128) -> (r: bool)
        ensures
            ({
                let (ids, duplicate) = dedup_step(
                    dedup_ids(old(self)),
                    dedup_capacity(old(self)),
                    id,
                );
                &&& r == duplicate
                &&& dedup_ids(final(self)) == ids
                &&& dedup_capacity(final(self)) == dedup_capacity(old(self))
            }),
    {
        if self.contains(id) {
            true
        } else {
            self.record(id);
            false
        }
    }
}


/// The deduplication window after a sequence of submissions, each checked
/// and recorded in order, starting from an empty cache of the given
/// capacity.
pub open spec fn dedup_window_after(submissions: Seq<u128>, capacity: nat) -> Seq<u128>
    decreases submissions.len(),
{
    if submissions.len() == 0 {
        Seq::<u128>::empty()
    } else {
        dedup_step(
            dedup_window_after(submissions.drop_last(), capacity),
            capacity,
            submissions.last(),
        ).0
    }
}

/// Removing a value that a sequence does not hold changes nothing.
proof fn lemma_remove_value_absent(s: Seq<u128>, x: u128)
    requires
        !s.contains(x),
    ensures
        s.remove_value(x) == s,
{
    s.index_of_first_ensures(x);
}

/// An identifier that was just checked and recorded is in the window, as
/// long as the window holds anything at all.
pub proof fn lemma_recorded_id_is_in_window(ids: Seq<u128>, capacity: nat, id: u128)
    requires
        capacity >= 1,
    ensures
        dedup_step(ids, capacity, id).0.contains(id),
{
    if !ids.contains(id) {
        let promoted = seq![id] + ids.remove_value(id);
        assert(promoted[0] == id);
        if promoted.len() > capacity {
            assert(promoted.take(capacity as int)[0] == id);
        }
    }
}

/// After any run of pairwise-distinct submissions into an empty cache, the
/// window holds exactly the most recent of them, newest first, up to its
/// capacity.
proof fn lemma_distinct_window(submissions: Seq<u128>, capacity: nat)
    requires
        forall|i: int, j: int|
            0 <= i < j < submissions.len() ==> submissions[i] != submissions[j],
    ensures
        ({
            let w = dedup_window_after(submissions, capacity);
            &&& w.len() == if submissions.len() <= capacity {
                submissions.len() as int
            } else {
                capacity as int
            }
            &&& forall|i: int|
                0 <= i < w.len() ==> w[i] == submissions[submissions.len() - 1 - i]
        }),
    decreases submissions.len(),
{
    if submissions.len() > 0 {
        let prefix = submissions.drop_last();
        lemma_distinct_window(prefix, capacity);
        let w0 = dedup_window_after(prefix, capacity);
        let x = submissions.last();
        assert(!w0.contains(x)) by {
            if w0.contains(x) {
                let i = choose|i: int| 0 <= i < w0.len() && w0[i] == x;
                assert(prefix[prefix.len() - 1 - i] == submissions[prefix.len() - 1 - i]);
                assert(submissions[prefix.len() - 1 - i] != submissions[submissions.len() - 1]);
            }
        }
        lemma_remove_value_absent(w0, x);
        let promoted = seq![x] + w0;
        assert forall|i: int|
            0 <= i < dedup_window_after(submissions, capacity).len() implies #[trigger] dedup_window_after(
            submissions,
            capacity,
        )[i] == submissions[submissions.len() - 1 - i] by {
            if i > 0 {
                assert(promoted[i] == w0[i - 1]);
                assert(w0[i - 1] == prefix[prefix.len() - 1 - (i - 1)]);
                assert(prefix[prefix.len() - i] == submissions[submissions.len() - 1 - i]);
            }
        }
    }
}

/// A bounded window of capacity `n`: after `n + 1` pairwise-distinct
/// identifiers are seen, the least recently seen one has been evicted, and
/// a resubmission of it is treated as new.
pub proof fn lemma_least_recent_id_is_evicted(submissions: Seq<u128>, capacity: nat)
    requires
        capacity >= 1,
        submissions.len() == capacity + 1,
        forall|i: int, j: int|
            0 <= i < j < submissions.len() ==> submissions[i] != submissions[j],
    ensures
        !dedup_window_after(submissions, capacity).contains(submissions[0]),
        dedup_step(dedup_window_after(submissions, capacity), capacity, submissions[0]).1
            == false,
{
    lemma_distinct_window(submissions, capacity);
    let w = dedup_window_after(submissions, capacity);
    assert(!w.contains(submissions[0])) by {
        if w.contains(submissions[0]) {
            let i = choose|i: int| 0 <= i < w.len() && w[i] == submissions[0];
            assert(submissions[submissions.len() - 1 - i] == submissions[0]);
            assert(submissions.len() - 1 - i >= 1);
        }
    }
}

} // verus!
