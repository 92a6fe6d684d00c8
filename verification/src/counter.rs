//! The sequential ID allocator: a per-kind cached counter reconciled against
//! the authoritative maximum ID found in the backing collection.

use vstd::prelude::*;

verus! {

/// Larger of two integers.
pub open spec fn max2(a: int, b: int) -> int {
    if a >= b {
        a
    } else {
        b
    }
}

/// The ID the allocator hands out when the cached last-issued ID is `cached`
/// and the largest ID present in the store for this kind is `store_max`.
pub open spec fn next_id(cached: int, store_max: int) -> int {
    max2(cached, store_max) + 1
}

/// Largest ID reported by the store's descending-sort query, with `None`
/// (an empty collection) read as `0`.
pub open spec fn store_max_val(store_max: Option<u64>) -> int {
    match store_max {
        Some(m) => m as int,
        None => 0,
    }
}

/// Per-kind counter state: the last ID known to have been issued for one
/// entity kind. There is one such value per kind, and it must only be read
/// and written inside that kind's critical section.
pub struct IdCounter {
    pub last_id: u64,
}

impl IdCounter {
    /// A fresh counter; `initial` is `0` on a cold start.
    pub fn new(initial: u64) -> (r: IdCounter)
        ensures
            r.last_id == initial,
    {
        IdCounter { last_id: initial }
    }

    /// Reconcile the cached value against the store's maximum and issue the
    /// next ID. The cache advances to the issued ID before the critical
    /// section is released, so the ID is consumed even if the record that
    /// would have used it is never written. `store_max` is `None` when the
    /// collection is empty.
    pub fn allocate(&mut self, store_max: Option<u64>) -> (id: u64)
        requires
            old(self).last_id < u64::MAX,
            store_max matches Some(m) ==> m < u64::MAX,
        ensures
            id == next_id(old(self).last_id as int, store_max_val(store_max)),
            final(self).last_id == id,
            final(self).last_id >= old(self).last_id,
            final(self).last_id as int > store_max_val(store_max),
    {
        let m: u64 = match store_max {
            Some(m) => m,
            None => 0,
        };
        let base = if m > self.last_id {
            m
        } else {
            self.last_id
        };
        self.last_id = base + 1;
        self.last_id
    }
}

/// The cached counter value after the first `i` allocations of a run for one
/// kind, starting from cache value `c0`, where allocation `k` observed
/// `maxes[k]` as the store's maximum. Each allocation issues
/// `next_id(cache, observed max)` and advances the cache to the issued ID.
pub open spec fn run_cache(c0: int, maxes: Seq<int>, i: nat) -> int
    decreases i,
{
    if i == 0 {
        c0
    } else {
        next_id(run_cache(c0, maxes, (i - 1) as nat), maxes[i - 1])
    }
}

/// The ID issued by allocation `i` (0-based) of such a run.
pub open spec fn run_id(c0: int, maxes: Seq<int>, i: nat) -> int {
    run_cache(c0, maxes, (i + 1) as nat)
}

/// Monotonicity: over any run of allocations, whatever store maximum each
/// one observed, the cached counter value never decreases, and every
/// allocation strictly increases it.
pub proof fn lemma_run_cache_monotonic(c0: int, maxes: Seq<int>, i: nat, j: nat)
    requires
        i <= j <= maxes.len(),
    ensures
        run_cache(c0, maxes, i) <= run_cache(c0, maxes, j),
        i < j ==> run_cache(c0, maxes, i) < run_cache(c0, maxes, j),
    decreases j,
{
    if i < j {
        lemma_run_cache_monotonic(c0, maxes, i, (j - 1) as nat);
    }
}

/// Uniqueness: two distinct allocations of a run never issue the same ID,
/// whatever store maxima they observed.
pub proof fn lemma_run_ids_distinct(c0: int, maxes: Seq<int>, i: nat, j: nat)
    requires
        i < j,
        j < maxes.len(),
    ensures
        run_id(c0, maxes, i) != run_id(c0, maxes, j),
{
    lemma_run_cache_monotonic(c0, maxes, (i + 1) as nat, (j + 1) as nat);
}

/// Exact shape of the issued IDs: when the first allocation observes store
/// maximum `m` and no later one observes a maximum above the cache (true
/// when every insert during the run carries an already-issued ID), the run
/// issues exactly the consecutive IDs `max2(c0, m) + 1`, `max2(c0, m) + 2`,
/// and so on.
pub proof fn lemma_run_ids_consecutive(c0: int, maxes: Seq<int>, i: nat)
    requires
        i < maxes.len(),
        forall|k: int| 1 <= k <= i ==> maxes[k] <= run_cache(c0, maxes, k as nat),
    ensures
        run_id(c0, maxes, i) == next_id(c0, maxes[0]) + i,
    decreases i,
{
    if i > 0 {
        lemma_run_ids_consecutive(c0, maxes, (i - 1) as nat);
    }
}

/// Reconciliation: a store record with ID `k` that the cache does not know
/// about wins the reconciliation whenever `k` is at least the cached value,
/// so the next allocation returns `k + 1`, not `cached + 1`.
pub proof fn lemma_reconciliation(cached: int, k: int)
    requires
        k >= cached,
    ensures
        next_id(cached, k) == k + 1,
{
}

/// No reuse: once the cache has advanced to an allocated ID, no later
/// allocation for the kind returns that ID again, whatever store maximum it
/// observes — an ID consumed by a failed insert leaves a gap, never a
/// collision.
pub proof fn lemma_no_reuse(cached: int, id: int, store_max: int)
    requires
        cached >= id,
    ensures
        next_id(cached, store_max) > id,
{
}

} // verus!
