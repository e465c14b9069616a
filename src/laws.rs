//! Laws of memoization, stated over the contracts of the store operations,
//! of `lookup_or_compute` and of the call-site registry.
use crate::memo::memoized_call;
use crate::registry::CallSiteRegistry;
use crate::store::{inserted, looked_up, MemoizationStore, TryMemoizationStore};
use core::any::TypeId;
use vstd::prelude::*;

verus! {

/// Hit after miss: the first call with a key the store does not hold runs the
/// computation; the next call with that key does not change the store and
/// returns a copy of what the first call stored, whatever its own computation
/// would have produced.
pub proof fn lemma_hit_after_miss<K, R, S: MemoizationStore<K, R>, F: FnOnce() -> R, G: FnOnce() -> R>(
    s0: S,
    s1: S,
    s2: S,
    key: K,
    first: F,
    second: G,
    r1: R,
    r2: R,
)
    requires
        !s0.entries().contains_key(key),
        S::keeps(r1),
        memoized_call(s0, s1, key, first, r1),
        memoized_call(s1, s2, key, second, r2),
    ensures
        first.ensures((), r1),
        s2 == s1,
        S::copies(r1, s1.entries()[key]),
        S::copies(s1.entries()[key], r2),
{
}

/// An entry stays: a call with any other key leaves the value stored for
/// `key` as it was, so every later call with `key` still hits.
pub proof fn lemma_entry_kept<K, R, S: MemoizationStore<K, R>, F: FnOnce() -> R>(
    s0: S,
    s1: S,
    key: K,
    other: K,
    compute: F,
    r: R,
)
    requires
        s0.entries().contains_key(key),
        other != key,
        memoized_call(s0, s1, other, compute, r),
    ensures
        s1.entries().contains_key(key),
        s1.entries()[key] == s0.entries()[key],
{
}

/// Call sites are independent: whatever a call at one call site stored, a
/// call at another call site whose store does not hold the key runs its own
/// computation, and the first call site's store is not what it changes.
pub proof fn lemma_call_sites_independent<K, R, S: MemoizationStore<K, R>, F: FnOnce() -> R, G: FnOnce() -> R>(
    a0: S,
    a1: S,
    b0: S,
    b1: S,
    key: K,
    at_a: F,
    at_b: G,
    ra: R,
    rb: R,
)
    requires
        memoized_call(a0, a1, key, at_a, ra),
        memoized_call(b0, b1, key, at_b, rb),
        !b0.entries().contains_key(key),
    ensures
        at_b.ensures((), rb),
        inserted(b0, b1, key, rb),
{
}

/// Type-identity isolation, for work on a store: changing the store of one
/// identity leaves the store of every other identity as it was.
pub proof fn lemma_update_isolated<S>(before: CallSiteRegistry<S>, after: CallSiteRegistry<S>, i: int, other: TypeId)
    requires
        before.wf(),
        0 <= i < before.stores().len(),
        after.identities() == before.identities(),
        after.stores() == before.stores().update(i, after.stores()[i]),
        other != before.identities()[i],
    ensures
        after.store_of(other) == before.store_of(other),
{
    if before.identities().contains(other) {
        let j = before.identities().index_of(other);
        assert(j != i);
    }
}

/// Type-identity isolation, for the creation of a store: adding the store of
/// a new identity leaves the store of every other identity as it was.
pub proof fn lemma_creation_isolated<S>(
    before: CallSiteRegistry<S>,
    after: CallSiteRegistry<S>,
    id: TypeId,
    other: TypeId,
)
    requires
        before.wf(),
        after.wf(),
        after.identities() == before.identities().push(id),
        after.stores() == before.stores().push(after.stores()[before.stores().len() as int]),
        other != id,
    ensures
        after.store_of(other) == before.store_of(other),
{
    let n = before.identities().len();
    if before.identities().contains(other) {
        let j = before.identities().index_of(other);
        assert(after.identities()[j] == other);
        let k = after.identities().index_of(other);
        assert(k == j);
    }
    if after.identities().contains(other) {
        let k = after.identities().index_of(other);
        assert(k != n);
        assert(before.identities()[k] == other);
    }
}

/// Failures are not cached: a call whose computation fails stores nothing, so
/// the next call with that key, if the store did not hold it before, runs its
/// computation again.
pub proof fn lemma_failure_not_cached<K, V, E, S: MemoizationStore<K, V>, F, G>(
    s0: TryMemoizationStore<S>,
    s1: TryMemoizationStore<S>,
    s2: TryMemoizationStore<S>,
    key: K,
    first: F,
    second: G,
    error: E,
    r2: Result<V, E>,
)
    where
        F: FnOnce() -> Result<V, E>,
        G: FnOnce() -> Result<V, E>,
    requires
        !<TryMemoizationStore<S> as MemoizationStore<K, Result<V, E>>>::entries(&s0).contains_key(key),
        memoized_call(s0, s1, key, first, Err(error)),
        memoized_call(s1, s2, key, second, r2),
    ensures
        <TryMemoizationStore<S> as MemoizationStore<K, Result<V, E>>>::entries(&s1)
            == <TryMemoizationStore<S> as MemoizationStore<K, Result<V, E>>>::entries(&s0),
        second.ensures((), r2),
{
}

/// Successes are cached: after a call whose computation succeeds with a value
/// the inner store keeps, the next call with that key returns a copy of it
/// and leaves the store as it was.
pub proof fn lemma_success_cached<K, V, E, S: MemoizationStore<K, V>, F, G>(
    s0: TryMemoizationStore<S>,
    s1: TryMemoizationStore<S>,
    s2: TryMemoizationStore<S>,
    key: K,
    first: F,
    second: G,
    value: V,
    r2: Result<V, E>,
)
    where
        F: FnOnce() -> Result<V, E>,
        G: FnOnce() -> Result<V, E>,
    requires
        !<TryMemoizationStore<S> as MemoizationStore<K, Result<V, E>>>::entries(&s0).contains_key(key),
        S::keeps(value),
        memoized_call(s0, s1, key, first, Ok::<V, E>(value)),
        memoized_call(s1, s2, key, second, r2),
    ensures
        first.ensures((), Ok::<V, E>(value)),
        s2 == s1,
        s1.0.entries().contains_key(key),
        S::copies(value, s1.0.entries()[key]),
        r2 is Ok,
        S::copies(s1.0.entries()[key], r2->Ok_0),
{
}

/// Round trip: right after `insert(key, value)` on a store that keeps
/// `value`, `get(key)` returns a copy of the copy that was stored.
pub proof fn lemma_round_trip<I, R, S: MemoizationStore<I, R>>(before: S, after: S, key: I, value: R, r: Option<R>)
    requires
        S::keeps(value),
        inserted(before, after, key, value),
        looked_up(after, key, r),
    ensures
        r is Some,
        S::copies(value, after.entries()[key]),
        S::copies(after.entries()[key], r->Some_0),
{
}

} // verus!
