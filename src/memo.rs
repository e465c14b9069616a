//! The lookup-or-compute step of a memoized call.
use crate::store::{inserted, MemoizationStore};
use vstd::prelude::*;

verus! {

/// `r` is what a memoized call with `key` returns on `before`, and `after` the
/// store it leaves. On a hit, the result is a copy of the stored value and
/// the store is untouched; on a miss, `compute` produced the result and it
/// was handed to the store's `insert`.
pub open spec fn memoized_call<K, R, S: MemoizationStore<K, R>, F: FnOnce() -> R>(
    before: S,
    after: S,
    key: K,
    compute: F,
    r: R,
) -> bool {
    if before.entries().contains_key(key) {
        &&& after == before
        &&& S::copies(before.entries()[key], r)
    } else {
        &&& compute.ensures((), r)
        &&& inserted(before, after, key, r)
    }
}

/// Returns the value stored for `key`, or else runs `compute`, stores a copy
/// of its result under `key` and returns the result.
pub fn lookup_or_compute<K, R, S, F>(store: &mut S, key: K, compute: F) -> (r: R) where
    S: MemoizationStore<K, R>,
    F: FnOnce() -> R,

    requires
        compute.requires(()),
    ensures
        S::obeys_store_model() ==> memoized_call(*old(store), *final(store), key, compute, r),
{
    match store.get(&key) {
        Some(hit) => hit,
        None => {
            let miss = compute();
            store.insert(key, miss)
        },
    }
}

} // verus!
