//! The store contract and its built-in implementations.
use std::collections::{BTreeMap, HashMap};
use std::hash::Hash;
use vstd::prelude::*;
use vstd::laws_cmp::obeys_cmp;
use vstd::std_specs::hash::obeys_key_model;

verus! {

/// A keyed container that can back a memoized call site.
///
/// A store is modelled by `entries`, the associations it holds. The
/// statements about `insert` and `get` hold when `obeys_store_model` does,
/// that is when the store's own comparison of keys agrees with equality of
/// the keys as values (for the built-in stores: when the key type's `Hash`
/// and `Eq`, or its `Ord`, behave as std documents). An implementation that
/// keeps the defaults below promises nothing beyond `insert` handing its
/// value back.
pub trait MemoizationStore<I, R>: Sized {
    /// Whether the store compares keys as equality of values does.
    open spec fn obeys_store_model() -> bool {
        false
    }

    /// The associations the store holds.
    open spec fn entries(&self) -> Map<I, R> {
        Map::empty()
    }

    /// Whether `copy` may be the independent copy the store makes of `value`.
    open spec fn copies(value: R, copy: R) -> bool {
        value == copy
    }

    /// Whether `insert` keeps an association for `value`.
    open spec fn keeps(value: R) -> bool {
        true
    }

    /// Associates `input` with a copy of `return_value`, replacing any
    /// association for an equal key, and hands `return_value` back.
    fn insert(&mut self, input: I, return_value: R) -> (r: R)
        ensures
            r == return_value,
            Self::obeys_store_model() ==> if Self::keeps(return_value) {
                &&& final(self).entries().contains_key(input)
                &&& Self::copies(return_value, final(self).entries()[input])
                &&& final(self).entries() == old(self).entries().insert(input, final(self).entries()[input])
            } else {
                final(self).entries() == old(self).entries()
            },
    ;

    /// A copy of the value associated with `input`, if there is one.
    fn get(&self, input: &I) -> (r: Option<R>)
        ensures
            Self::obeys_store_model() ==> match r {
                Some(v) => self.entries().contains_key(*input) && Self::copies(self.entries()[*input], v),
                None => !self.entries().contains_key(*input),
            },
    ;
}

/// `after` is `before` once `insert(key, value)` has run: when the store
/// keeps `value`, `key` now maps to a copy of it and every other key is as it
/// was; otherwise nothing changed.
pub open spec fn inserted<I, R, S: MemoizationStore<I, R>>(before: S, after: S, key: I, value: R) -> bool {
    if S::keeps(value) {
        &&& after.entries().contains_key(key)
        &&& S::copies(value, after.entries()[key])
        &&& after.entries() == before.entries().insert(key, after.entries()[key])
    } else {
        after.entries() == before.entries()
    }
}

/// `r` is what `get(key)` returns on `store`: a copy of the associated value,
/// or `None` when `key` has no association.
pub open spec fn looked_up<I, R, S: MemoizationStore<I, R>>(store: S, key: I, r: Option<R>) -> bool {
    match r {
        Some(v) => store.entries().contains_key(key) && S::copies(store.entries()[key], v),
        None => !store.entries().contains_key(key),
    }
}

/// The unordered store: keys are compared by `Eq` and `Hash`.
impl<I: Eq + Hash, R: Clone> MemoizationStore<I, R> for HashMap<I, R> {
    open spec fn obeys_store_model() -> bool {
        obeys_key_model::<I>()
    }

    open spec fn entries(&self) -> Map<I, R> {
        self@
    }

    open spec fn copies(value: R, copy: R) -> bool {
        cloned(value, copy)
    }

    open spec fn keeps(value: R) -> bool {
        true
    }

    fn insert(&mut self, input: I, return_value: R) -> (r: R) {
        HashMap::insert(self, input, return_value.clone());
        return_value
    }

    fn get(&self, input: &I) -> (r: Option<R>) {
        HashMap::get(self, input).cloned()
    }
}

/// The ordered store: keys are compared by `Ord`.
impl<I: Ord, R: Clone> MemoizationStore<I, R> for BTreeMap<I, R> {
    open spec fn obeys_store_model() -> bool {
        obeys_cmp::<I>()
    }

    open spec fn entries(&self) -> Map<I, R> {
        self@
    }

    open spec fn copies(value: R, copy: R) -> bool {
        cloned(value, copy)
    }

    open spec fn keeps(value: R) -> bool {
        true
    }

    fn insert(&mut self, input: I, return_value: R) -> (r: R) {
        BTreeMap::insert(self, input, return_value.clone());
        return_value
    }

    fn get(&self, input: &I) -> (r: Option<R>) {
        BTreeMap::get(self, input).cloned()
    }
}

/// A store for fallible computations, over a store `S` of their successes.
///
/// A success is kept in `S`; a failure is handed back and never kept, so the
/// computation that produced it runs again on the next call with that key.
#[derive(Default)]
pub struct TryMemoizationStore<S>(pub S);

impl<K, V, E, S: MemoizationStore<K, V>> MemoizationStore<K, Result<V, E>> for TryMemoizationStore<S> {
    open spec fn obeys_store_model() -> bool {
        S::obeys_store_model()
    }

    open spec fn entries(&self) -> Map<K, Result<V, E>> {
        self.0.entries().map_values(|v: V| Ok(v))
    }

    open spec fn copies(value: Result<V, E>, copy: Result<V, E>) -> bool {
        match (value, copy) {
            (Ok(v), Ok(c)) => S::copies(v, c),
            _ => false,
        }
    }

    open spec fn keeps(value: Result<V, E>) -> bool {
        match value {
            Ok(v) => S::keeps(v),
            Err(_) => false,
        }
    }

    fn insert(&mut self, key: K, value: Result<V, E>) -> (r: Result<V, E>) {
        match value {
            Ok(value) => {
                let kept = self.0.insert(key, value);
                proof {
                    if S::obeys_store_model() && S::keeps(value) {
                        let stored = self.0.entries()[key];
                        assert(<Self as MemoizationStore<K, Result<V, E>>>::entries(self)
                            =~= <Self as MemoizationStore<K, Result<V, E>>>::entries(old(self)).insert(key, Ok(stored)));
                    }
                }
                Ok(kept)
            },
            Err(error) => Err(error),
        }
    }

    fn get(&self, key: &K) -> (r: Option<Result<V, E>>) {
        let found = self.0.get(key);
        proof {
            if self.0.entries().contains_key(*key) {
                assert(<Self as MemoizationStore<K, Result<V, E>>>::entries(self)[*key] == Ok::<V, E>(self.0.entries()[*key]));
            }
        }
        match found {
            Some(value) => Some(Ok(value)),
            None => None,
        }
    }
}

} // verus!
