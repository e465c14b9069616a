use michie::{lookup_or_compute, CallSiteRegistry, MemoizationStore, TryMemoizationStore};
use std::any::TypeId;
use std::cell::Cell;
use std::collections::{BTreeMap, HashMap};

#[test]
fn body_runs_once_per_key() {
    let runs = Cell::new(0u32);
    let mut store: HashMap<usize, usize> = HashMap::new();
    let mut f = |_a: bool, b: usize| {
        lookup_or_compute(&mut store, b, || {
            runs.set(runs.get() + 1);
            b + 4
        })
    };
    assert_eq!(f(false, 2), 6);
    assert_eq!(runs.get(), 1);
    assert_eq!(f(true, 2), 6);
    assert_eq!(runs.get(), 1);
    assert_eq!(f(true, 3), 7);
    assert_eq!(runs.get(), 2);
    assert_eq!(f(false, 2), 6);
    assert_eq!(runs.get(), 2);
}

#[test]
fn hit_returns_stored_value_not_new_computation() {
    let mut store: HashMap<u64, u64> = HashMap::new();
    assert_eq!(lookup_or_compute(&mut store, 1, || 10), 10);
    assert_eq!(lookup_or_compute(&mut store, 1, || 20), 10);
    assert_eq!(lookup_or_compute(&mut store, 2, || 20), 20);
    assert_eq!(store.len(), 2);
}

#[test]
fn call_sites_do_not_share_entries() {
    let mut site_a: HashMap<usize, usize> = HashMap::new();
    let mut site_b: HashMap<usize, usize> = HashMap::new();
    assert_eq!(lookup_or_compute(&mut site_a, 5, || 50), 50);
    assert_eq!(lookup_or_compute(&mut site_b, 5, || 51), 51);
    assert_eq!(lookup_or_compute(&mut site_a, 5, || 0), 50);
    assert_eq!(lookup_or_compute(&mut site_b, 5, || 0), 51);
}

#[test]
fn type_identities_get_separate_stores() {
    let mut site: CallSiteRegistry<HashMap<u32, u32>> = CallSiteRegistry::new();
    let first = TypeId::of::<(u32, u32)>();
    let second = TypeId::of::<(u32, String)>();
    let i = site.resolve(first, HashMap::new);
    site.store_mut(i).insert(1, 100);
    let j = site.resolve(second, HashMap::new);
    assert_ne!(i, j);
    assert_eq!(site.len(), 2);
    assert_eq!(MemoizationStore::get(&*site.store_mut(j), &1), None);
    assert_eq!(MemoizationStore::get(&*site.store_mut(i), &1), Some(100));
}

#[test]
fn existing_store_is_resolved_without_init() {
    let mut site: CallSiteRegistry<BTreeMap<u8, u8>> = CallSiteRegistry::new();
    let id = TypeId::of::<(u8, u8)>();
    let i = site.resolve(id, BTreeMap::new);
    site.store_mut(i).insert(4, 40);
    let again = site.resolve(id, || unreachable!());
    assert_eq!(again, i);
    assert_eq!(site.len(), 1);
    assert_eq!(MemoizationStore::get(&*site.store_mut(i), &4), Some(40));
}

#[test]
fn new_registry_is_empty() {
    let site: CallSiteRegistry<HashMap<u8, u8>> = CallSiteRegistry::new();
    assert_eq!(site.len(), 0);
}

#[test]
fn failure_is_retried_success_is_cached() {
    let runs = Cell::new(0u32);
    let mut store: TryMemoizationStore<HashMap<u8, u16>> = TryMemoizationStore::default();
    let mut f = |key: u8, fail: bool| -> Result<u16, String> {
        lookup_or_compute(&mut store, key, || {
            runs.set(runs.get() + 1);
            if fail {
                Err(format!("no value for {}", key))
            } else {
                Ok(key as u16 * 10)
            }
        })
    };
    assert_eq!(f(1, true), Err("no value for 1".to_string()));
    assert_eq!(runs.get(), 1);
    assert_eq!(f(1, true), Err("no value for 1".to_string()));
    assert_eq!(runs.get(), 2);
    assert_eq!(f(1, false), Ok(10));
    assert_eq!(runs.get(), 3);
    assert_eq!(f(1, true), Ok(10));
    assert_eq!(runs.get(), 3);
}

#[test]
fn try_store_keeps_only_successes() {
    let mut store: TryMemoizationStore<BTreeMap<u8, u8>> = TryMemoizationStore(BTreeMap::new());
    let failed: Result<u8, bool> = store.insert(1, Err(true));
    assert_eq!(failed, Err(true));
    assert_eq!(MemoizationStore::<u8, Result<u8, bool>>::get(&store, &1), None);
    assert!(store.0.is_empty());
    let kept: Result<u8, bool> = store.insert(2, Ok(20));
    assert_eq!(kept, Ok(20));
    assert_eq!(MemoizationStore::<u8, Result<u8, bool>>::get(&store, &2), Some(Ok(20)));
    assert_eq!(store.0.get(&2), Some(&20));
}

#[test]
fn ordered_store_for_key_without_hash() {
    #[derive(Clone, Debug, PartialEq, Eq, PartialOrd, Ord)]
    struct Rank(u8, u8);
    let runs = Cell::new(0u32);
    let mut store: BTreeMap<Rank, u32> = BTreeMap::new();
    let mut f = |key: Rank| {
        lookup_or_compute(&mut store, key.clone(), || {
            runs.set(runs.get() + 1);
            key.0 as u32 * 100 + key.1 as u32
        })
    };
    assert_eq!(f(Rank(1, 2)), 102);
    assert_eq!(f(Rank(1, 2)), 102);
    assert_eq!(runs.get(), 1);
    assert_eq!(f(Rank(2, 1)), 201);
    assert_eq!(runs.get(), 2);
}

#[test]
fn insert_then_get_round_trips() {
    let mut hashed: HashMap<u32, String> = HashMap::new();
    let handed_back = MemoizationStore::insert(&mut hashed, 9, "nine".to_string());
    assert_eq!(handed_back, "nine");
    assert_eq!(MemoizationStore::get(&hashed, &9), Some("nine".to_string()));
    assert_eq!(MemoizationStore::get(&hashed, &8), None);

    let mut ordered: BTreeMap<i64, Vec<u8>> = BTreeMap::new();
    assert_eq!(MemoizationStore::insert(&mut ordered, -3, vec![1, 2]), vec![1, 2]);
    assert_eq!(MemoizationStore::get(&ordered, &-3), Some(vec![1, 2]));
}

#[test]
fn insert_replaces_value_for_equal_key() {
    let mut store: HashMap<u8, u8> = HashMap::new();
    MemoizationStore::insert(&mut store, 1, 10);
    MemoizationStore::insert(&mut store, 1, 11);
    assert_eq!(store.len(), 1);
    assert_eq!(MemoizationStore::get(&store, &1), Some(11));
}

