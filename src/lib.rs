//! Function-level memoization: a store contract that any keyed container can
//! meet, the built-in hash and ordered stores, an adapter that never caches
//! failures, the lookup-or-compute step, and the per-call-site registry that
//! keeps one store for each (key type, value type) pair.
pub mod store;
pub mod memo;
pub mod registry;
pub mod laws;

pub use memo::lookup_or_compute;
pub use registry::CallSiteRegistry;
pub use store::{MemoizationStore, TryMemoizationStore};
