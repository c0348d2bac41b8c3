//! Batched access to a key-value store.
use vstd::prelude::*;

verus! {

/// A store that reads, writes and removes many entries in one call, for
/// runtimes that move many items per block.
pub trait HighTpsStorage {
    fn batch_read<K, V>(keys: &[K]) -> Vec<Option<V>>;

    fn batch_write<K, V>(items: &[(K, V)]);

    fn batch_remove<K>(keys: &[K]);
}

} // verus!
