//! The expiring key-value store that every pending-operation store is made of.

use crate::applications::record::{Record, RecordView};
use moka::sync::Cache;
use std::hash::RandomState;
use std::time::Duration;
use vstd::prelude::*;

verus! {

#[verifier::external_type_specification]
#[verifier::external_body]
#[verifier::reject_recursive_types(K)]
#[verifier::reject_recursive_types(V)]
#[verifier::reject_recursive_types(S)]
pub struct ExCache<K, V, S>(Cache<K, V, S>);

/// A store: text keys, records as values, a capacity and a time to live.
pub type Store = Cache<String, Record, RandomState>;

/// The longest time to live that a store can be built with: a thousand years.
pub const MAX_TIME_TO_LIVE: u64 = 31_536_000_000;

/// The contents of a store to which nothing has been written.
pub open spec fn unwritten() -> Map<Seq<char>, RecordView> {
    Map::empty()
}

/// What has been written to the store and not removed since, whether or not
/// the store can still hand it out.
pub uninterp spec fn written(store: Store) -> Map<Seq<char>, RecordView>;

/// The number of entries that the store was built to keep at most.
pub uninterp spec fn max_capacity(store: Store) -> u64;

/// The number of seconds that the store was built to keep an entry for.
pub uninterp spec fn time_to_live(store: Store) -> u64;

/// `Cache::builder`, with `max_capacity`, `time_to_live` and `build` applied to
/// it: a store with these two limits, to which nothing has been written.
#[verifier::external_body]
pub(crate) fn build(capacity: u64, seconds: u64) -> (store: Store)
    requires
        seconds <= MAX_TIME_TO_LIVE,
    ensures
        written(store) == unwritten(),
        max_capacity(store) == capacity,
        time_to_live(store) == seconds,
{
    Cache::builder().max_capacity(capacity).time_to_live(Duration::from_secs(seconds)).build()
}

/// `Cache::insert`: the value is written under the key, over any earlier one.
/// A store of capacity zero takes nothing.
#[verifier::external_body]
pub(crate) fn insert(store: &mut Store, key: String, value: Record)
    ensures
        written(*final(store)) == if max_capacity(*old(store)) == 0 {
            written(*old(store))
        } else {
            written(*old(store)).insert(key@, value@)
        },
        max_capacity(*final(store)) == max_capacity(*old(store)),
        time_to_live(*final(store)) == time_to_live(*old(store)),
{
    store.insert(key, value)
}

/// `Cache::get`: a copy of the value written under the key, or nothing where
/// the key was never written, was removed, has expired or was evicted.
#[verifier::external_body]
pub(crate) fn get(store: &Store, key: &str) -> (found: Option<Record>)
    ensures
        found matches Some(value) ==> written(*store).contains_key(key@) && written(*store)[key@]
            == value@,
{
    store.get(key)
}

/// `Cache::contains_key`: true only where the key was written and neither
/// removed nor expired since.
#[verifier::external_body]
pub(crate) fn contains_key(store: &Store, key: &str) -> (present: bool)
    ensures
        present ==> written(*store).contains_key(key@),
{
    store.contains_key(key)
}

/// `Cache::remove`: the key is removed; a copy of the value written under it
/// is returned where the store still had it.
#[verifier::external_body]
pub(crate) fn remove(store: &mut Store, key: &str) -> (found: Option<
    Record,
>)
    ensures
        written(*final(store)) == written(*old(store)).remove(key@),
        found matches Some(value) ==> written(*old(store)).contains_key(key@) && written(
            *old(store),
        )[key@] == value@,
        max_capacity(*final(store)) == max_capacity(*old(store)),
        time_to_live(*final(store)) == time_to_live(*old(store)),
{
    store.remove(key)
}

/// `Cache::invalidate`: the key is removed.
#[verifier::external_body]
pub(crate) fn invalidate(store: &mut Store, key: &str)
    ensures
        written(*final(store)) == written(*old(store)).remove(key@),
        max_capacity(*final(store)) == max_capacity(*old(store)),
        time_to_live(*final(store)) == time_to_live(*old(store)),
{
    store.invalidate(key)
}

} // verus!
