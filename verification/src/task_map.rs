//! The map from keys to supervisors, as `dashmap` provides it.
//!
//! The map is only ever reached through an exclusive reference here, so what
//! it holds is a function of the value. That content has a name, `entries`,
//! and each item below says what the call does to it.

use vstd::prelude::*;
use dashmap::DashMap;
use crate::task_handle::TaskHandle;

verus! {

/// `dashmap::DashMap`, carried through as an opaque value.
#[verifier::external_type_specification]
#[verifier::external_body]
#[verifier::reject_recursive_types(K)]
#[verifier::reject_recursive_types(V)]
#[verifier::reject_recursive_types(S)]
pub struct ExDashMap<K, V, S>(DashMap<K, V, S>);

/// The supervisors a map holds, by the text of their key.
pub uninterp spec fn entries(map: DashMap<String, TaskHandle>) -> Map<Seq<char>, TaskHandle>;

/// Calls `DashMap::new`, which makes a map without entries.
#[verifier::external_body]
pub(crate) fn new_map() -> (tasks: DashMap<String, TaskHandle>)
    ensures
        forall|key: Seq<char>| !entries(tasks).contains_key(key),
{
    DashMap::new()
}

/// Calls `DashMap::remove`, which takes the entry of `key` out of the map
/// and returns it, or returns nothing and leaves the map as it was if there
/// is no such entry. The key that comes back with the value is dropped.
#[verifier::external_body]
pub(crate) fn take_entry(map: &mut DashMap<String, TaskHandle>, key: &String) -> (taken: Option<TaskHandle>)
    ensures
        entries(*final(map)) == entries(*old(map)).remove(key@),
        taken == if entries(*old(map)).contains_key(key@) {
            Some(entries(*old(map))[key@])
        } else {
            None
        },
{
    match map.remove(key) {
        Some((_, handle)) => Some(handle),
        None => None,
    }
}

/// Calls `DashMap::insert`, which puts `handle` under `key` and replaces
/// what was there. The value that was replaced, if any, is dropped.
#[verifier::external_body]
pub(crate) fn put_entry(map: &mut DashMap<String, TaskHandle>, key: String, handle: TaskHandle)
    ensures
        entries(*final(map)) == entries(*old(map)).insert(key@, handle),
{
    map.insert(key, handle);
}

/// Calls `DashMap::view` with a closure that reads the subscriber count of
/// the entry. `view` runs the closure on the entry of `key` and returns its
/// result, or returns nothing if there is no such entry.
#[verifier::external_body]
pub(crate) fn count_entry(map: &DashMap<String, TaskHandle>, key: &String) -> (count: Option<usize>)
    ensures
        count is Some <==> entries(*map).contains_key(key@),
        count matches Some(n) ==> n == entries(*map)[key@]@.subscribers,
{
    map.view(key, |_, handle| handle.subscribers())
}

} // verus!
