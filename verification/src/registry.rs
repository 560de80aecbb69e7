//! Many supervisors, one per key, as a state machine over plain values.

use vstd::prelude::*;
use crate::lifecycle::{
    balanced, possible, processes, run, step, subscribes, unsubscribes, Event, Supervisor,
};

verus! {

/// The supervisors in existence, by key.
pub type Registry = Map<Seq<char>, Supervisor>;

/// One event, addressed to the supervisor of a key.
pub struct Addressed {
    pub key: Seq<char>,
    pub event: Event,
}

/// The supervisor of `key`; a key that was never used has an idle one.
pub open spec fn lookup(registry: Registry, key: Seq<char>) -> Supervisor {
    if registry.contains_key(key) {
        registry[key]
    } else {
        Supervisor::idle()
    }
}

/// The registry after `event` has reached the supervisor of `key`.
///
/// Subscribing makes the supervisor if the key is new. Nothing else does, and
/// no supervisor is ever removed.
pub open spec fn deliver(registry: Registry, key: Seq<char>, event: Event) -> Registry {
    if event is Subscribe || registry.contains_key(key) {
        registry.insert(key, step(lookup(registry, key), event))
    } else {
        registry
    }
}

/// The registry after a history of addressed events, starting empty.
pub open spec fn replay(events: Seq<Addressed>) -> Registry
    decreases events.len(),
{
    if events.len() == 0 {
        Map::empty()
    } else {
        deliver(replay(events.drop_last()), events.last().key, events.last().event)
    }
}

/// The events of a history that are addressed to `key`, in order.
pub open spec fn history_of(events: Seq<Addressed>, key: Seq<char>) -> Seq<Event>
    decreases events.len(),
{
    if events.len() == 0 {
        Seq::empty()
    } else if events.last().key == key {
        history_of(events.drop_last(), key).push(events.last().event)
    } else {
        history_of(events.drop_last(), key)
    }
}

/// The registry after a guard for `key` is released: a guard that has not
/// fired removes one subscriber, a guard that has fired changes nothing.
pub open spec fn release(registry: Registry, key: Seq<char>, armed: bool) -> Registry {
    if armed {
        deliver(registry, key, Event::Unsubscribe)
    } else {
        registry
    }
}

/// Keys do not interfere: the supervisor of a key is where the events
/// addressed to that key, and no others, have brought it.
pub proof fn lemma_keys_are_independent(events: Seq<Addressed>, key: Seq<char>)
    ensures
        lookup(replay(events), key) == run(Supervisor::idle(), history_of(events, key)),
    decreases events.len(),
{
    if events.len() > 0 {
        let earlier = events.drop_last();
        lemma_keys_are_independent(earlier, key);
        if events.last().key == key {
            let history = history_of(events, key);
            assert(history.drop_last() == history_of(earlier, key));
            assert(history.last() == events.last().event);
        }
    }
}

/// No supervisor is ever removed: a key that has one keeps it.
pub proof fn lemma_supervisors_stay(registry: Registry, key: Seq<char>, event: Event, other: Seq<char>)
    requires
        registry.contains_key(other),
    ensures
        deliver(registry, key, event).contains_key(other),
        other != key ==> deliver(registry, key, event)[other] == registry[other],
{
}

/// For every key, at most one process exists at any moment.
///
/// Whatever is addressed to whatever keys, the processes started for `key`
/// and not yet ended number one at most, and none unless the supervisor of
/// `key` says that one exists.
pub proof fn lemma_one_process_per_key(events: Seq<Addressed>, key: Seq<char>)
    ensures
        processes(Supervisor::idle(), 0, history_of(events, key)) <= lookup(
            replay(events),
            key,
        ).alive() <= 1,
{
    lemma_keys_are_independent(events, key);
    crate::lifecycle::lemma_at_most_one_process(Supervisor::idle(), history_of(events, key));
}

/// For every key, the marker of its supervisor is exact, provided an end is
/// reported for `key` only while a process of `key` exists.
pub proof fn lemma_marker_per_key(events: Seq<Addressed>, key: Seq<char>)
    requires
        possible(Supervisor::idle(), 0, history_of(events, key)),
    ensures
        processes(Supervisor::idle(), 0, history_of(events, key)) == lookup(
            replay(events),
            key,
        ).alive(),
{
    lemma_keys_are_independent(events, key);
    crate::lifecycle::lemma_marker_is_exact(Supervisor::idle(), history_of(events, key));
}

/// Every supervisor of a registry that started empty is well-formed.
pub proof fn lemma_replay_keeps_wf(events: Seq<Addressed>, key: Seq<char>)
    ensures
        lookup(replay(events), key).wf(),
{
    lemma_keys_are_independent(events, key);
    crate::lifecycle::lemma_run_keeps_wf(Supervisor::idle(), history_of(events, key));
}

/// For every key, the subscriber count is the number of subscribes to that
/// key minus the number of unsubscribes from it, as long as no client has
/// left the key more often than it came. The count is never negative.
pub proof fn lemma_count_per_key(events: Seq<Addressed>, key: Seq<char>)
    requires
        balanced(Supervisor::idle(), history_of(events, key)),
    ensures
        lookup(replay(events), key).subscribers == subscribes(history_of(events, key))
            - unsubscribes(history_of(events, key)),
        lookup(replay(events), key).subscribers >= 0,
{
    lemma_keys_are_independent(events, key);
    crate::lifecycle::lemma_count_of_balanced_history(Supervisor::idle(), history_of(events, key));
}

/// The registry after a guard for `key` has been released `times` times in
/// a row; `armed` says whether it had fired before.
pub open spec fn release_repeatedly(
    registry: Registry,
    key: Seq<char>,
    armed: bool,
    times: nat,
) -> Registry
    decreases times,
{
    if times == 0 {
        registry
    } else {
        release_repeatedly(release(registry, key, armed), key, false, (times - 1) as nat)
    }
}

/// A guard fires the decrement once at most: however often it is released,
/// the registry is where the first release left it, and at most one
/// subscriber is gone.
pub proof fn lemma_release_fires_once(registry: Registry, key: Seq<char>, armed: bool, times: nat)
    requires
        times > 0,
    ensures
        release_repeatedly(registry, key, armed, times) == release(registry, key, armed),
        lookup(release_repeatedly(registry, key, armed, times), key).subscribers + 1 >= lookup(
            registry,
            key,
        ).subscribers,
        !armed ==> release_repeatedly(registry, key, armed, times) == registry,
    decreases times,
{
    if times > 1 {
        lemma_release_fires_once(release(registry, key, armed), key, false, (times - 1) as nat);
    } else {
        assert(release_repeatedly(release(registry, key, armed), key, false, 0) == release(
            registry,
            key,
            armed,
        ));
    }
}

} // verus!
