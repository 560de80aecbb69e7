//! The registry: one supervisor per key, made on first use.

use vstd::prelude::*;
use dashmap::DashMap;
use crate::command::texts;
use crate::lifecycle::{Admission, Departure, Event, Supervisor};
use crate::registry::{deliver, lookup, release, Registry};
use crate::task_handle::{
    spawn_failure_text, MessageView, SpawnFailure, SpawnRequest, Subscription, TaskDropGuard,
    TaskHandle,
};
use crate::task_map::{count_entry, entries, new_map, put_entry, take_entry};

verus! {

/// Manages supervisors by key.
pub struct TaskManager {
    tasks: DashMap<String, TaskHandle>,
}

impl View for TaskManager {
    type V = Registry;

    closed spec fn view(&self) -> Registry {
        entries(self.tasks).map_values(|handle: TaskHandle| handle@)
    }
}

impl TaskManager {
    /// A registry without supervisors.
    pub fn new() -> (manager: TaskManager)
        ensures
            manager@ == Map::<Seq<char>, Supervisor>::empty(),
    {
        let manager = TaskManager { tasks: new_map() };
        assert(manager@ =~= Map::<Seq<char>, Supervisor>::empty());
        manager
    }

    /// Number of subscribers of `key`, if the key has a supervisor.
    pub fn subscribers(&self, key: &String) -> (count: Option<usize>)
        ensures
            count is Some <==> self@.contains_key(key@),
            count matches Some(n) ==> n == self@[key@].subscribers,
    {
        count_entry(&self.tasks, key)
    }

    /// Subscribes to `key`, making its supervisor if there is none yet.
    ///
    /// Returns what the supervisor answered, and the guard whose release
    /// takes this subscriber out again.
    pub fn subscribe(&mut self, key: String, cmd: Vec<String>) -> (result: (
        Subscription,
        TaskDropGuard,
    ))
        requires
            lookup(old(self)@, key@).subscribers < usize::MAX,
        ensures
            final(self)@ == deliver(old(self)@, key@, Event::Subscribe(texts(cmd@))),
            result.0.admission == lookup(old(self)@, key@).admission(texts(cmd@)),
            result.0.request is Some <==> result.0.admission == Admission::Spawned,
            result.0.request matches Some(request) ==> request.runs(texts(cmd@)),
            result.0.notice is Some <==> result.0.admission == Admission::Rejected,
            result.0.notice matches Some(notice) ==> notice@ == MessageView::Error(
                spawn_failure_text(),
            ),
            result.1.key() == key@,
            result.1.armed(),
    {
        let mut handle = match take_entry(&mut self.tasks, &key) {
            Some(handle) => handle,
            None => TaskHandle::new(),
        };
        let subscription = handle.subscribe(cmd);
        put_entry(&mut self.tasks, key.clone(), handle);
        assert(self@ =~= deliver(old(self)@, key@, Event::Subscribe(texts(cmd@))));
        (subscription, TaskDropGuard::new(key))
    }

    /// Takes one subscriber of `key` out. A key without a supervisor gives
    /// `None` and changes nothing.
    fn unsubscribe(&mut self, key: &String) -> (departure: Option<Departure>)
        ensures
            final(self)@ == deliver(old(self)@, key@, Event::Unsubscribe),
            departure == if old(self)@.contains_key(key@) {
                Some(old(self)@[key@].departure())
            } else {
                None
            },
    {
        match take_entry(&mut self.tasks, key) {
            Some(mut handle) => {
                let departure = handle.unsubscribe();
                put_entry(&mut self.tasks, key.clone(), handle);
                assert(self@ =~= deliver(old(self)@, key@, Event::Unsubscribe));
                Some(departure)
            },
            None => {
                assert(self@ =~= old(self)@);
                None
            },
        }
    }

    /// Releases a guard: the first release takes its subscriber out of the
    /// supervisor of its key, any later one does nothing. A key without a
    /// supervisor gives `None` and changes nothing.
    pub fn release(&mut self, guard: &mut TaskDropGuard) -> (departure: Option<Departure>)
        ensures
            !final(guard).armed(),
            final(guard).key() == old(guard).key(),
            final(self)@ == release(old(self)@, old(guard).key(), old(guard).armed()),
            departure == if old(guard).armed() && old(self)@.contains_key(old(guard).key()) {
                Some(old(self)@[old(guard).key()].departure())
            } else {
                None
            },
    {
        if guard.release() {
            let key = guard.task_key().clone();
            self.unsubscribe(&key)
        } else {
            None
        }
    }

    /// Records that the process of `key` has ended. Returns the process to
    /// start next, if a command was waiting for this.
    pub fn process_exited(&mut self, key: &String) -> (request: Option<SpawnRequest>)
        ensures
            final(self)@ == deliver(old(self)@, key@, Event::Exited),
            request is Some <==> lookup(old(self)@, key@).respawn() is Some,
            request matches Some(next) ==> next.runs(lookup(old(self)@, key@).respawn()->0),
    {
        match take_entry(&mut self.tasks, key) {
            Some(mut handle) => {
                let request = handle.process_exited();
                put_entry(&mut self.tasks, key.clone(), handle);
                assert(self@ =~= deliver(old(self)@, key@, Event::Exited));
                request
            },
            None => {
                assert(self@ =~= old(self)@);
                None
            },
        }
    }

    /// Records that the process of `key` could not be started; the failure
    /// is broadcast to the subscribers of `key`. A key without a supervisor
    /// gives `None` and changes nothing.
    pub fn spawn_failed(&mut self, key: &String) -> (failure: Option<SpawnFailure>)
        ensures
            final(self)@ == deliver(old(self)@, key@, Event::Exited),
            failure is Some <==> old(self)@.contains_key(key@),
            failure matches Some(report) ==> {
                &&& report.notice@ == MessageView::Error(spawn_failure_text())
                &&& report.request is Some <==> old(self)@[key@].respawn() is Some
                &&& report.request matches Some(next) ==> next.runs(old(self)@[key@].respawn()->0)
            },
    {
        match take_entry(&mut self.tasks, key) {
            Some(mut handle) => {
                let failure = handle.spawn_failed();
                put_entry(&mut self.tasks, key.clone(), handle);
                assert(self@ =~= deliver(old(self)@, key@, Event::Exited));
                Some(failure)
            },
            None => {
                assert(self@ =~= old(self)@);
                None
            },
        }
    }
}

} // verus!
