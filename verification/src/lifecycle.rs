//! The life of one supervisor as a state machine over plain values.
//!
//! A supervisor counts its subscribers and owns at most one process. The
//! functions here say, for each thing that can happen to it, what the next
//! state is and what has to be done. The executable supervisor follows them
//! step by step; the laws at the end speak of whole histories.

use vstd::prelude::*;

verus! {

/// Where the process of a supervisor stands.
#[derive(Debug, Clone, Copy, PartialEq, Eq, Structural)]
pub enum Phase {
    /// No process exists.
    Idle,
    /// A process has been asked for and has not been told to stop.
    Running,
    /// The process has been told to stop and has not ended yet.
    Stopping,
}

/// What a subscribe call found and did.
#[derive(Debug, Clone, Copy, PartialEq, Eq, Structural)]
pub enum Admission {
    /// Other subscribers were there already; nothing is started.
    Joined,
    /// First subscriber, no process: one is started now.
    Spawned,
    /// First subscriber while the previous process is still stopping: the
    /// command is kept and started once that process has ended.
    Deferred,
    /// First subscriber with an empty command: nothing can be started.
    Rejected,
}

/// What an unsubscribe call found and did.
#[derive(Debug, Clone, Copy, PartialEq, Eq, Structural)]
pub enum Departure {
    /// There was no subscriber to remove; the state is left as it was.
    Refused,
    /// Other subscribers remain.
    Remaining,
    /// The last subscriber left and the running process was told to stop.
    LastCancelled,
    /// The last subscriber left and no process needed to be told.
    Last,
}

/// The state of one supervisor.
pub struct Supervisor {
    /// Number of subscribers that have not left.
    pub subscribers: nat,
    /// Where the process stands.
    pub phase: Phase,
    /// Command to start once the stopping process has ended.
    pub pending: Option<Seq<Seq<char>>>,
}

impl Supervisor {
    /// A supervisor that nobody has used yet.
    pub open spec fn idle() -> Supervisor {
        Supervisor { subscribers: 0, phase: Phase::Idle, pending: None }
    }

    /// Number of processes this state stands for: one unless idle.
    pub open spec fn alive(self) -> nat {
        if self.phase is Idle {
            0
        } else {
            1
        }
    }

    /// What holds of every state that can be reached from `idle`.
    pub open spec fn wf(self) -> bool {
        &&& self.phase is Running ==> self.subscribers > 0
        &&& self.pending matches Some(command) ==> {
            &&& self.phase is Stopping
            &&& self.subscribers > 0
            &&& command.len() > 0
        }
    }

    /// What subscribing with `command` finds.
    pub open spec fn admission(self, command: Seq<Seq<char>>) -> Admission {
        if self.subscribers > 0 {
            Admission::Joined
        } else if command.len() == 0 {
            Admission::Rejected
        } else {
            match self.phase {
                Phase::Idle => Admission::Spawned,
                Phase::Stopping => Admission::Deferred,
                Phase::Running => Admission::Joined,
            }
        }
    }

    /// The state after subscribing with `command`.
    pub open spec fn subscribe(self, command: Seq<Seq<char>>) -> Supervisor {
        match self.admission(command) {
            Admission::Spawned => Supervisor {
                subscribers: self.subscribers + 1,
                phase: Phase::Running,
                pending: self.pending,
            },
            Admission::Deferred => Supervisor {
                subscribers: self.subscribers + 1,
                phase: self.phase,
                pending: Some(command),
            },
            _ => Supervisor {
                subscribers: self.subscribers + 1,
                phase: self.phase,
                pending: self.pending,
            },
        }
    }

    /// What unsubscribing finds.
    pub open spec fn departure(self) -> Departure {
        if self.subscribers == 0 {
            Departure::Refused
        } else if self.subscribers > 1 {
            Departure::Remaining
        } else if self.phase is Running {
            Departure::LastCancelled
        } else {
            Departure::Last
        }
    }

    /// The state after unsubscribing.
    pub open spec fn unsubscribe(self) -> Supervisor {
        match self.departure() {
            Departure::Refused => self,
            Departure::Remaining => Supervisor {
                subscribers: (self.subscribers - 1) as nat,
                phase: self.phase,
                pending: self.pending,
            },
            Departure::LastCancelled => Supervisor {
                subscribers: 0,
                phase: Phase::Stopping,
                pending: None,
            },
            Departure::Last => Supervisor { subscribers: 0, phase: self.phase, pending: None },
        }
    }

    /// The command to start when the process ends in this state, if any.
    pub open spec fn respawn(self) -> Option<Seq<Seq<char>>> {
        match self.pending {
            Some(command) if self.phase is Stopping && self.subscribers > 0 && command.len() > 0 =>
                Some(command),
            _ => None,
        }
    }

    /// The state after the process has ended, for whatever reason.
    pub open spec fn exited(self) -> Supervisor {
        match self.phase {
            Phase::Idle => Supervisor {
                subscribers: self.subscribers,
                phase: Phase::Idle,
                pending: None,
            },
            Phase::Running => Supervisor {
                subscribers: self.subscribers,
                phase: Phase::Idle,
                pending: None,
            },
            Phase::Stopping => Supervisor {
                subscribers: self.subscribers,
                phase: if self.respawn() is Some {
                    Phase::Running
                } else {
                    Phase::Idle
                },
                pending: None,
            },
        }
    }
}

/// One thing that happens to a supervisor.
pub enum Event {
    /// A client subscribes with this command.
    Subscribe(Seq<Seq<char>>),
    /// A client leaves.
    Unsubscribe,
    /// The process has ended: by itself, killed, or because it never started.
    Exited,
}

/// The state after one event.
pub open spec fn step(state: Supervisor, event: Event) -> Supervisor {
    match event {
        Event::Subscribe(command) => state.subscribe(command),
        Event::Unsubscribe => state.unsubscribe(),
        Event::Exited => state.exited(),
    }
}

/// Whether this event makes the supervisor start a process.
pub open spec fn starts(state: Supervisor, event: Event) -> bool {
    match event {
        Event::Subscribe(command) => state.admission(command) == Admission::Spawned,
        Event::Unsubscribe => false,
        Event::Exited => state.respawn() is Some,
    }
}

/// Whether this event makes the supervisor signal its process to stop.
pub open spec fn signals(state: Supervisor, event: Event) -> bool {
    event is Unsubscribe && state.departure() == Departure::LastCancelled
}

/// The state after a history of events, oldest first.
pub open spec fn run(start: Supervisor, events: Seq<Event>) -> Supervisor
    decreases events.len(),
{
    if events.len() == 0 {
        start
    } else {
        step(run(start, events.drop_last()), events.last())
    }
}

/// Number of processes in existence after a history, counted without looking
/// at the supervisor's own marker: each start adds one, each end removes one.
/// `before` is the number that existed at the start.
pub open spec fn processes(start: Supervisor, before: int, events: Seq<Event>) -> int
    decreases events.len(),
{
    if events.len() == 0 {
        before
    } else {
        let earlier = events.drop_last();
        let state = run(start, earlier);
        let count = processes(start, before, earlier);
        let ended: int = if events.last() is Exited { 1 } else { 0 };
        let started: int = if starts(state, events.last()) { 1 } else { 0 };
        count - ended + started
    }
}

/// A history is possible if an end is reported only while a process exists.
pub open spec fn possible(start: Supervisor, before: int, events: Seq<Event>) -> bool
    decreases events.len(),
{
    if events.len() == 0 {
        true
    } else {
        let earlier = events.drop_last();
        &&& possible(start, before, earlier)
        &&& events.last() is Exited ==> processes(start, before, earlier) > 0
    }
}

/// Number of subscribe events in a history.
pub open spec fn subscribes(events: Seq<Event>) -> int
    decreases events.len(),
{
    if events.len() == 0 {
        0
    } else {
        subscribes(events.drop_last()) + if events.last() is Subscribe { 1int } else { 0int }
    }
}

/// Number of unsubscribe events in a history.
pub open spec fn unsubscribes(events: Seq<Event>) -> int
    decreases events.len(),
{
    if events.len() == 0 {
        0
    } else {
        unsubscribes(events.drop_last()) + if events.last() is Unsubscribe { 1int } else { 0int }
    }
}

/// Number of unsubscribe events in a history that found no subscriber.
pub open spec fn refusals(start: Supervisor, events: Seq<Event>) -> int
    decreases events.len(),
{
    if events.len() == 0 {
        0
    } else {
        let earlier = events.drop_last();
        let refused = events.last() is Unsubscribe && run(start, earlier).subscribers == 0;
        refusals(start, earlier) + if refused { 1int } else { 0int }
    }
}

/// Every step keeps a well-formed state well-formed.
pub proof fn lemma_step_keeps_wf(state: Supervisor, event: Event)
    requires
        state.wf(),
    ensures
        step(state, event).wf(),
{
}

/// Every state reached from a well-formed one is well-formed.
pub proof fn lemma_run_keeps_wf(start: Supervisor, events: Seq<Event>)
    requires
        start.wf(),
    ensures
        run(start, events).wf(),
    decreases events.len(),
{
    if events.len() > 0 {
        lemma_run_keeps_wf(start, events.drop_last());
        lemma_step_keeps_wf(run(start, events.drop_last()), events.last());
    }
}

/// At most one process exists for a supervisor at any moment.
///
/// Over every history the number of processes started and not yet ended is
/// no more than what the supervisor's phase says, which is zero or one. In
/// particular no process is started while another one exists.
pub proof fn lemma_at_most_one_process(start: Supervisor, events: Seq<Event>)
    requires
        start.wf(),
    ensures
        processes(start, start.alive() as int, events) <= run(start, events).alive() <= 1,
    decreases events.len(),
{
    if events.len() > 0 {
        let earlier = events.drop_last();
        lemma_at_most_one_process(start, earlier);
        lemma_run_keeps_wf(start, earlier);
    }
}

/// The marker of a supervisor is exact: over every possible history, a
/// process exists if and only if the phase is not idle.
pub proof fn lemma_marker_is_exact(start: Supervisor, events: Seq<Event>)
    requires
        start.wf(),
        possible(start, start.alive() as int, events),
    ensures
        processes(start, start.alive() as int, events) == run(start, events).alive(),
    decreases events.len(),
{
    if events.len() > 0 {
        let earlier = events.drop_last();
        lemma_marker_is_exact(start, earlier);
        lemma_run_keeps_wf(start, earlier);
    }
}

/// Two first subscribers that come at the same moment are served one after
/// the other, in either order, and only the one served first starts the
/// process.
pub proof fn lemma_one_start_for_two_subscribers(
    state: Supervisor,
    one: Seq<Seq<char>>,
    other: Seq<Seq<char>>,
)
    requires
        state.wf(),
        state.subscribers == 0,
        state.phase is Idle,
        one.len() > 0,
        other.len() > 0,
    ensures
        starts(state, Event::Subscribe(one)),
        !starts(state.subscribe(one), Event::Subscribe(other)),
        starts(state, Event::Subscribe(other)),
        !starts(state.subscribe(other), Event::Subscribe(one)),
        state.subscribe(one).subscribe(other).subscribers == 2,
        state.subscribe(one).subscribe(other).phase is Running,
{
}

/// Two last subscribers that leave at the same moment are served one after
/// the other, and only the one served last tells the process to stop.
pub proof fn lemma_one_signal_for_two_leavers(state: Supervisor)
    requires
        state.wf(),
        state.subscribers == 2,
        state.phase is Running,
    ensures
        !signals(state, Event::Unsubscribe),
        signals(state.unsubscribe(), Event::Unsubscribe),
        state.unsubscribe().unsubscribe().subscribers == 0,
        state.unsubscribe().unsubscribe().phase is Stopping,
        !signals(state.unsubscribe().unsubscribe(), Event::Unsubscribe),
{
}

/// A process is started only when none exists.
pub proof fn lemma_start_needs_no_process(state: Supervisor, event: Event)
    requires
        state.wf(),
        starts(state, event),
    ensures
        event is Exited ==> state.alive() == 1 && step(state, event).alive() == 1,
        !(event is Exited) ==> state.alive() == 0 && step(state, event).alive() == 1,
{
}

/// When the last subscriber leaves a running process, the process is told to
/// stop in that very step; when the first subscriber comes and no process
/// exists, one is started in that very step.
pub proof fn lemma_edges_act_at_once(state: Supervisor, command: Seq<Seq<char>>)
    requires
        state.wf(),
    ensures
        state.subscribers == 1 && state.phase is Running ==> {
            &&& signals(state, Event::Unsubscribe)
            &&& state.unsubscribe().subscribers == 0
            &&& state.unsubscribe().phase is Stopping
        },
        state.subscribers == 0 && state.phase is Idle && command.len() > 0 ==> {
            &&& starts(state, Event::Subscribe(command))
            &&& state.subscribe(command).subscribers == 1
            &&& state.subscribe(command).phase is Running
        },
        state.subscribers == 0 ==> !(state.phase is Running),
{
}

/// A first subscriber that comes while the previous process is still
/// stopping is not forgotten: if it stays, its command is started in the
/// step that reports the end of that process.
pub proof fn lemma_deferred_start_follows_end(state: Supervisor, command: Seq<Seq<char>>)
    requires
        state.wf(),
        state.subscribers == 0,
        state.phase is Stopping,
        command.len() > 0,
    ensures
        state.admission(command) == Admission::Deferred,
        starts(state.subscribe(command), Event::Exited),
        state.subscribe(command).respawn() == Some(command),
        state.subscribe(command).exited().phase is Running,
{
}

/// After a process has ended, the next first subscriber starts a fresh one:
/// the end clears the marker unless a waiting command is started right away,
/// and an idle supervisor without subscribers starts whatever comes first.
pub proof fn lemma_fresh_start_after_end(state: Supervisor, command: Seq<Seq<char>>)
    requires
        state.wf(),
        command.len() > 0,
    ensures
        state.exited().phase is Idle || starts(state, Event::Exited),
        state.exited().phase is Idle && state.exited().subscribers == 0 ==> starts(
            state.exited(),
            Event::Subscribe(command),
        ),
{
}

/// The subscriber count is the number of subscribes minus the number of
/// unsubscribes that found a subscriber to remove. It never goes below zero.
pub proof fn lemma_count_is_balance(start: Supervisor, events: Seq<Event>)
    ensures
        run(start, events).subscribers == start.subscribers + subscribes(events) - unsubscribes(
            events,
        ) + refusals(start, events),
        refusals(start, events) >= 0,
    decreases events.len(),
{
    if events.len() > 0 {
        lemma_count_is_balance(start, events.drop_last());
    }
}

/// Whether no unsubscribe in the history comes without a subscriber to remove.
pub open spec fn balanced(start: Supervisor, events: Seq<Event>) -> bool {
    forall|n: int|
        0 <= n <= events.len() ==> start.subscribers + subscribes(#[trigger] events.take(n))
            - unsubscribes(events.take(n)) >= 0
}

/// In a history where no client leaves more often than it came, the
/// subscriber count equals subscribes minus unsubscribes.
pub proof fn lemma_count_of_balanced_history(start: Supervisor, events: Seq<Event>)
    requires
        balanced(start, events),
    ensures
        run(start, events).subscribers == start.subscribers + subscribes(events) - unsubscribes(
            events,
        ),
        refusals(start, events) == 0,
    decreases events.len(),
{
    if events.len() > 0 {
        let earlier = events.drop_last();
        assert forall|n: int| 0 <= n <= earlier.len() implies start.subscribers + subscribes(
            #[trigger] earlier.take(n),
        ) - unsubscribes(earlier.take(n)) >= 0 by {
            assert(earlier.take(n) == events.take(n));
        }
        lemma_count_of_balanced_history(start, earlier);
        assert(events.take(events.len() as int) == events);
    } else {
        assert(events.take(0) == events);
    }
}

} // verus!
