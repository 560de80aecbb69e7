//! The supervisor of one key: its subscribers, its process, its channel.

use vstd::prelude::*;
use vstd::string::*;
use tokio::sync::broadcast::{Receiver, Sender};
use tokio_util::sync::CancellationToken;
use crate::cancel::{new_token, share_token, signal_token};
use crate::channel::{asked_capacity, new_receiver, open_channel, send_message, share_sender};
use crate::command::{split_command, texts};
use crate::forward::Forwarder;
use crate::lifecycle::{Admission, Departure, Phase, Supervisor};

verus! {

/// One line of process output, or a text that stands in a message.
pub type Output = String;

/// What a supervisor sends to its subscribers.
#[derive(Clone, Debug)]
pub enum TaskMessage {
    /// One line that the process wrote.
    Data(Output),
    /// A remark that is not process output.
    Comment(Output),
    /// The process could not be started, read or stopped.
    Error(Output),
    /// The process ended by itself; no more data follows.
    Eof,
}

/// A message as contracts speak of it.
pub enum MessageView {
    Data(Seq<char>),
    Comment(Seq<char>),
    Error(Seq<char>),
    Eof,
}

impl View for TaskMessage {
    type V = MessageView;

    open spec fn view(&self) -> MessageView {
        match self {
            TaskMessage::Data(line) => MessageView::Data(line@),
            TaskMessage::Comment(text) => MessageView::Comment(text@),
            TaskMessage::Error(text) => MessageView::Error(text@),
            TaskMessage::Eof => MessageView::Eof,
        }
    }
}

impl TaskMessage {
    /// A second message with the same content.
    pub fn duplicate(&self) -> (copy: TaskMessage)
        ensures
            copy@ == self@,
    {
        match self {
            TaskMessage::Data(line) => TaskMessage::Data(line.clone()),
            TaskMessage::Comment(text) => TaskMessage::Comment(text.clone()),
            TaskMessage::Error(text) => TaskMessage::Error(text.clone()),
            TaskMessage::Eof => TaskMessage::Eof,
        }
    }
}

/// Number of messages the channel of a supervisor keeps for slow receivers.
pub const CHANNEL_CAPACITY: usize = 100;

/// The text of the error that reports a process that could not be started.
pub open spec fn spawn_failure_text() -> Seq<char> {
    "Spawn task failed"@
}

/// The message that reports a process that could not be started.
pub fn spawn_failure() -> (message: TaskMessage)
    ensures
        message@ == MessageView::Error(spawn_failure_text()),
{
    TaskMessage::Error(String::from_str("Spawn task failed"))
}

/// Everything needed to start the process of a supervisor and to forward
/// its output.
pub struct SpawnRequest {
    /// Path of the executable.
    pub program: String,
    /// Arguments to pass to it.
    pub args: Vec<String>,
    /// Handle on which the request to stop arrives.
    pub token: CancellationToken,
    /// Where the output of the process goes.
    pub forwarder: Forwarder,
}

impl SpawnRequest {
    /// Whether this request starts `command` and forwards for it from the
    /// beginning.
    pub open spec fn runs(&self, command: Seq<Seq<char>>) -> bool {
        &&& command.len() > 0
        &&& self.program@ == command[0]
        &&& texts(self.args@) == command.skip(1)
        &&& self.forwarder.command() == command
        &&& !self.forwarder.done()
    }
}

/// What a subscriber gets back.
pub struct Subscription {
    /// The subscriber's end of the channel, made before anything else is
    /// sent by the call that returns it.
    pub receiver: Receiver<TaskMessage>,
    /// What the supervisor found and did.
    pub admission: Admission,
    /// The process to start, if this call has to start one.
    pub request: Option<SpawnRequest>,
    /// What this call broadcast, if anything.
    pub notice: Option<TaskMessage>,
}

/// What a supervisor reports when its process could not be started.
pub struct SpawnFailure {
    /// The error that was broadcast.
    pub notice: TaskMessage,
    /// The process to start next, if a command was waiting.
    pub request: Option<SpawnRequest>,
}

/// The supervisor of one key.
pub struct TaskHandle {
    tx: Sender<TaskMessage>,
    ref_count: usize,
    cancel_token: Option<CancellationToken>,
    stopping: bool,
    pending: Option<Vec<String>>,
}

impl View for TaskHandle {
    type V = Supervisor;

    closed spec fn view(&self) -> Supervisor {
        Supervisor {
            subscribers: self.ref_count as nat,
            phase: if self.cancel_token is None {
                Phase::Idle
            } else if self.stopping {
                Phase::Stopping
            } else {
                Phase::Running
            },
            pending: match self.pending {
                Some(command) => Some(texts(command@)),
                None => None,
            },
        }
    }
}

impl TaskHandle {
    /// The capacity of the channel of this supervisor.
    pub closed spec fn capacity(&self) -> nat {
        asked_capacity(self.tx)
    }

    /// A supervisor without subscribers and without a process, with a
    /// channel of the default capacity.
    pub fn new() -> (handle: TaskHandle)
        ensures
            handle@ == Supervisor::idle(),
            handle.capacity() == CHANNEL_CAPACITY,
    {
        TaskHandle {
            tx: open_channel(CHANNEL_CAPACITY),
            ref_count: 0,
            cancel_token: None,
            stopping: false,
            pending: None,
        }
    }

    /// Number of subscribers that have not left.
    pub fn subscribers(&self) -> (count: usize)
        ensures
            count == self@.subscribers,
    {
        self.ref_count
    }

    /// Where the process stands.
    pub fn phase(&self) -> (phase: Phase)
        ensures
            phase == self@.phase,
    {
        if self.cancel_token.is_none() {
            Phase::Idle
        } else if self.stopping {
            Phase::Stopping
        } else {
            Phase::Running
        }
    }

    /// Adds a subscriber.
    ///
    /// The first subscriber of an idle supervisor starts the process: the
    /// marker that a process exists is set in the same step that counts the
    /// subscriber, and the request to start it is handed back. While the
    /// previous process is still stopping the command is kept instead, and
    /// started when that process has ended. An empty command starts nothing
    /// and is answered with the spawn failure notice. Later subscribers join
    /// what is there.
    pub fn subscribe(&mut self, cmd: Vec<String>) -> (subscription: Subscription)
        requires
            old(self)@.subscribers < usize::MAX,
        ensures
            final(self)@ == old(self)@.subscribe(texts(cmd@)),
            final(self).capacity() == old(self).capacity(),
            subscription.admission == old(self)@.admission(texts(cmd@)),
            subscription.request is Some <==> subscription.admission == Admission::Spawned,
            subscription.request matches Some(request) ==> request.runs(texts(cmd@)),
            subscription.notice is Some <==> subscription.admission == Admission::Rejected,
            subscription.notice matches Some(notice) ==> notice@ == MessageView::Error(
                spawn_failure_text(),
            ),
    {
        let first = self.ref_count == 0;
        self.ref_count += 1;
        let receiver = new_receiver(&self.tx);
        if !first {
            return Subscription { receiver, admission: Admission::Joined, request: None, notice: None };
        }
        if cmd.len() == 0 {
            let notice = spawn_failure();
            send_message(&self.tx, notice.duplicate());
            return Subscription {
                receiver,
                admission: Admission::Rejected,
                request: None,
                notice: Some(notice),
            };
        }
        if self.cancel_token.is_none() {
            let request = self.start(cmd);
            Subscription { receiver, admission: Admission::Spawned, request: Some(request), notice: None }
        } else if self.stopping {
            self.pending = Some(cmd);
            Subscription { receiver, admission: Admission::Deferred, request: None, notice: None }
        } else {
            Subscription { receiver, admission: Admission::Joined, request: None, notice: None }
        }
    }

    /// Removes a subscriber.
    ///
    /// When the last one leaves, the running process is told to stop; the
    /// marker that a process exists stays until the process is reported to
    /// have ended. Without a subscriber to remove nothing changes and the
    /// call says so.
    pub fn unsubscribe(&mut self) -> (departure: Departure)
        ensures
            final(self)@ == old(self)@.unsubscribe(),
            final(self).capacity() == old(self).capacity(),
            departure == old(self)@.departure(),
    {
        if self.ref_count == 0 {
            return Departure::Refused;
        }
        if self.ref_count > 1 {
            self.ref_count -= 1;
            return Departure::Remaining;
        }
        self.ref_count = 0;
        self.pending = None;
        if self.stopping {
            return Departure::Last;
        }
        match &self.cancel_token {
            Some(token) => {
                signal_token(token);
                self.stopping = true;
                Departure::LastCancelled
            },
            None => Departure::Last,
        }
    }

    /// Records that the process has ended: by itself, after a failed read, or
    /// killed. The marker is cleared; if a command was waiting for this and
    /// its subscribers are still there, the request to start it is returned.
    pub fn process_exited(&mut self) -> (request: Option<SpawnRequest>)
        ensures
            final(self)@ == old(self)@.exited(),
            final(self).capacity() == old(self).capacity(),
            request is Some <==> old(self)@.respawn() is Some,
            request matches Some(next) ==> next.runs(old(self)@.respawn()->0),
    {
        let waiting = self.pending.take();
        let respawn = self.cancel_token.is_some() && self.stopping && self.ref_count > 0;
        self.cancel_token = None;
        self.stopping = false;
        match waiting {
            Some(command) => {
                if respawn && command.len() > 0 {
                    Some(self.start(command))
                } else {
                    None
                }
            },
            None => None,
        }
    }

    /// Records that the process could not be started. The failure is
    /// broadcast to the subscribers, and the state changes as for a process
    /// that has ended, so that a later first subscriber starts anew.
    pub fn spawn_failed(&mut self) -> (failure: SpawnFailure)
        ensures
            final(self)@ == old(self)@.exited(),
            final(self).capacity() == old(self).capacity(),
            failure.notice@ == MessageView::Error(spawn_failure_text()),
            failure.request is Some <==> old(self)@.respawn() is Some,
            failure.request matches Some(next) ==> next.runs(old(self)@.respawn()->0),
    {
        let notice = spawn_failure();
        send_message(&self.tx, notice.duplicate());
        let request = self.process_exited();
        SpawnFailure { notice, request }
    }

    /// Sets the marker for a new process and makes the request that starts it.
    fn start(&mut self, command: Vec<String>) -> (request: SpawnRequest)
        requires
            command.len() > 0,
        ensures
            request.runs(texts(command@)),
            final(self).capacity() == old(self).capacity(),
            final(self)@ == (Supervisor {
                subscribers: old(self)@.subscribers,
                phase: Phase::Running,
                pending: old(self)@.pending,
            }),
    {
        let token = new_token();
        self.cancel_token = Some(share_token(&token));
        self.stopping = false;
        let (program, args) = match split_command(&command) {
            Some(parts) => parts,
            None => (String::new(), Vec::new()),
        };
        let forwarder = Forwarder::new(share_sender(&self.tx), command);
        SpawnRequest { program, args, token, forwarder }
    }
}

/// The handle a subscriber holds on its subscription.
///
/// Releasing it through the registry takes the subscriber out of the count
/// of its key. The guard fires once: the first release says so, every later
/// one does nothing.
pub struct TaskDropGuard {
    key: String,
    armed: bool,
}

impl TaskDropGuard {
    /// The key whose supervisor this guard counts in.
    pub closed spec fn key(&self) -> Seq<char> {
        self.key@
    }

    /// Whether the guard has not fired yet.
    pub closed spec fn armed(&self) -> bool {
        self.armed
    }

    /// A guard for one subscription to `key`, not fired yet.
    pub fn new(key: String) -> (guard: TaskDropGuard)
        ensures
            guard.key() == key@,
            guard.armed(),
    {
        TaskDropGuard { key, armed: true }
    }

    pub fn is_armed(&self) -> (armed: bool)
        ensures
            armed == self.armed(),
    {
        self.armed
    }

    pub fn task_key(&self) -> (key: &String)
        ensures
            key@ == self.key(),
    {
        &self.key
    }

    /// Fires the guard. Tells whether this call was the one that fired it.
    pub fn release(&mut self) -> (fired: bool)
        ensures
            fired == old(self).armed(),
            !final(self).armed(),
            final(self).key() == old(self).key(),
    {
        let fired = self.armed;
        self.armed = false;
        fired
    }
}

} // verus!
