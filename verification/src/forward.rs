//! Forwarding the output of one process to the subscribers of its key.
//!
//! The task that owns the process reads its output and waits for the
//! cancellation signal. Each thing it sees goes through a `Forwarder`, which
//! decides what is broadcast and whether the task is finished.

use vstd::prelude::*;
use vstd::string::*;
use tokio::sync::broadcast::Sender;
use crate::channel::send_message;
use crate::command::texts;
use crate::task_handle::{MessageView, TaskMessage};

verus! {

/// What reading the next line of process output gave.
#[derive(Debug)]
pub enum ReadOutcome {
    /// One line of text.
    Line(String),
    /// The process closed its output.
    End,
    /// Reading failed; the text says how.
    Failed(String),
}

/// One thing seen by the task that owns a process.
pub enum Input {
    /// One line of output was read.
    Line(Seq<char>),
    /// The output ended.
    End,
    /// Reading the output failed.
    Failed(Seq<char>),
    /// The cancellation signal came and the process was killed; the text, if
    /// any, says why killing it failed.
    Cancelled(Option<Seq<char>>),
}

impl View for ReadOutcome {
    type V = Input;

    open spec fn view(&self) -> Input {
        match self {
            ReadOutcome::Line(line) => Input::Line(line@),
            ReadOutcome::End => Input::End,
            ReadOutcome::Failed(error) => Input::Failed(error@),
        }
    }
}

/// How `std` prints a command line with `{:?}`: a function of its words.
pub uninterp spec fn debug_text(words: Seq<Seq<char>>) -> Seq<char>;

/// The text of the error that reports a failed read.
pub open spec fn read_failure_text(command_text: Seq<char>, error: Seq<char>) -> Seq<char> {
    "Failed to read line from process: "@ + command_text + ", err: "@ + error
}

/// The text of the error that reports a failed kill.
pub open spec fn kill_failure_text(error: Seq<char>) -> Seq<char> {
    "Failed to kill child: "@ + error
}

/// What is broadcast for `input`, by a forwarder that is `done` or not.
pub open spec fn emits(done: bool, command: Seq<Seq<char>>, input: Input) -> Option<MessageView> {
    if done {
        None
    } else {
        match input {
            Input::Line(line) => Some(MessageView::Data(line)),
            Input::End => Some(MessageView::Eof),
            Input::Failed(error) => Some(
                MessageView::Error(read_failure_text(debug_text(command), error)),
            ),
            Input::Cancelled(None) => None,
            Input::Cancelled(Some(error)) => Some(MessageView::Error(kill_failure_text(error))),
        }
    }
}

/// Whether `input` is the last thing a forwarder acts on.
pub open spec fn finishes(input: Input) -> bool {
    !(input is Line)
}

/// Whether a forwarder is done after a history of inputs.
pub open spec fn finished(inputs: Seq<Input>) -> bool
    decreases inputs.len(),
{
    if inputs.len() == 0 {
        false
    } else {
        finished(inputs.drop_last()) || finishes(inputs.last())
    }
}

/// Everything a forwarder broadcasts over a history of inputs, in order.
pub open spec fn broadcasts(command: Seq<Seq<char>>, inputs: Seq<Input>) -> Seq<MessageView>
    decreases inputs.len(),
{
    if inputs.len() == 0 {
        Seq::empty()
    } else {
        let earlier = inputs.drop_last();
        match emits(finished(earlier), command, inputs.last()) {
            Some(message) => broadcasts(command, earlier).push(message),
            None => broadcasts(command, earlier),
        }
    }
}

/// Calls `format!` with `{:?}` on the command line, which prints it the way
/// `std` prints a vector of strings. The text is a function of the words
/// alone; it is named, not spelled out.
#[verifier::external_body]
fn describe_command(command: &Vec<String>) -> (text: String)
    ensures
        text@ == debug_text(texts(command@)),
{
    format!("{:?}", command)
}

/// The message that reports a failed read of the output of the process whose
/// command line prints as `command_text`.
pub fn read_failure(command_text: &str, error: &str) -> (message: TaskMessage)
    ensures
        message@ == MessageView::Error(read_failure_text(command_text@, error@)),
{
    let mut text = String::from_str("Failed to read line from process: ");
    text.append(command_text);
    text.append(", err: ");
    text.append(error);
    TaskMessage::Error(text)
}

/// The message that reports a failed kill.
pub fn kill_failure(error: &str) -> (message: TaskMessage)
    ensures
        message@ == MessageView::Error(kill_failure_text(error@)),
{
    let mut text = String::from_str("Failed to kill child: ");
    text.append(error);
    TaskMessage::Error(text)
}

/// The forwarding side of one process.
pub struct Forwarder {
    sender: Sender<TaskMessage>,
    command: Vec<String>,
    done: bool,
}

impl Forwarder {
    /// Whether the forwarder has seen its last input.
    pub closed spec fn done(&self) -> bool {
        self.done
    }

    /// The command line of the process.
    pub closed spec fn command(&self) -> Seq<Seq<char>> {
        texts(self.command@)
    }

    /// A forwarder for the process started with `command`, sending on `sender`.
    pub(crate) fn new(sender: Sender<TaskMessage>, command: Vec<String>) -> (forwarder: Forwarder)
        ensures
            !forwarder.done(),
            forwarder.command() == texts(command@),
    {
        Forwarder { sender, command, done: false }
    }

    pub fn is_done(&self) -> (done: bool)
        ensures
            done == self.done(),
    {
        self.done
    }

    /// Takes what reading the output gave and broadcasts what follows from it:
    /// a line as data, the end of the output as `Eof`, a failure as an error.
    /// The last two finish the forwarder. Returns what was broadcast.
    pub fn read(&mut self, outcome: ReadOutcome) -> (sent: Option<TaskMessage>)
        ensures
            final(self).command() == old(self).command(),
            final(self).done() == (old(self).done() || finishes(outcome@)),
            match sent {
                Some(message) => Some(message@),
                None => None,
            } == emits(old(self).done(), old(self).command(), outcome@),
    {
        if self.done {
            return None;
        }
        let message = match outcome {
            ReadOutcome::Line(line) => TaskMessage::Data(line),
            ReadOutcome::End => {
                self.done = true;
                TaskMessage::Eof
            },
            ReadOutcome::Failed(error) => {
                self.done = true;
                let described = describe_command(&self.command);
                read_failure(described.as_str(), error.as_str())
            },
        };
        send_message(&self.sender, message.duplicate());
        Some(message)
    }

    /// Takes the news that the cancellation signal came and the process was
    /// killed, with the reason if killing it failed. A failure is broadcast as
    /// an error. Either way the forwarder is finished. Returns what was
    /// broadcast.
    pub fn cancelled(&mut self, kill_error: Option<String>) -> (sent: Option<TaskMessage>)
        ensures
            final(self).command() == old(self).command(),
            final(self).done(),
            match sent {
                Some(message) => Some(message@),
                None => None,
            } == emits(
                old(self).done(),
                old(self).command(),
                Input::Cancelled(
                    match kill_error {
                        Some(error) => Some(error@),
                        None => None,
                    },
                ),
            ),
    {
        if self.done {
            return None;
        }
        self.done = true;
        match kill_error {
            Some(error) => {
                let message = kill_failure(error.as_str());
                send_message(&self.sender, message.duplicate());
                Some(message)
            },
            None => None,
        }
    }
}

/// Once a forwarder is finished, further inputs broadcast nothing.
pub proof fn lemma_nothing_after_finish(command: Seq<Seq<char>>, inputs: Seq<Input>, more: Seq<Input>)
    requires
        finished(inputs),
    ensures
        finished(inputs + more),
        broadcasts(command, inputs + more) == broadcasts(command, inputs),
    decreases more.len(),
{
    if more.len() == 0 {
        assert(inputs + more == inputs);
    } else {
        lemma_nothing_after_finish(command, inputs, more.drop_last());
        assert((inputs + more).drop_last() == inputs + more.drop_last());
        assert((inputs + more).last() == more.last());
    }
}

/// Of the messages that one process instance gives rise to, every one but
/// the last is a line of data. So nothing follows `Eof`, nor an error: after
/// the process has ended by itself no data is broadcast for it.
pub proof fn lemma_end_is_last(command: Seq<Seq<char>>, inputs: Seq<Input>)
    ensures
        forall|i: int|
            0 <= i < broadcasts(command, inputs).len() - 1 ==> #[trigger] broadcasts(
                command,
                inputs,
            )[i] is Data,
        !finished(inputs) ==> forall|i: int|
            0 <= i < broadcasts(command, inputs).len() ==> #[trigger] broadcasts(
                command,
                inputs,
            )[i] is Data,
    decreases inputs.len(),
{
    if inputs.len() > 0 {
        lemma_end_is_last(command, inputs.drop_last());
    }
}

} // verus!
