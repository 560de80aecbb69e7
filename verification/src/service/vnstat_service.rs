//! The monitor executable, its reports, and the live stream of one interface.

use vstd::prelude::*;
use vstd::string::*;
use crate::command::texts;
use crate::model::vnstat::{has_named, is_first_named, names_of, Interface, VnstatData};
use crate::task_handle::{MessageView, TaskMessage};
use crate::utils::decimal::{decimal, decimal_text};

verus! {

/// Why the service cannot do what was asked.
#[derive(Debug, Clone, Copy, PartialEq, Eq, Structural)]
pub enum ServiceError {
    /// The path of the monitor executable was set before.
    ExecutableAlreadySet,
    /// The path of the monitor executable has not been set.
    ExecutableNotSet,
    /// The report holds no interface of that name.
    InterfaceNotFound,
}

impl ServiceError {
    /// The sentence that reports this error.
    pub open spec fn text(self) -> Seq<char> {
        match self {
            ServiceError::ExecutableAlreadySet => "vnStat executable already set"@,
            ServiceError::ExecutableNotSet => "vnStat executable not set (call set_executable first)"@,
            ServiceError::InterfaceNotFound => "interface not found"@,
        }
    }

    /// The sentence that reports this error.
    pub fn message(&self) -> (text: &'static str)
        ensures
            text@ == self.text(),
    {
        match self {
            ServiceError::ExecutableAlreadySet => "vnStat executable already set",
            ServiceError::ExecutableNotSet => "vnStat executable not set (call set_executable first)",
            ServiceError::InterfaceNotFound => "interface not found",
        }
    }
}

/// The one setting of the service: the path of the monitor executable. It is
/// set once and read from then on.
pub struct VnstatService {
    executable: Option<String>,
}

impl VnstatService {
    /// The path that was set, if any.
    pub closed spec fn executable(&self) -> Option<Seq<char>> {
        match self.executable {
            Some(path) => Some(path@),
            None => None,
        }
    }

    /// A service whose executable has not been set.
    pub fn new() -> (service: VnstatService)
        ensures
            service.executable() is None,
    {
        VnstatService { executable: None }
    }
}

/// Sets the path of the monitor executable. A second call is an error and
/// changes nothing.
pub fn set_vnstat_executable(service: &mut VnstatService, executable: &str) -> (set: Result<
    (),
    ServiceError,
>)
    ensures
        set is Ok <==> old(service).executable() is None,
        set is Ok ==> final(service).executable() == Some(executable@),
        set matches Err(error) ==> error == ServiceError::ExecutableAlreadySet && *final(service)
            == *old(service),
{
    if service.executable.is_some() {
        Err(ServiceError::ExecutableAlreadySet)
    } else {
        service.executable = Some(String::from_str(executable));
        Ok(())
    }
}

/// The path of the monitor executable. Asking before it is set is an error.
pub fn get_vnstat_executable(service: &VnstatService) -> (got: Result<&String, ServiceError>)
    ensures
        got is Ok <==> service.executable() is Some,
        got matches Ok(path) ==> Some(path@) == service.executable(),
        got matches Err(error) ==> error == ServiceError::ExecutableNotSet,
{
    match &service.executable {
        Some(path) => Ok(path),
        None => Err(ServiceError::ExecutableNotSet),
    }
}

/// The command line that makes the monitor report on `if_name` without end.
pub open spec fn live_stream_command(executable: Seq<char>, if_name: Seq<char>) -> Seq<Seq<char>> {
    seq![executable, "-i"@, if_name, "--json"@, "-l"@]
}

/// Builds the command line of the live stream of `if_name`. Without an
/// executable there is none.
pub fn build_live_stream_command(service: &VnstatService, if_name: &str) -> (built: Result<
    Vec<String>,
    ServiceError,
>)
    ensures
        built is Ok <==> service.executable() is Some,
        built matches Ok(command) ==> texts(command@) == live_stream_command(
            service.executable()->0,
            if_name@,
        ),
        built matches Err(error) ==> error == ServiceError::ExecutableNotSet,
{
    match get_vnstat_executable(service) {
        Ok(path) => {
            let mut command: Vec<String> = Vec::new();
            command.push(path.clone());
            command.push(String::from_str("-i"));
            command.push(String::from_str(if_name));
            command.push(String::from_str("--json"));
            command.push(String::from_str("-l"));
            assert(texts(command@) =~= live_stream_command(service.executable()->0, if_name@));
            Ok(command)
        },
        Err(error) => Err(error),
    }
}

/// The names of the interfaces in a report, in its order.
pub fn list_vnstat_interfaces(data: &VnstatData) -> (names: Vec<String>)
    ensures
        texts(names@) == names_of(data.interfaces@),
{
    data.interface_names()
}

/// The first interface of a report that is called `if_name`. A report
/// without one is an error.
pub fn fetch_interface_stats<'a>(data: &'a VnstatData, if_name: &str) -> (found: Result<
    &'a Interface,
    ServiceError,
>)
    ensures
        found is Ok <==> has_named(data.interfaces@, if_name@),
        found matches Ok(interface) ==> exists|i: int|
            is_first_named(data.interfaces@, if_name@, i) && *interface == data.interfaces@[i],
        found matches Err(error) ==> error == ServiceError::InterfaceNotFound,
{
    match data.find_interface(if_name) {
        Some(interface) => Ok(interface),
        None => Err(ServiceError::InterfaceNotFound),
    }
}

/// The path a request for an interface is sent on to.
pub fn traffic_location(if_name: &str) -> (location: String)
    ensures
        location@ == if_name@ + "/traffic"@,
{
    let mut location = String::from_str(if_name);
    location.append("/traffic");
    location
}

/// What one subscriber's end of the channel gave.
#[derive(Debug)]
pub enum Received {
    /// The next message.
    Message(TaskMessage),
    /// This many messages were dropped because the subscriber was too slow.
    Lagged(u64),
    /// The channel is closed.
    Closed,
}

/// What the channel gave, as contracts speak of it.
pub enum ReceivedView {
    Message(MessageView),
    Lagged(u64),
    Closed,
}

impl View for Received {
    type V = ReceivedView;

    open spec fn view(&self) -> ReceivedView {
        match self {
            Received::Message(message) => ReceivedView::Message(message@),
            Received::Lagged(dropped) => ReceivedView::Lagged(*dropped),
            Received::Closed => ReceivedView::Closed,
        }
    }
}

/// One event on the wire.
#[derive(Debug)]
pub enum SseEvent {
    /// A line of output, with the time it was passed on as its id.
    Data { data: String, id: String },
    /// A remark.
    Comment(String),
}

/// What the adapter of one subscriber does next.
#[derive(Debug)]
pub enum StreamStep {
    /// Put this event on the wire and go on.
    Emit(SseEvent),
    /// End the stream with this error.
    Fail(String),
    /// End the stream.
    Finish,
}

/// A step as contracts speak of it.
pub enum StepView {
    Data { data: Seq<char>, id: Seq<char> },
    Comment(Seq<char>),
    Fail(Seq<char>),
    Finish,
}

impl View for StreamStep {
    type V = StepView;

    open spec fn view(&self) -> StepView {
        match self {
            StreamStep::Emit(SseEvent::Data { data, id }) => StepView::Data { data: data@, id: id@ },
            StreamStep::Emit(SseEvent::Comment(text)) => StepView::Comment(text@),
            StreamStep::Fail(error) => StepView::Fail(error@),
            StreamStep::Finish => StepView::Finish,
        }
    }
}

/// The remark a subscriber gets when messages were dropped for it.
pub open spec fn lag_notice() -> Seq<char> {
    "messages dropped due to lag"@
}

/// What follows from what the channel gave, at `now_ms` milliseconds.
///
/// Data goes out stamped with the time, a comment goes out as it is, an
/// error ends the stream with that error, `Eof` and a closed channel end it
/// without one. Lag does not end the stream: it is answered with a remark.
pub open spec fn adapt(received: ReceivedView, now_ms: u64) -> StepView {
    match received {
        ReceivedView::Message(MessageView::Data(line)) => StepView::Data {
            data: line,
            id: decimal(now_ms as nat),
        },
        ReceivedView::Message(MessageView::Comment(text)) => StepView::Comment(text),
        ReceivedView::Message(MessageView::Error(error)) => StepView::Fail(error),
        ReceivedView::Message(MessageView::Eof) => StepView::Finish,
        ReceivedView::Lagged(_) => StepView::Comment(lag_notice()),
        ReceivedView::Closed => StepView::Finish,
    }
}

/// Turns what a subscriber's end of the channel gave into the next step of
/// its event stream.
pub fn stream_step(received: Received, now_ms: u64) -> (step: StreamStep)
    ensures
        step@ == adapt(received@, now_ms),
{
    match received {
        Received::Message(TaskMessage::Data(line)) => StreamStep::Emit(
            SseEvent::Data { data: line, id: decimal_text(now_ms) },
        ),
        Received::Message(TaskMessage::Comment(text)) => StreamStep::Emit(SseEvent::Comment(text)),
        Received::Message(TaskMessage::Error(error)) => StreamStep::Fail(error),
        Received::Message(TaskMessage::Eof) => StreamStep::Finish,
        Received::Lagged(_) => StreamStep::Emit(
            SseEvent::Comment(String::from_str("messages dropped due to lag")),
        ),
        Received::Closed => StreamStep::Finish,
    }
}

} // verus!
