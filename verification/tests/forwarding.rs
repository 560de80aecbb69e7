use tokio::sync::broadcast::error::TryRecvError;
use vnstat_rs_api::forward::{kill_failure, read_failure, ReadOutcome};
use vnstat_rs_api::task_handle::{TaskHandle, TaskMessage};

fn command(list: &[&str]) -> Vec<String> {
    list.iter().map(|word| word.to_string()).collect()
}

fn show(message: Option<TaskMessage>) -> String {
    format!("{:?}", message)
}

#[test]
fn line_is_forwarded_as_data() {
    let mut handle = TaskHandle::new();
    let subscription = handle.subscribe(command(&["mon"]));
    let mut receiver = subscription.receiver;
    let mut forwarder = subscription.request.expect("a process to start").forwarder;
    let sent = forwarder.read(ReadOutcome::Line("5  120  8".to_string()));
    assert_eq!(show(sent), "Some(Data(\"5  120  8\"))");
    assert!(!forwarder.is_done());
    assert_eq!(show(receiver.try_recv().ok()), "Some(Data(\"5  120  8\"))");
}

#[test]
fn end_of_output_is_forwarded_as_eof_and_finishes() {
    let mut handle = TaskHandle::new();
    let subscription = handle.subscribe(command(&["mon"]));
    let mut receiver = subscription.receiver;
    let mut forwarder = subscription.request.expect("a process to start").forwarder;
    assert_eq!(show(forwarder.read(ReadOutcome::End)), "Some(Eof)");
    assert!(forwarder.is_done());
    assert_eq!(show(receiver.try_recv().ok()), "Some(Eof)");
}

#[test]
fn nothing_is_forwarded_after_eof() {
    let mut handle = TaskHandle::new();
    let subscription = handle.subscribe(command(&["mon"]));
    let mut receiver = subscription.receiver;
    let mut forwarder = subscription.request.expect("a process to start").forwarder;
    forwarder.read(ReadOutcome::Line("1".to_string()));
    forwarder.read(ReadOutcome::End);
    assert!(forwarder.read(ReadOutcome::Line("2".to_string())).is_none());
    assert!(forwarder.read(ReadOutcome::End).is_none());
    assert!(forwarder.read(ReadOutcome::Failed("late".to_string())).is_none());
    assert!(forwarder.cancelled(Some("late".to_string())).is_none());
    assert_eq!(show(receiver.try_recv().ok()), "Some(Data(\"1\"))");
    assert_eq!(show(receiver.try_recv().ok()), "Some(Eof)");
    assert!(matches!(receiver.try_recv(), Err(TryRecvError::Empty)));
}

#[test]
fn read_failure_names_the_command_and_the_cause() {
    let mut handle = TaskHandle::new();
    let subscription = handle.subscribe(command(&["mon", "-i", "eth \"0\""]));
    let mut receiver = subscription.receiver;
    let mut forwarder = subscription.request.expect("a process to start").forwarder;
    let sent = forwarder.read(ReadOutcome::Failed("stream did not contain valid UTF-8".to_string()));
    let expected = "Failed to read line from process: [\"mon\", \"-i\", \"eth \\\"0\\\"\"], \
                    err: stream did not contain valid UTF-8";
    match sent {
        Some(TaskMessage::Error(text)) => assert_eq!(text, expected),
        other => panic!("expected an error, got {:?}", other),
    }
    assert!(forwarder.is_done());
    match receiver.try_recv() {
        Ok(TaskMessage::Error(text)) => assert_eq!(text, expected),
        other => panic!("expected an error, got {:?}", other),
    }
}

#[test]
fn read_failure_text_is_put_together_from_its_parts() {
    match read_failure("[\"mon\"]", "broken pipe") {
        TaskMessage::Error(text) => {
            assert_eq!(text, "Failed to read line from process: [\"mon\"], err: broken pipe")
        }
        other => panic!("expected an error, got {:?}", other),
    }
}

#[test]
fn kill_failure_text_names_the_cause() {
    match kill_failure("no such process") {
        TaskMessage::Error(text) => assert_eq!(text, "Failed to kill child: no such process"),
        other => panic!("expected an error, got {:?}", other),
    }
}

#[test]
fn cancellation_finishes_without_a_message() {
    let mut handle = TaskHandle::new();
    let subscription = handle.subscribe(command(&["mon"]));
    let mut receiver = subscription.receiver;
    let mut forwarder = subscription.request.expect("a process to start").forwarder;
    assert!(forwarder.cancelled(None).is_none());
    assert!(forwarder.is_done());
    assert!(matches!(receiver.try_recv(), Err(TryRecvError::Empty)));
}

#[test]
fn failed_kill_is_reported_and_finishes() {
    let mut handle = TaskHandle::new();
    let subscription = handle.subscribe(command(&["mon"]));
    let mut receiver = subscription.receiver;
    let mut forwarder = subscription.request.expect("a process to start").forwarder;
    let sent = forwarder.cancelled(Some("permission denied".to_string()));
    assert_eq!(show(sent), "Some(Error(\"Failed to kill child: permission denied\"))");
    assert!(forwarder.is_done());
    assert_eq!(
        show(receiver.try_recv().ok()),
        "Some(Error(\"Failed to kill child: permission denied\"))"
    );
}

#[test]
fn forwarding_without_receivers_does_not_fail() {
    let mut handle = TaskHandle::new();
    let subscription = handle.subscribe(command(&["mon"]));
    let mut forwarder = subscription.request.expect("a process to start").forwarder;
    drop(subscription.receiver);
    let sent = forwarder.read(ReadOutcome::Line("unheard".to_string()));
    assert_eq!(show(sent), "Some(Data(\"unheard\"))");
    assert!(!forwarder.is_done());
}
