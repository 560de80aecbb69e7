use tokio::sync::broadcast::error::TryRecvError;
use vnstat_rs_api::forward::ReadOutcome;
use vnstat_rs_api::lifecycle::{Admission, Departure};
use vnstat_rs_api::task_handle::{TaskDropGuard, TaskMessage};
use vnstat_rs_api::task_manager::TaskManager;

fn live(interface: &str) -> Vec<String> {
    vec!["mon".to_string(), "-i".to_string(), interface.to_string(), "-live".to_string()]
}

fn line(message: Result<TaskMessage, TryRecvError>) -> String {
    match message {
        Ok(TaskMessage::Data(text)) => text,
        other => panic!("expected data, got {:?}", other),
    }
}

#[test]
fn new_registry_knows_no_key() {
    let manager = TaskManager::new();
    assert_eq!(manager.subscribers(&"eth0".to_string()), None);
}

#[test]
fn subscribe_creates_the_supervisor_of_a_new_key() {
    let mut manager = TaskManager::new();
    let (subscription, guard) = manager.subscribe("eth0".to_string(), live("eth0"));
    assert_eq!(subscription.admission, Admission::Spawned);
    assert!(guard.is_armed());
    assert_eq!(guard.task_key(), "eth0");
    assert_eq!(manager.subscribers(&"eth0".to_string()), Some(1));
    assert_eq!(manager.subscribers(&"eth1".to_string()), None);
}

#[test]
fn scenario_single_subscriber_then_disconnect() {
    let mut manager = TaskManager::new();
    let (subscription, mut guard) = manager.subscribe("eth0".to_string(), live("eth0"));
    assert_eq!(subscription.admission, Admission::Spawned);
    let mut receiver = subscription.receiver;
    let mut request = subscription.request.expect("a process to start");
    assert_eq!(request.program, "mon");
    assert_eq!(request.args, vec!["-i", "eth0", "-live"]);
    request.forwarder.read(ReadOutcome::Line("5  120  8".to_string()));
    request.forwarder.read(ReadOutcome::Line("10  130 9".to_string()));
    assert_eq!(line(receiver.try_recv()), "5  120  8");
    assert_eq!(line(receiver.try_recv()), "10  130 9");
    assert_eq!(manager.release(&mut guard), Some(Departure::LastCancelled));
    assert_eq!(manager.subscribers(&"eth0".to_string()), Some(0));
    assert!(request.token.is_cancelled());
    assert!(request.forwarder.cancelled(None).is_none());
    assert!(manager.process_exited(&"eth0".to_string()).is_none());
    assert!(request.forwarder.read(ReadOutcome::Line("15  140 9".to_string())).is_none());
    assert!(matches!(receiver.try_recv(), Err(TryRecvError::Empty)));
}

#[test]
fn scenario_two_subscribers_one_process() {
    let mut manager = TaskManager::new();
    let (first, _guard_a) = manager.subscribe("eth0".to_string(), live("eth0"));
    let (second, _guard_b) = manager.subscribe("eth0".to_string(), live("eth0"));
    let spawns = [&first, &second].iter().filter(|s| s.request.is_some()).count();
    assert_eq!(spawns, 1);
    assert_eq!(first.admission, Admission::Spawned);
    assert_eq!(second.admission, Admission::Joined);
    assert_eq!(manager.subscribers(&"eth0".to_string()), Some(2));
    let mut a = first.receiver;
    let mut b = second.receiver;
    let mut request = first.request.expect("a process to start");
    for text in ["5  120  8", "10  130 9", "15  90 2"] {
        request.forwarder.read(ReadOutcome::Line(text.to_string()));
    }
    for text in ["5  120  8", "10  130 9", "15  90 2"] {
        assert_eq!(line(a.try_recv()), text);
        assert_eq!(line(b.try_recv()), text);
    }
}

#[test]
fn scenario_failed_spawn_then_retry() {
    let mut manager = TaskManager::new();
    let key = "eth0".to_string();
    let (subscription, mut guard) = manager.subscribe(key.clone(), vec!["/nonexistent".to_string()]);
    let mut receiver = subscription.receiver;
    assert!(subscription.request.is_some());
    let failure = manager.spawn_failed(&key).expect("the key to be known");
    assert!(matches!(failure.notice, TaskMessage::Error(ref text) if text == "Spawn task failed"));
    assert!(failure.request.is_none());
    match receiver.try_recv() {
        Ok(TaskMessage::Error(text)) => assert_eq!(text, "Spawn task failed"),
        other => panic!("expected the spawn failure, got {:?}", other),
    }
    assert!(matches!(receiver.try_recv(), Err(TryRecvError::Empty)));
    assert_eq!(manager.release(&mut guard), Some(Departure::Last));
    let (retry, _guard) = manager.subscribe(key.clone(), live("eth0"));
    assert_eq!(retry.admission, Admission::Spawned);
    let mut receiver = retry.receiver;
    let mut request = retry.request.expect("a process to start");
    request.forwarder.read(ReadOutcome::Line("5  120  8".to_string()));
    assert_eq!(line(receiver.try_recv()), "5  120  8");
}

#[test]
fn keys_have_separate_supervisors() {
    let mut manager = TaskManager::new();
    let (first, mut guard_a) = manager.subscribe("eth0".to_string(), live("eth0"));
    let (second, _guard_b) = manager.subscribe("eth1".to_string(), live("eth1"));
    assert_eq!(first.admission, Admission::Spawned);
    assert_eq!(second.admission, Admission::Spawned);
    let mut a = first.receiver;
    let mut b = second.receiver;
    let mut on_eth1 = second.request.expect("a process to start");
    on_eth1.forwarder.read(ReadOutcome::Line("for eth1".to_string()));
    assert!(matches!(a.try_recv(), Err(TryRecvError::Empty)));
    assert_eq!(line(b.try_recv()), "for eth1");
    manager.release(&mut guard_a);
    assert_eq!(manager.subscribers(&"eth0".to_string()), Some(0));
    assert_eq!(manager.subscribers(&"eth1".to_string()), Some(1));
    assert!(!on_eth1.token.is_cancelled());
    assert!(first.request.expect("a process to start").token.is_cancelled());
}

#[test]
fn releasing_a_guard_twice_removes_one_subscriber() {
    let mut manager = TaskManager::new();
    let key = "eth0".to_string();
    let (_first, mut guard_a) = manager.subscribe(key.clone(), live("eth0"));
    let (_second, _guard_b) = manager.subscribe(key.clone(), live("eth0"));
    assert_eq!(manager.release(&mut guard_a), Some(Departure::Remaining));
    assert_eq!(manager.subscribers(&key), Some(1));
    assert_eq!(manager.release(&mut guard_a), None);
    assert_eq!(manager.release(&mut guard_a), None);
    assert_eq!(manager.subscribers(&key), Some(1));
    assert!(!guard_a.is_armed());
}

#[test]
fn guard_of_an_unknown_key_changes_nothing() {
    let mut manager = TaskManager::new();
    let mut guard = TaskDropGuard::new("wlan0".to_string());
    assert_eq!(manager.release(&mut guard), None);
    assert!(!guard.is_armed());
    assert_eq!(manager.subscribers(&"wlan0".to_string()), None);
}

#[test]
fn reports_for_an_unknown_key_change_nothing() {
    let mut manager = TaskManager::new();
    assert!(manager.process_exited(&"eth0".to_string()).is_none());
    assert!(manager.spawn_failed(&"eth0".to_string()).is_none());
    assert_eq!(manager.subscribers(&"eth0".to_string()), None);
}

#[test]
fn release_without_subscriber_keeps_the_count_at_zero() {
    let mut manager = TaskManager::new();
    let key = "eth0".to_string();
    let (_subscription, mut guard) = manager.subscribe(key.clone(), live("eth0"));
    manager.release(&mut guard);
    let mut stray = TaskDropGuard::new(key.clone());
    assert_eq!(manager.release(&mut stray), Some(Departure::Refused));
    assert_eq!(manager.subscribers(&key), Some(0));
    let (again, _guard) = manager.subscribe(key.clone(), live("eth0"));
    assert_eq!(again.admission, Admission::Deferred);
    assert_eq!(manager.subscribers(&key), Some(1));
}

#[test]
fn supervisor_stays_after_its_last_subscriber_left() {
    let mut manager = TaskManager::new();
    let key = "eth0".to_string();
    let (_subscription, mut guard) = manager.subscribe(key.clone(), live("eth0"));
    manager.release(&mut guard);
    manager.process_exited(&key);
    assert_eq!(manager.subscribers(&key), Some(0));
    let (again, _guard) = manager.subscribe(key.clone(), live("eth0"));
    assert_eq!(again.admission, Admission::Spawned);
    assert_eq!(manager.subscribers(&key), Some(1));
}

#[test]
fn no_second_process_while_the_first_is_stopping() {
    let mut manager = TaskManager::new();
    let key = "eth0".to_string();
    let (first, mut guard) = manager.subscribe(key.clone(), live("eth0"));
    manager.release(&mut guard);
    let (second, _guard) = manager.subscribe(key.clone(), live("eth0"));
    assert!(first.request.is_some());
    assert_eq!(second.admission, Admission::Deferred);
    assert!(second.request.is_none());
    let next = manager.process_exited(&key).expect("the waiting command to start");
    assert_eq!(next.program, "mon");
    assert_eq!(next.args, vec!["-i", "eth0", "-live"]);
    assert!(manager.process_exited(&key).is_none());
}

#[test]
fn count_follows_subscribes_and_releases() {
    let mut manager = TaskManager::new();
    let key = "eth0".to_string();
    let mut guards = Vec::new();
    for expected in 1..=4 {
        let (_subscription, guard) = manager.subscribe(key.clone(), live("eth0"));
        guards.push(guard);
        assert_eq!(manager.subscribers(&key), Some(expected));
    }
    let mut expected = 4;
    for guard in guards.iter_mut() {
        manager.release(guard);
        expected -= 1;
        assert_eq!(manager.subscribers(&key), Some(expected));
    }
    for guard in guards.iter_mut() {
        assert_eq!(manager.release(guard), None);
    }
    assert_eq!(manager.subscribers(&key), Some(0));
}
