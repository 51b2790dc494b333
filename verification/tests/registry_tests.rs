use echo_server::conn::PeerId;
use echo_server::listener::{listener_poll, AcceptEvent, ListenerAction, ListenerState};
use echo_server::registry::Registry;

fn peer(host: u32, port: u16) -> PeerId {
    PeerId { host, port }
}

#[test]
fn registry_starts_empty() {
    let reg = Registry::new(2);
    assert_eq!(reg.len(), 0);
    assert_eq!(reg.capacity(), 2);
    assert!(!reg.contains(peer(1, 1)));
}

#[test]
fn register_adds_identity() {
    let mut reg = Registry::new(4);
    reg.register(peer(1, 10));
    reg.register(peer(2, 20));
    assert_eq!(reg.len(), 2);
    assert!(reg.contains(peer(1, 10)));
    assert!(reg.contains(peer(2, 20)));
    assert!(!reg.contains(peer(3, 30)));
}

#[test]
fn try_register_enforces_capacity() {
    let mut reg = Registry::new(2);
    assert!(reg.try_register(peer(1, 10)));
    assert!(reg.try_register(peer(2, 20)));
    assert!(!reg.try_register(peer(3, 30)));
    assert_eq!(reg.len(), 2);
    assert!(!reg.contains(peer(3, 30)));
}

#[test]
fn deregister_removes_matching_identity() {
    let mut reg = Registry::new(2);
    reg.register(peer(1, 10));
    reg.register(peer(2, 20));
    reg.deregister(peer(1, 10));
    assert_eq!(reg.len(), 1);
    assert!(!reg.contains(peer(1, 10)));
    assert!(reg.contains(peer(2, 20)));
}

#[test]
fn deregister_absent_is_noop() {
    let mut reg = Registry::new(2);
    reg.register(peer(1, 10));
    reg.deregister(peer(9, 99));
    assert_eq!(reg.len(), 1);
    assert!(reg.contains(peer(1, 10)));
}

#[test]
fn broadcast_close_returns_all_and_empties() {
    let mut reg = Registry::new(2);
    reg.register(peer(1, 10));
    reg.register(peer(2, 20));
    let closed = reg.broadcast_close();
    assert_eq!(closed, vec![peer(1, 10), peer(2, 20)]);
    assert_eq!(reg.len(), 0);
}

#[test]
fn broadcast_close_on_empty_registry_closes_nothing() {
    let mut reg = Registry::new(2);
    reg.register(peer(1, 10));
    let first = reg.broadcast_close();
    let second = reg.broadcast_close();
    assert_eq!(first.len(), 1);
    assert_eq!(second.len(), 0);
    assert_eq!(reg.len(), 0);
}

#[test]
fn third_client_is_rejected_with_capacity_two() {
    let mut reg = Registry::new(2);
    let (st, act) = listener_poll(
        ListenerState::Running,
        false,
        &mut reg,
        AcceptEvent::Accepted(peer(1, 10)),
    );
    assert_eq!(st, ListenerState::Running);
    assert_eq!(act, ListenerAction::AdmitAndSpawn(peer(1, 10)));
    let (_, act) = listener_poll(
        ListenerState::Running,
        false,
        &mut reg,
        AcceptEvent::Accepted(peer(2, 20)),
    );
    assert_eq!(act, ListenerAction::AdmitAndSpawn(peer(2, 20)));
    let (st, act) = listener_poll(
        ListenerState::Running,
        false,
        &mut reg,
        AcceptEvent::Accepted(peer(3, 30)),
    );
    assert_eq!(st, ListenerState::Running);
    assert_eq!(act, ListenerAction::RejectAndClose(peer(3, 30)));
    assert_eq!(reg.len(), 2);
    assert!(!reg.contains(peer(3, 30)));
}

#[test]
fn listener_backs_off_when_nothing_pending() {
    let mut reg = Registry::new(2);
    let (st, act) = listener_poll(ListenerState::Running, false, &mut reg, AcceptEvent::NotReady);
    assert_eq!(st, ListenerState::Running);
    assert_eq!(act, ListenerAction::Backoff);
    assert_eq!(reg.len(), 0);
}

#[test]
fn listener_continues_after_accept_error() {
    let mut reg = Registry::new(2);
    reg.register(peer(1, 10));
    let (st, act) = listener_poll(ListenerState::Running, false, &mut reg, AcceptEvent::Failed);
    assert_eq!(st, ListenerState::Running);
    assert_eq!(act, ListenerAction::LogAndContinue);
    assert_eq!(reg.len(), 1);
}
