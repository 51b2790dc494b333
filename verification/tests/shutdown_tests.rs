use echo_server::conn::PeerId;
use echo_server::listener::{listener_poll, AcceptEvent, ListenerAction, ListenerState};
use echo_server::registry::Registry;
use echo_server::shutdown::{initiate_shutdown, is_exit_command, ShutdownFlag};

fn peer(host: u32, port: u16) -> PeerId {
    PeerId { host, port }
}

#[test]
fn exit_command_is_recognized() {
    assert!(is_exit_command(&b"exit".to_vec()));
    assert!(is_exit_command(&b"exit\n".to_vec()));
    assert!(is_exit_command(&b"EXIT\r\n".to_vec()));
    assert!(is_exit_command(&b"  eXiT \t".to_vec()));
}

#[test]
fn other_input_is_ignored() {
    assert!(!is_exit_command(&b"quit".to_vec()));
    assert!(!is_exit_command(&b"".to_vec()));
    assert!(!is_exit_command(&b"   \n".to_vec()));
    assert!(!is_exit_command(&b"exits".to_vec()));
    assert!(!is_exit_command(&b"exit now".to_vec()));
    assert!(!is_exit_command(&b"e x i t".to_vec()));
}

#[test]
fn flag_starts_clear_and_stays_set() {
    let mut flag = ShutdownFlag::new();
    assert!(!flag.is_set());
    flag.request();
    assert!(flag.is_set());
    flag.request();
    assert!(flag.is_set());
}

#[test]
fn shutdown_stops_listener_within_one_poll() {
    let mut reg = Registry::new(2);
    reg.register(peer(1, 10));
    let (st, act) = listener_poll(
        ListenerState::Running,
        true,
        &mut reg,
        AcceptEvent::Accepted(peer(2, 20)),
    );
    assert_eq!(st, ListenerState::Stopping);
    assert_eq!(act, ListenerAction::StopAccepting);
    assert_eq!(reg.len(), 1);
    assert!(!reg.contains(peer(2, 20)));
    let (st, act) = listener_poll(ListenerState::Stopping, true, &mut reg, AcceptEvent::NotReady);
    assert_eq!(st, ListenerState::Stopped);
    assert_eq!(act, ListenerAction::StopAccepting);
}

#[test]
fn initiate_shutdown_reports_every_registered_connection() {
    let mut flag = ShutdownFlag::new();
    let mut reg = Registry::new(2);
    reg.register(peer(1, 10));
    reg.register(peer(2, 20));
    let to_close = initiate_shutdown(&mut flag, &mut reg);
    assert!(flag.is_set());
    assert_eq!(to_close, vec![peer(1, 10), peer(2, 20)]);
    assert_eq!(reg.len(), 0);
}

#[test]
fn second_shutdown_has_no_further_effect() {
    let mut flag = ShutdownFlag::new();
    let mut reg = Registry::new(2);
    reg.register(peer(1, 10));
    let first = initiate_shutdown(&mut flag, &mut reg);
    let second = initiate_shutdown(&mut flag, &mut reg);
    assert_eq!(first.len(), 1);
    assert_eq!(second.len(), 0);
    assert!(flag.is_set());
    assert_eq!(reg.len(), 0);
}
