// Component tests of the listener loop's decision core and the nonce store.

use turn_control::listener::Command;
use turn_control::listener::CommandAction;
use turn_control::listener::HandlerOutcome;
use turn_control::listener::Listener;
use turn_control::listener::ListenerState;
use turn_control::nonce::NonceStore;
use turn_control::types::Error;
use turn_control::types::FiveTuple;
use turn_control::types::TransportAddr;

fn five_tuple(n: u8) -> FiveTuple {
    FiveTuple {
        protocol: 17,
        src_addr: TransportAddr { ip: n as u128, port: 1000 + n as u16 },
        dst_addr: TransportAddr { ip: 9, port: 3478 },
    }
}

#[test]
fn delete_command_is_acknowledged_and_evicts() {
    let mut l = Listener::new();
    l.handle_datagram(HandlerOutcome::NewAllocation(five_tuple(1), "alice".to_string()));
    l.handle_datagram(HandlerOutcome::NewAllocation(five_tuple(2), "bob".to_string()));

    let a = l.handle_command(&Command::DeleteAllocations("alice".to_string()));
    assert!(matches!(a, CommandAction::Acknowledged));
    assert_eq!(l.state, ListenerState::Running);
    assert_eq!(l.manager.allocations.len(), 1);
    assert_eq!(l.manager.allocations[0].username, "bob");
}

#[test]
fn enumeration_command_sends_the_snapshot() {
    let mut l = Listener::new();
    l.handle_datagram(HandlerOutcome::NewAllocation(five_tuple(1), "alice".to_string()));
    match l.handle_command(&Command::GetAllocations) {
        CommandAction::SendAllocations(v) => {
            assert_eq!(v.len(), 1);
            assert_eq!(v[0].username, "alice");
        },
        _ => panic!("an enumeration must reply through the result sink"),
    }
    assert_eq!(l.state, ListenerState::Running);
}

#[test]
fn metrics_command_sends_a_definite_outcome() {
    let mut l = Listener::new();
    match l.handle_command(&Command::GetMetrics(five_tuple(1))) {
        CommandAction::SendMetrics(r) => assert_eq!(r, Err(Error::NoSuchAllocation)),
        _ => panic!("a metrics command must reply through the result sink"),
    }

    l.handle_datagram(HandlerOutcome::NewAllocation(five_tuple(1), "alice".to_string()));
    l.handle_datagram(HandlerOutcome::Relayed(five_tuple(1), 99));
    match l.handle_command(&Command::GetMetrics(five_tuple(1))) {
        CommandAction::SendMetrics(r) => assert_eq!(r, Ok(99)),
        _ => panic!("a metrics command must reply through the result sink"),
    }
}

#[test]
fn close_command_exits_the_loop_and_drains() {
    let mut l = Listener::new();
    l.handle_datagram(HandlerOutcome::NewAllocation(five_tuple(1), "alice".to_string()));
    let a = l.handle_command(&Command::Close);
    assert!(matches!(a, CommandAction::ExitLoop));
    assert_eq!(l.state, ListenerState::Draining);
    l.drain();
    assert_eq!(l.state, ListenerState::Closed);
    assert_eq!(l.manager.allocations.len(), 0);
}

#[test]
fn lagged_delivery_is_nonfatal() {
    let mut l = Listener::new();
    l.handle_datagram(HandlerOutcome::NewAllocation(five_tuple(1), "alice".to_string()));
    l.on_lagged(7);
    assert_eq!(l.state, ListenerState::Running);
    assert_eq!(l.manager.allocations.len(), 1);
}

#[test]
fn recv_error_drains_the_listener() {
    let mut l = Listener::new();
    l.on_recv_error();
    assert_eq!(l.state, ListenerState::Draining);
    l.drain();
    assert_eq!(l.state, ListenerState::Closed);
}

#[test]
fn relay_on_unknown_session_changes_nothing() {
    let mut l = Listener::new();
    l.handle_datagram(HandlerOutcome::Relayed(five_tuple(5), 1000));
    assert_eq!(l.manager.allocations.len(), 0);
}

#[test]
fn nonce_store_replaces_on_reinsert() {
    let mut ns = NonceStore::new();
    ns.insert("n1".to_string(), 5);
    ns.insert("n2".to_string(), 6);
    ns.insert("n1".to_string(), 9);
    assert_eq!(ns.get(&"n1".to_string()), Some(9));
    assert_eq!(ns.get(&"n2".to_string()), Some(6));
    assert_eq!(ns.get(&"n3".to_string()), None);
    assert_eq!(ns.entries.len(), 2);
}
