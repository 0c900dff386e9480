// Scenario tests of the control-plane handle: lifecycle, eviction,
// enumeration, metrics, shutdown, and the documented single-slot hazard.

use turn_control::listener::HandlerOutcome;
use turn_control::listener::ListenerState;
use turn_control::server::ConnConfig;
use turn_control::server::Server;
use turn_control::server::ServerConfig;
use turn_control::server::DEFAULT_LIFETIME_SECS;
use turn_control::types::Error;
use turn_control::types::FiveTuple;
use turn_control::types::TransportAddr;

fn addr(ip: u128, port: u16) -> TransportAddr {
    TransportAddr { ip, port }
}

fn five_tuple(n: u8) -> FiveTuple {
    FiveTuple {
        protocol: 17,
        src_addr: addr(n as u128, 1000 + n as u16),
        dst_addr: addr(9, 3478),
    }
}

fn config(listeners: usize) -> ServerConfig {
    let mut conn_configs = Vec::new();
    for i in 0..listeners {
        conn_configs.push(ConnConfig { listen_addr: addr(i as u128, 3478) });
    }
    ServerConfig {
        conn_configs,
        realm: "example.org".to_string(),
        channel_bind_timeout_secs: 0,
    }
}

fn server(listeners: usize) -> Server {
    match Server::new(config(listeners)) {
        Ok(s) => s,
        Err(_) => panic!("a non-empty configuration must be accepted"),
    }
}

#[test]
fn empty_config_is_rejected() {
    match Server::new(config(0)) {
        Ok(_) => panic!("a configuration without transports must be rejected"),
        Err(e) => assert_eq!(e, Error::NoAvailableConns),
    }
}

#[test]
fn default_channel_bind_timeout_is_applied() {
    let s = server(1);
    assert_eq!(s.channel_bind_timeout_secs, DEFAULT_LIFETIME_SECS);
    assert_eq!(s.channel_bind_timeout_secs, 600);

    let mut cfg = config(1);
    cfg.channel_bind_timeout_secs = 42;
    match Server::new(cfg) {
        Ok(s2) => assert_eq!(s2.channel_bind_timeout_secs, 42),
        Err(_) => panic!("a non-empty configuration must be accepted"),
    }
}

#[test]
fn single_listener_lifecycle() {
    // one listener; a datagram from "alice" establishes one session
    let mut s = server(1);
    s.deliver_datagram(0, HandlerOutcome::NewAllocation(five_tuple(1), "alice".to_string()));

    // the enumeration shows exactly alice's session
    let v = s.get_allocations().expect("one listener is running");
    assert_eq!(v.len(), 1);
    assert_eq!(v[0].username, "alice");
    assert_eq!(v[0].relayed_bytes, 0);

    // evicting alice succeeds, and the next enumeration is empty
    assert_eq!(s.delete_allocation("alice".to_string()), Ok(()));
    let v = s.get_allocations().expect("one listener is running");
    assert_eq!(v.len(), 0);

    // closing succeeds; every later administrative call reports Closed
    assert_eq!(s.close(), Ok(()));
    assert_eq!(s.delete_allocation("alice".to_string()), Err(Error::Closed));
    assert!(s.get_allocations().is_err());
    assert_eq!(s.get_metrics(five_tuple(1)), Err(Error::Closed));

    // a second close still succeeds without hanging
    assert_eq!(s.close(), Ok(()));
}

#[test]
fn close_twice_is_idempotent() {
    let mut s = server(3);
    assert_eq!(s.close(), Ok(()));
    for l in &s.listeners {
        assert_eq!(l.state, ListenerState::Closed);
        assert_eq!(l.manager.allocations.len(), 0);
    }
    assert_eq!(s.close(), Ok(()));
}

#[test]
fn delete_keeps_other_owners() {
    let mut s = server(1);
    s.deliver_datagram(0, HandlerOutcome::NewAllocation(five_tuple(1), "alice".to_string()));
    s.deliver_datagram(0, HandlerOutcome::NewAllocation(five_tuple(2), "bob".to_string()));
    s.deliver_datagram(0, HandlerOutcome::NewAllocation(five_tuple(3), "alice".to_string()));

    assert_eq!(s.delete_allocation("alice".to_string()), Ok(()));
    let v = s.get_allocations().expect("one listener is running");
    assert_eq!(v.len(), 1);
    assert_eq!(v[0].username, "bob");
    assert_eq!(v[0].five_tuple, five_tuple(2));
}

#[test]
fn duplicate_session_key_is_refused() {
    let mut s = server(1);
    s.deliver_datagram(0, HandlerOutcome::NewAllocation(five_tuple(1), "alice".to_string()));
    s.deliver_datagram(0, HandlerOutcome::NewAllocation(five_tuple(1), "mallory".to_string()));
    let v = s.get_allocations().expect("one listener is running");
    assert_eq!(v.len(), 1);
    assert_eq!(v[0].username, "alice");
}

#[test]
fn metrics_for_unknown_key_is_not_found() {
    let mut s = server(1);
    assert_eq!(s.get_metrics(five_tuple(7)), Err(Error::NoSuchAllocation));
}

#[test]
fn metrics_count_relayed_bytes() {
    let mut s = server(1);
    s.deliver_datagram(0, HandlerOutcome::NewAllocation(five_tuple(1), "alice".to_string()));
    s.deliver_datagram(0, HandlerOutcome::Relayed(five_tuple(1), 500));
    s.deliver_datagram(0, HandlerOutcome::Relayed(five_tuple(1), 250));
    assert_eq!(s.get_metrics(five_tuple(1)), Ok(750));
}

#[test]
fn metrics_saturate_at_the_largest_count() {
    let mut s = server(1);
    s.deliver_datagram(0, HandlerOutcome::NewAllocation(five_tuple(1), "alice".to_string()));
    s.deliver_datagram(0, HandlerOutcome::Relayed(five_tuple(1), usize::MAX));
    s.deliver_datagram(0, HandlerOutcome::Relayed(five_tuple(1), 10));
    assert_eq!(s.get_metrics(five_tuple(1)), Ok(usize::MAX));
}

#[test]
fn malformed_datagram_keeps_listener_alive() {
    let mut s = server(1);
    s.deliver_datagram(0, HandlerOutcome::Failed);
    assert_eq!(s.listeners[0].state, ListenerState::Running);

    // a subsequent well-formed datagram on the same endpoint is processed
    s.deliver_datagram(0, HandlerOutcome::NewAllocation(five_tuple(1), "alice".to_string()));
    let v = s.get_allocations().expect("one listener is running");
    assert_eq!(v.len(), 1);
    assert_eq!(v[0].username, "alice");
}

#[test]
fn enumerate_with_two_listeners_stalls_the_second() {
    // Two listeners, each with its own session set.
    let mut s = server(2);
    s.deliver_datagram(0, HandlerOutcome::NewAllocation(five_tuple(1), "alice".to_string()));
    s.deliver_datagram(1, HandlerOutcome::NewAllocation(five_tuple(2), "bob".to_string()));

    // The call returns — it does not hang — with the first running loop's
    // snapshot only: the single-slot result sink holds one value and the
    // handle receives once.
    let v = s.get_allocations().expect("some listener is running");
    assert_eq!(v.len(), 1);
    assert_eq!(v[0].username, "alice");

    // Known limitation, reproduced rather than silently accepted: the
    // second loop's reply finds the slot occupied and that loop is left
    // suspended in its command branch.
    assert_eq!(s.listeners[0].state, ListenerState::Running);
    assert_eq!(s.listeners[1].state, ListenerState::Stalled);

    // Later queries still complete, answered by the loop that stayed live.
    let v = s.get_allocations().expect("the first listener still runs");
    assert_eq!(v.len(), 1);
    assert_eq!(v[0].username, "alice");
}

#[test]
fn metrics_with_two_listeners_answers_from_the_first() {
    let mut s = server(2);
    s.deliver_datagram(1, HandlerOutcome::NewAllocation(five_tuple(2), "bob".to_string()));

    // The session lives on the second listener, but the first running
    // loop's not-found reply fills the single slot first: the handle's one
    // receive yields that reply, and the second loop — which computed the
    // real counter — is left suspended on the occupied slot.
    assert_eq!(s.get_metrics(five_tuple(2)), Err(Error::NoSuchAllocation));
    assert_eq!(s.listeners[0].state, ListenerState::Running);
    assert_eq!(s.listeners[1].state, ListenerState::Stalled);
}

#[test]
fn transport_fault_closes_only_that_listener() {
    let mut s = server(2);
    s.deliver_datagram(1, HandlerOutcome::NewAllocation(five_tuple(2), "bob".to_string()));

    s.transport_fault(0);
    assert_eq!(s.listeners[0].state, ListenerState::Closed);
    assert_eq!(s.listeners[1].state, ListenerState::Running);

    // the surviving listener answers the next query
    let v = s.get_allocations().expect("the second listener still runs");
    assert_eq!(v.len(), 1);
    assert_eq!(v[0].username, "bob");
}

#[test]
fn query_after_every_listener_closed_reports_closed() {
    let mut s = server(1);
    s.transport_fault(0);
    // the handle still holds its publish side, but no subscription is left
    assert!(s.get_allocations().is_err());
    assert_eq!(s.get_metrics(five_tuple(1)), Err(Error::Closed));
    assert_eq!(s.delete_allocation("alice".to_string()), Err(Error::Closed));
    // closing finds nothing to wait for and succeeds at once
    assert_eq!(s.close(), Ok(()));
}
