use peer_bootstrap::endpoint::{
    client_id_from, client_settings, compatible, host_address, loopback, peer_local_address,
    server_settings, Authentication, Endpoint, Timestamp, HOST_PORT, MAX_CLIENTS, PROTOCOL_ID,
};
use peer_bootstrap::negotiation::{Action, BootstrapError, Event, Negotiator, Phase, Role};
use std::time::Duration;

fn ts(secs: u64, nanos: u32) -> Timestamp {
    Timestamp { secs, nanos }
}

fn host_addr() -> Endpoint {
    Endpoint { a: 127, b: 0, c: 0, d: 1, port: 4000 }
}

#[test]
fn addresses_are_loopback() {
    assert_eq!(host_address(), host_addr());
    assert_eq!(HOST_PORT, 4000);
    assert_eq!(peer_local_address(), Endpoint { a: 127, b: 0, c: 0, d: 1, port: 0 });
    assert_eq!(loopback(9), Endpoint { a: 127, b: 0, c: 0, d: 1, port: 9 });
}

#[test]
fn client_id_is_whole_milliseconds() {
    assert_eq!(client_id_from(ts(1, 500_000_000)), 1500);
    assert_eq!(client_id_from(ts(0, 999_999)), 0);
    assert_eq!(client_id_from(ts(1_700_000_000, 123_456_789)), 1_700_000_000_123);
}

#[test]
fn client_id_wraps_to_64_bits() {
    assert_eq!(client_id_from(ts(u64::MAX, 0)), u64::MAX - 999);
    let d = Duration::new(u64::MAX, 999_999_999);
    assert_eq!(client_id_from(ts(u64::MAX, 999_999_999)), d.as_millis() as u64);
}

#[test]
fn client_id_agrees_with_duration_millis() {
    for (s, n) in [(0u64, 0u32), (12, 345_678_901), (4_000_000_000, 1_000_000)] {
        let d = Duration::new(s, n);
        assert_eq!(client_id_from(ts(s, n)), d.as_millis() as u64);
    }
}

#[test]
fn settings_carry_the_shared_parameters() {
    let now = ts(10, 2_000_000);
    let s = server_settings(now);
    assert_eq!(s.current_time, now);
    assert_eq!(s.max_clients, 10);
    assert_eq!(MAX_CLIENTS, 10);
    assert_eq!(s.protocol_id, 0);
    assert_eq!(PROTOCOL_ID, 0);
    assert_eq!(s.authentication, Authentication::Unsecure);
    assert_eq!(s.public_address, host_addr());
    let c = client_settings(now);
    assert_eq!(c.current_time, now);
    assert_eq!(c.client_id, 10_002);
    assert_eq!(c.protocol_id, 0);
    assert_eq!(c.authentication, Authentication::Unsecure);
    assert_eq!(c.server_address, host_addr());
    assert!(compatible(&s, &c));
    let mut other = c;
    other.protocol_id = 1;
    assert!(!compatible(&s, &other));
}

#[test]
fn free_port_makes_a_host() {
    let now = ts(5, 0);
    let mut n = Negotiator::new();
    assert_eq!(n.phase, Phase::Unresolved);
    assert_eq!(n.role(), None);
    assert_eq!(n.step(Event::Start), Action::ReadClock);
    assert_eq!(n.step(Event::Clock(Some(now))), Action::BindSocket(host_addr()));
    assert_eq!(n.step(Event::Bound(true)), Action::BuildServer(server_settings(now)));
    assert_eq!(n.step(Event::Built(true)), Action::InstallServer);
    assert_eq!(n.role(), Some(Role::Host));
    assert!(n.is_finished());
}

#[test]
fn bound_port_makes_a_peer() {
    let now = ts(5, 0);
    let later = ts(5, 7_000_000);
    let mut n = Negotiator::new();
    n.step(Event::Start);
    n.step(Event::Clock(Some(now)));
    assert_eq!(n.step(Event::Bound(false)), Action::ReadClock);
    assert_eq!(n.phase, Phase::PeerClock);
    assert_eq!(
        n.step(Event::Clock(Some(later))),
        Action::BindSocket(Endpoint { a: 127, b: 0, c: 0, d: 1, port: 0 })
    );
    assert_eq!(n.step(Event::Bound(true)), Action::BuildClient(client_settings(later)));
    assert_eq!(n.step(Event::Built(true)), Action::InstallClient);
    assert_eq!(n.role(), Some(Role::Peer));
}

#[test]
fn host_clock_failure_falls_back() {
    let mut n = Negotiator::new();
    n.step(Event::Start);
    assert_eq!(n.step(Event::Clock(None)), Action::ReadClock);
    assert_eq!(n.phase, Phase::PeerClock);
}

#[test]
fn host_transport_failure_falls_back() {
    let mut n = Negotiator::new();
    n.step(Event::Start);
    n.step(Event::Clock(Some(ts(1, 0))));
    n.step(Event::Bound(true));
    assert_eq!(n.step(Event::Built(false)), Action::ReadClock);
    assert_eq!(n.phase, Phase::PeerClock);
}

fn to_peer_clock() -> Negotiator {
    let mut n = Negotiator::new();
    n.step(Event::Start);
    n.step(Event::Clock(Some(ts(1, 0))));
    n.step(Event::Bound(false));
    n
}

#[test]
fn peer_clock_failure_aborts() {
    let mut n = to_peer_clock();
    assert_eq!(n.step(Event::Clock(None)), Action::Abort(BootstrapError::Clock));
    assert_eq!(n.phase, Phase::Aborted);
    assert_eq!(n.role(), None);
    assert!(n.is_finished());
}

#[test]
fn peer_bind_failure_aborts() {
    let mut n = to_peer_clock();
    n.step(Event::Clock(Some(ts(2, 0))));
    assert_eq!(n.step(Event::Bound(false)), Action::Abort(BootstrapError::Bind));
    assert_eq!(n.role(), None);
}

#[test]
fn peer_transport_failure_aborts() {
    let mut n = to_peer_clock();
    n.step(Event::Clock(Some(ts(2, 0))));
    n.step(Event::Bound(true));
    assert_eq!(n.step(Event::Built(false)), Action::Abort(BootstrapError::Transport));
    assert_eq!(n.phase, Phase::Aborted);
}

#[test]
fn settled_role_ignores_later_events() {
    let mut n = Negotiator::new();
    n.step(Event::Start);
    n.step(Event::Clock(Some(ts(1, 0))));
    n.step(Event::Bound(true));
    n.step(Event::Built(true));
    for e in [Event::Start, Event::Clock(None), Event::Bound(false), Event::Built(false)] {
        assert_eq!(n.step(e), Action::Ignore);
        assert_eq!(n.role(), Some(Role::Host));
    }
}

#[test]
fn out_of_order_event_is_ignored() {
    let mut n = Negotiator::new();
    assert_eq!(n.step(Event::Bound(true)), Action::Ignore);
    assert_eq!(n.phase, Phase::Unresolved);
    assert!(!n.is_finished());
}

#[test]
fn simultaneous_start_yields_one_host() {
    let now = ts(3, 0);
    let mut x = Negotiator::new();
    let mut y = Negotiator::new();
    x.step(Event::Start);
    y.step(Event::Start);
    x.step(Event::Clock(Some(now)));
    y.step(Event::Clock(Some(now)));
    // The system lets one bind of the same port succeed.
    x.step(Event::Bound(true));
    y.step(Event::Bound(false));
    x.step(Event::Built(true));
    y.step(Event::Clock(Some(now)));
    y.step(Event::Bound(true));
    y.step(Event::Built(true));
    assert_eq!(x.role(), Some(Role::Host));
    assert_eq!(y.role(), Some(Role::Peer));
}
