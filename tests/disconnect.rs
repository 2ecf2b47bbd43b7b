use snarkos_router::engine::{Connection, Direction};
use snarkos_router::router::{Action, HandshakeInfo, HandshakeOutcome, Router};

const NODE0: u64 = 0x7f00_0001_1000;
const NODE1: u64 = 0x7f00_0001_1001;
const TIMEOUT: u64 = 100;

fn info(identity: u64) -> HandshakeInfo {
    HandshakeInfo { identity, version: 1, capabilities: 0 }
}

/// Node 0 dials node 1 and both sockets open; with the handshake on, both
/// sides then complete it.
fn connect_pair(node0: &mut Router, node1: &mut Router, now: u64) {
    assert_eq!(node0.connect(NODE1), Action::OpenSocket(NODE1));
    let a0 = node0.on_connected(NODE1, now);
    let a1 = node1.on_accepted(NODE0, now);
    if a0 == Action::StartHandshake(NODE1) {
        assert_eq!(node0.on_handshake(NODE1, HandshakeOutcome::Completed(info(1))), Action::Nothing);
    }
    if a1 == Action::StartHandshake(NODE0) {
        assert_eq!(node1.on_handshake(NODE0, HandshakeOutcome::Completed(info(0))), Action::Nothing);
    }
}

#[test]
fn test_disconnect_without_handshake() {
    let mut node0 = Router::new(TIMEOUT);
    let mut node1 = Router::new(TIMEOUT);
    assert_eq!(node0.number_of_connected_peers(), 0);
    assert_eq!(node1.number_of_connected_peers(), 0);

    connect_pair(&mut node0, &mut node1, 0);

    assert_eq!(node0.tcp().num_connected(), 1);
    assert_eq!(node0.tcp().num_connecting(), 0);
    assert_eq!(node1.tcp().num_connected(), 1);
    assert_eq!(node1.tcp().num_connecting(), 0);

    assert_eq!(node0.disconnect(NODE1), Action::CloseSocket(NODE1));

    assert_eq!(node0.tcp().num_connected(), 0);
    assert_eq!(node0.tcp().num_connecting(), 0);
    assert_eq!(node1.tcp().num_connected(), 1);
    assert_eq!(node1.tcp().num_connecting(), 0);
}

#[test]
fn test_disconnect_with_handshake() {
    let mut node0 = Router::new(TIMEOUT);
    let mut node1 = Router::new(TIMEOUT);
    assert_eq!(node0.number_of_connected_peers(), 0);
    assert_eq!(node1.number_of_connected_peers(), 0);

    node0.enable_handshake();
    node1.enable_handshake();

    connect_pair(&mut node0, &mut node1, 0);

    assert_eq!(node0.tcp().num_connected(), 1);
    assert_eq!(node0.tcp().num_connecting(), 0);
    assert_eq!(node1.tcp().num_connected(), 1);
    assert_eq!(node1.tcp().num_connecting(), 0);

    assert_eq!(node0.number_of_connected_peers(), 1);
    assert_eq!(node1.number_of_connected_peers(), 1);

    assert_eq!(node0.disconnect(NODE1), Action::CloseSocket(NODE1));

    assert_eq!(node0.tcp().num_connected(), 0);
    assert_eq!(node0.tcp().num_connecting(), 0);
    assert_eq!(node1.tcp().num_connected(), 1);
    assert_eq!(node1.tcp().num_connecting(), 0);
}

#[test]
fn symmetric_counts_without_protocols() {
    let mut node0 = Router::new(TIMEOUT);
    let mut node1 = Router::new(TIMEOUT);
    connect_pair(&mut node0, &mut node1, 5);
    assert_eq!(node0.number_of_connected_peers(), 1);
    assert_eq!(node1.number_of_connected_peers(), 1);
    assert_eq!(node0.peer(NODE1).unwrap().handshake, None);
}

#[test]
fn handshake_gates_peer_count() {
    let mut node0 = Router::new(TIMEOUT);
    node0.enable_handshake();
    assert_eq!(node0.connect(NODE1), Action::OpenSocket(NODE1));
    assert_eq!(node0.tcp().num_connecting(), 1);
    assert_eq!(node0.on_connected(NODE1, 10), Action::StartHandshake(NODE1));
    assert_eq!(node0.tcp().num_connected(), 1);
    assert_eq!(node0.tcp().num_connecting(), 0);
    assert_eq!(node0.number_of_connected_peers(), 0);
    assert!(node0.is_handshaking(NODE1));
    assert_eq!(node0.on_handshake(NODE1, HandshakeOutcome::Completed(info(7))), Action::Nothing);
    assert_eq!(node0.number_of_connected_peers(), 1);
    assert_eq!(node0.peer(NODE1).unwrap().handshake, Some(info(7)));
}

#[test]
fn failed_handshake_creates_no_peer() {
    let mut node1 = Router::new(TIMEOUT);
    node1.enable_handshake();
    assert_eq!(node1.on_accepted(NODE0, 0), Action::StartHandshake(NODE0));
    assert_eq!(node1.on_handshake(NODE0, HandshakeOutcome::Failed), Action::CloseSocket(NODE0));
    assert_eq!(node1.tcp().num_connected(), 0);
    assert_eq!(node1.number_of_connected_peers(), 0);
    assert_eq!(node1.peer(NODE0), None);
}

#[test]
fn handshake_times_out_at_deadline() {
    let mut node0 = Router::new(TIMEOUT);
    node0.enable_handshake();
    node0.connect(NODE1);
    assert_eq!(node0.on_connected(NODE1, 50), Action::StartHandshake(NODE1));
    assert_eq!(node0.on_deadline(NODE1, 149), Action::Nothing);
    assert_eq!(node0.tcp().num_connected(), 1);
    assert_eq!(node0.on_deadline(NODE1, 150), Action::CloseSocket(NODE1));
    assert_eq!(node0.tcp().num_connected(), 0);
    assert_eq!(node0.tcp().num_connecting(), 0);
    assert!(!node0.is_handshaking(NODE1));
    assert_eq!(node0.on_handshake(NODE1, HandshakeOutcome::Completed(info(1))), Action::Nothing);
    assert_eq!(node0.number_of_connected_peers(), 0);
}

#[test]
fn handshake_deadline_saturates() {
    let mut node0 = Router::new(u64::MAX);
    node0.enable_handshake();
    node0.connect(NODE1);
    node0.on_connected(NODE1, 10);
    assert_eq!(node0.on_deadline(NODE1, u64::MAX - 1), Action::Nothing);
    assert_eq!(node0.on_deadline(NODE1, u64::MAX), Action::CloseSocket(NODE1));
}

#[test]
fn connect_twice_is_one_attempt() {
    let mut node0 = Router::new(TIMEOUT);
    assert_eq!(node0.connect(NODE1), Action::OpenSocket(NODE1));
    assert_eq!(node0.connect(NODE1), Action::Nothing);
    assert_eq!(node0.tcp().num_connecting(), 1);
    assert_eq!(node0.tcp().num_connected(), 0);
    node0.on_connected(NODE1, 0);
    assert_eq!(node0.connect(NODE1), Action::Nothing);
    assert_eq!(node0.tcp().num_connecting(), 0);
    assert_eq!(node0.tcp().num_connected(), 1);
    assert_eq!(node0.number_of_connected_peers(), 1);
}

#[test]
fn inbound_from_known_address_is_refused() {
    let mut node0 = Router::new(TIMEOUT);
    node0.connect(NODE1);
    assert_eq!(node0.on_accepted(NODE1, 0), Action::Refuse(NODE1));
    assert_eq!(node0.tcp().num_connecting(), 1);
    assert_eq!(node0.tcp().num_connected(), 0);
}

#[test]
fn failed_connect_reports_error() {
    let mut node0 = Router::new(TIMEOUT);
    node0.connect(NODE1);
    let e = node0.on_connect_failed(NODE1);
    assert_eq!(e.addr, NODE1);
    assert_eq!(node0.tcp().num_connecting(), 0);
    assert_eq!(node0.connect(NODE1), Action::OpenSocket(NODE1));
}

#[test]
fn late_socket_after_disconnect_is_closed() {
    let mut node0 = Router::new(TIMEOUT);
    node0.connect(NODE1);
    assert_eq!(node0.disconnect(NODE1), Action::CloseSocket(NODE1));
    assert_eq!(node0.on_connected(NODE1, 0), Action::CloseSocket(NODE1));
    assert_eq!(node0.tcp().num_connected(), 0);
    assert_eq!(node0.disconnect(NODE1), Action::Nothing);
}

#[test]
fn disconnect_protocol_notifies_and_is_honoured() {
    let mut node0 = Router::new(TIMEOUT);
    let mut node1 = Router::new(TIMEOUT);
    node0.enable_disconnect_protocol();
    node1.enable_disconnect_protocol();
    connect_pair(&mut node0, &mut node1, 0);
    assert_eq!(node0.disconnect(NODE1), Action::NotifyAndClose(NODE1));
    assert_eq!(node0.tcp().num_connected(), 0);
    assert_eq!(node1.on_disconnect_notice(NODE0), Action::CloseSocket(NODE0));
    assert_eq!(node1.tcp().num_connected(), 0);
    assert_eq!(node1.number_of_connected_peers(), 0);
}

#[test]
fn notice_ignored_without_disconnect_protocol() {
    let mut node0 = Router::new(TIMEOUT);
    let mut node1 = Router::new(TIMEOUT);
    connect_pair(&mut node0, &mut node1, 0);
    assert_eq!(node1.on_disconnect_notice(NODE0), Action::Nothing);
    assert_eq!(node1.tcp().num_connected(), 1);
    node1.on_closed(NODE0);
    assert_eq!(node1.tcp().num_connected(), 0);
    assert_eq!(node1.number_of_connected_peers(), 0);
}

#[test]
fn connections_record_direction_and_time() {
    let mut node0 = Router::new(TIMEOUT);
    let mut node1 = Router::new(TIMEOUT);
    node0.connect(NODE1);
    node0.on_connected(NODE1, 42);
    node1.on_accepted(NODE0, 43);
    assert_eq!(
        node0.tcp().connection(NODE1),
        Some(Connection { direction: Direction::Outbound, established_at: 42 })
    );
    assert_eq!(
        node1.tcp().connection(NODE0),
        Some(Connection { direction: Direction::Inbound, established_at: 43 })
    );
    assert_eq!(node0.tcp().connection(NODE0), None);
    assert!(node0.tcp().is_connected(NODE1));
    assert!(!node0.tcp().is_connecting(NODE1));
    assert!(node0.is_connected_peer(NODE1));
}
