//! The router: the peer table on top of the connection engine, with the
//! optional handshake (gating) and disconnect (cooperative) protocols.
//!
//! Sockets, timers and messages live outside; the router is driven by events
//! and answers each with the one [`Action`] the caller must perform.
use crate::engine::{Direction, Tcp, TcpView};
use std::collections::HashMap;
use vstd::prelude::*;

verus! {

broadcast use vstd::std_specs::hash::group_hash_axioms;

/// What a completed handshake negotiated with the remote node.
#[derive(Clone, Copy, Debug, PartialEq, Eq, Structural)]
pub struct HandshakeInfo {
    pub identity: u64,
    pub version: u32,
    pub capabilities: u32,
}

/// A promoted peer, with the handshake result when one ran.
#[derive(Clone, Copy, Debug, PartialEq, Eq, Structural)]
pub struct PeerInfo {
    pub handshake: Option<HandshakeInfo>,
}

/// How a handshake with an address ended.
#[derive(Clone, Copy, Debug, PartialEq, Eq, Structural)]
pub enum HandshakeOutcome {
    Completed(HandshakeInfo),
    Failed,
}

/// What the caller must do after an event.
#[derive(Clone, Copy, Debug, PartialEq, Eq, Structural)]
pub enum Action {
    Nothing,
    /// Open an outbound socket to the address.
    OpenSocket(u64),
    /// Run the handshake over the open socket.
    StartHandshake(u64),
    /// Drop the freshly accepted inbound socket; the address is already known.
    Refuse(u64),
    /// Close the socket to the address.
    CloseSocket(u64),
    /// Send a disconnect notice over the socket, then close it.
    NotifyAndClose(u64),
}

/// A socket-level failure while connecting.
#[derive(Clone, Copy, Debug, PartialEq, Eq, Structural)]
pub struct ConnectionError {
    pub addr: u64,
}

/// The router as a mathematical value.
pub struct RouterView {
    pub tcp: TcpView,
    /// Addresses whose handshake runs, with its deadline.
    pub pending: Map<u64, u64>,
    /// The peer table.
    pub peers: Map<u64, PeerInfo>,
    pub handshake: bool,
    pub disconnect_protocol: bool,
    pub handshake_timeout: u64,
}

/// The deadline of a handshake started at `now`.
pub open spec fn deadline(now: u64, timeout: u64) -> u64 {
    if now + timeout > u64::MAX {
        u64::MAX
    } else {
        (now + timeout) as u64
    }
}

impl RouterView {
    /// Each open socket is either handshaking or a peer, never both, and
    /// nothing else is handshaking or a peer.
    pub open spec fn wf(self) -> bool {
        &&& self.tcp.wf()
        &&& self.pending.dom().finite()
        &&& self.peers.dom().finite()
        &&& self.pending.dom().disjoint(self.peers.dom())
        &&& self.tcp.connected.dom() == self.pending.dom().union(self.peers.dom())
    }

    pub open spec fn new(handshake_timeout: u64) -> RouterView {
        RouterView {
            tcp: TcpView::empty(),
            pending: Map::empty(),
            peers: Map::empty(),
            handshake: false,
            disconnect_protocol: false,
            handshake_timeout,
        }
    }

    pub open spec fn number_of_connected_peers(self) -> nat {
        self.peers.len()
    }

    pub open spec fn num_connected(self) -> nat {
        self.tcp.connected.len()
    }

    pub open spec fn num_connecting(self) -> nat {
        self.tcp.connecting.len()
    }

    /// Drops `addr` from the peer table and from the engine.
    pub open spec fn forget(self, addr: u64) -> RouterView {
        RouterView {
            tcp: self.tcp.forget(addr),
            pending: self.pending.remove(addr),
            peers: self.peers.remove(addr),
            ..self
        }
    }

    /// A socket to `addr` is open: gate it behind the handshake, or promote it.
    pub open spec fn settle(self, addr: u64, dir: Direction, now: u64) -> (RouterView, Action) {
        let tcp = self.tcp.establish(addr, dir, now);
        if self.handshake {
            (
                RouterView {
                    tcp,
                    pending: self.pending.insert(addr, deadline(now, self.handshake_timeout)),
                    ..self
                },
                Action::StartHandshake(addr),
            )
        } else {
            (
                RouterView { tcp, peers: self.peers.insert(addr, PeerInfo { handshake: None }), ..self },
                Action::Nothing,
            )
        }
    }

    pub open spec fn connect(self, addr: u64) -> (RouterView, Action) {
        if self.tcp.knows(addr) {
            (self, Action::Nothing)
        } else {
            (RouterView { tcp: self.tcp.begin_connect(addr), ..self }, Action::OpenSocket(addr))
        }
    }

    pub open spec fn on_connected(self, addr: u64, now: u64) -> (RouterView, Action) {
        if self.tcp.connecting.contains_key(addr) {
            self.settle(addr, Direction::Outbound, now)
        } else {
            (self, Action::CloseSocket(addr))
        }
    }

    pub open spec fn on_connect_failed(self, addr: u64) -> RouterView {
        RouterView { tcp: TcpView { connecting: self.tcp.connecting.remove(addr), ..self.tcp }, ..self }
    }

    pub open spec fn on_accepted(self, addr: u64, now: u64) -> (RouterView, Action) {
        if self.tcp.knows(addr) {
            (self, Action::Refuse(addr))
        } else {
            self.settle(addr, Direction::Inbound, now)
        }
    }

    pub open spec fn on_handshake(self, addr: u64, outcome: HandshakeOutcome) -> (RouterView, Action) {
        if !self.pending.contains_key(addr) {
            (self, Action::Nothing)
        } else {
            match outcome {
                HandshakeOutcome::Completed(info) => (
                    RouterView {
                        pending: self.pending.remove(addr),
                        peers: self.peers.insert(addr, PeerInfo { handshake: Some(info) }),
                        ..self
                    },
                    Action::Nothing,
                ),
                HandshakeOutcome::Failed => (self.forget(addr), Action::CloseSocket(addr)),
            }
        }
    }

    pub open spec fn on_deadline(self, addr: u64, now: u64) -> (RouterView, Action) {
        if self.pending.contains_key(addr) && self.pending[addr] <= now {
            (self.forget(addr), Action::CloseSocket(addr))
        } else {
            (self, Action::Nothing)
        }
    }

    pub open spec fn disconnect(self, addr: u64) -> (RouterView, Action) {
        let act = if self.disconnect_protocol && self.tcp.connected.contains_key(addr) {
            Action::NotifyAndClose(addr)
        } else if self.tcp.knows(addr) {
            Action::CloseSocket(addr)
        } else {
            Action::Nothing
        };
        (self.forget(addr), act)
    }

    pub open spec fn on_disconnect_notice(self, addr: u64) -> (RouterView, Action) {
        if self.disconnect_protocol && self.tcp.knows(addr) {
            (self.forget(addr), Action::CloseSocket(addr))
        } else {
            (self, Action::Nothing)
        }
    }
}

/// A node's router.
pub struct Router {
    tcp: Tcp,
    pending: HashMap<u64, u64>,
    peers: HashMap<u64, PeerInfo>,
    handshake: bool,
    disconnect_protocol: bool,
    handshake_timeout: u64,
}

impl View for Router {
    type V = RouterView;

    closed spec fn view(&self) -> RouterView {
        RouterView {
            tcp: self.tcp@,
            pending: self.pending@,
            peers: self.peers@,
            handshake: self.handshake,
            disconnect_protocol: self.disconnect_protocol,
            handshake_timeout: self.handshake_timeout,
        }
    }
}

impl Router {
    /// A router with no connections and no protocol enabled; a handshake,
    /// once enabled, must finish within `handshake_timeout`.
    pub fn new(handshake_timeout: u64) -> (r: Router)
        ensures
            r@ == RouterView::new(handshake_timeout),
            r@.wf(),
    {
        let r = Router {
            tcp: Tcp::new(),
            pending: HashMap::new(),
            peers: HashMap::new(),
            handshake: false,
            disconnect_protocol: false,
            handshake_timeout,
        };
        proof {
            assert(r@.tcp.connected.dom() =~= r@.pending.dom().union(r@.peers.dom()));
        }
        r
    }

    /// The connection engine beneath the router.
    pub fn tcp(&self) -> (r: &Tcp)
        ensures
            r@ == self@.tcp,
    {
        &self.tcp
    }

    /// Gates every later connection behind the handshake.
    pub fn enable_handshake(&mut self)
        ensures
            final(self)@ == (RouterView { handshake: true, ..old(self)@ }),
    {
        self.handshake = true;
    }

    /// Sends a notice to the remote side on each later local disconnect, and
    /// honours such notices from it.
    pub fn enable_disconnect_protocol(&mut self)
        ensures
            final(self)@ == (RouterView { disconnect_protocol: true, ..old(self)@ }),
    {
        self.disconnect_protocol = true;
    }

    /// The number of promoted peers.
    pub fn number_of_connected_peers(&self) -> (r: usize)
        ensures
            r == self@.number_of_connected_peers(),
    {
        self.peers.len()
    }

    pub fn is_connected_peer(&self, addr: u64) -> (r: bool)
        ensures
            r == self@.peers.contains_key(addr),
    {
        self.peers.contains_key(&addr)
    }

    /// The peer entry of `addr`, if it is a promoted peer.
    pub fn peer(&self, addr: u64) -> (r: Option<PeerInfo>)
        ensures
            r == (if self@.peers.contains_key(addr) {
                Some(self@.peers[addr])
            } else {
                None::<PeerInfo>
            }),
    {
        match self.peers.get(&addr) {
            Some(p) => Some(*p),
            None => None,
        }
    }

    pub fn is_handshaking(&self, addr: u64) -> (r: bool)
        ensures
            r == self@.pending.contains_key(addr),
    {
        self.pending.contains_key(&addr)
    }

    fn forget(&mut self, addr: u64)
        requires
            old(self)@.wf(),
        ensures
            final(self)@ == old(self)@.forget(addr),
            final(self)@.wf(),
    {
        self.tcp.disconnect(addr);
        self.pending.remove(&addr);
        self.peers.remove(&addr);
        proof {
            let v = self@;
            assert(v.tcp.connected.dom() =~= v.pending.dom().union(v.peers.dom()));
        }
    }

    fn settle(&mut self, addr: u64, dir: Direction, now: u64) -> (r: Action)
        requires
            old(self)@.wf(),
            !old(self)@.tcp.connected.contains_key(addr),
        ensures
            (final(self)@, r) == old(self)@.settle(addr, dir, now),
            final(self)@.wf(),
    {
        self.tcp.establish(addr, dir, now);
        if self.handshake {
            self.pending.insert(addr, now.saturating_add(self.handshake_timeout));
            proof {
                let v = self@;
                assert(v.tcp.connected.dom() =~= v.pending.dom().union(v.peers.dom()));
            }
            Action::StartHandshake(addr)
        } else {
            self.peers.insert(addr, PeerInfo { handshake: None });
            proof {
                let v = self@;
                assert(v.tcp.connected.dom() =~= v.pending.dom().union(v.peers.dom()));
            }
            Action::Nothing
        }
    }

    /// Asks for an outbound connection to `addr`. An address that is already
    /// connecting or connected is left as it is.
    pub fn connect(&mut self, addr: u64) -> (r: Action)
        requires
            old(self)@.wf(),
        ensures
            (final(self)@, r) == old(self)@.connect(addr),
            final(self)@.wf(),
    {
        if self.tcp.connect(addr) {
            Action::OpenSocket(addr)
        } else {
            Action::Nothing
        }
    }

    /// The outbound socket to `addr` is open. A socket nobody waits for any
    /// more (the attempt was disconnected meanwhile) is closed.
    pub fn on_connected(&mut self, addr: u64, now: u64) -> (r: Action)
        requires
            old(self)@.wf(),
        ensures
            (final(self)@, r) == old(self)@.on_connected(addr, now),
            final(self)@.wf(),
    {
        if self.tcp.is_connecting(addr) {
            self.settle(addr, Direction::Outbound, now)
        } else {
            Action::CloseSocket(addr)
        }
    }

    /// The outbound socket to `addr` could not be opened.
    pub fn on_connect_failed(&mut self, addr: u64) -> (r: ConnectionError)
        requires
            old(self)@.wf(),
        ensures
            final(self)@ == old(self)@.on_connect_failed(addr),
            final(self)@.wf(),
            r == (ConnectionError { addr }),
    {
        if self.tcp.is_connecting(addr) {
            self.tcp.disconnect(addr);
            proof {
                assert(self@.tcp.connecting =~= old(self)@.tcp.connecting.remove(addr));
                assert(self@.tcp.connected =~= old(self)@.tcp.connected);
            }
        } else {
            proof {
                assert(old(self)@.tcp.connecting =~= old(self)@.tcp.connecting.remove(addr));
            }
        }
        ConnectionError { addr }
    }

    /// An inbound socket from `addr` was accepted. One from an address that
    /// is already known is refused.
    pub fn on_accepted(&mut self, addr: u64, now: u64) -> (r: Action)
        requires
            old(self)@.wf(),
        ensures
            (final(self)@, r) == old(self)@.on_accepted(addr, now),
            final(self)@.wf(),
    {
        if self.tcp.is_connecting(addr) || self.tcp.is_connected(addr) {
            Action::Refuse(addr)
        } else {
            self.settle(addr, Direction::Inbound, now)
        }
    }

    /// The handshake with `addr` ended: promote on success, tear down on
    /// failure. An outcome for an address that is not handshaking is ignored.
    pub fn on_handshake(&mut self, addr: u64, outcome: HandshakeOutcome) -> (r: Action)
        requires
            old(self)@.wf(),
        ensures
            (final(self)@, r) == old(self)@.on_handshake(addr, outcome),
            final(self)@.wf(),
    {
        if !self.pending.contains_key(&addr) {
            return Action::Nothing;
        }
        match outcome {
            HandshakeOutcome::Completed(info) => {
                self.pending.remove(&addr);
                self.peers.insert(addr, PeerInfo { handshake: Some(info) });
                proof {
                    let v = self@;
                    assert(v.tcp.connected.dom() =~= v.pending.dom().union(v.peers.dom()));
                }
                Action::Nothing
            },
            HandshakeOutcome::Failed => {
                self.forget(addr);
                Action::CloseSocket(addr)
            },
        }
    }

    /// The clock reads `now` for the handshake with `addr`: past its deadline
    /// the connection is torn down.
    pub fn on_deadline(&mut self, addr: u64, now: u64) -> (r: Action)
        requires
            old(self)@.wf(),
        ensures
            (final(self)@, r) == old(self)@.on_deadline(addr, now),
            final(self)@.wf(),
    {
        let expired = match self.pending.get(&addr) {
            Some(d) => *d <= now,
            None => false,
        };
        if expired {
            self.forget(addr);
            Action::CloseSocket(addr)
        } else {
            Action::Nothing
        }
    }

    /// Drops `addr` locally: the peer entry and every raw trace go at once.
    /// With the disconnect protocol the remote side is sent a notice first;
    /// without it the remote side is told nothing.
    pub fn disconnect(&mut self, addr: u64) -> (r: Action)
        requires
            old(self)@.wf(),
        ensures
            (final(self)@, r) == old(self)@.disconnect(addr),
            final(self)@.wf(),
    {
        let act = if self.disconnect_protocol && self.tcp.is_connected(addr) {
            Action::NotifyAndClose(addr)
        } else if self.tcp.is_connecting(addr) || self.tcp.is_connected(addr) {
            Action::CloseSocket(addr)
        } else {
            Action::Nothing
        };
        self.forget(addr);
        act
    }

    /// The remote side at `addr` announced that it disconnects. Only with the
    /// disconnect protocol enabled does the router act on it.
    pub fn on_disconnect_notice(&mut self, addr: u64) -> (r: Action)
        requires
            old(self)@.wf(),
        ensures
            (final(self)@, r) == old(self)@.on_disconnect_notice(addr),
            final(self)@.wf(),
    {
        if self.disconnect_protocol && (self.tcp.is_connecting(addr) || self.tcp.is_connected(addr)) {
            self.forget(addr);
            Action::CloseSocket(addr)
        } else {
            Action::Nothing
        }
    }

    /// A read or write on the socket to `addr` failed: the connection is dead.
    pub fn on_closed(&mut self, addr: u64)
        requires
            old(self)@.wf(),
        ensures
            final(self)@ == old(self)@.forget(addr),
            final(self)@.wf(),
    {
        self.forget(addr);
    }
}

} // verus!
