//! The connection engine: raw socket state per remote address.
use std::collections::HashMap;
use vstd::prelude::*;

verus! {

broadcast use vstd::std_specs::hash::group_hash_axioms;

/// Which side opened a connection.
#[derive(Clone, Copy, Debug, PartialEq, Eq, Structural)]
pub enum Direction {
    Inbound,
    Outbound,
}

/// An open socket: who opened it, and when.
#[derive(Clone, Copy, Debug, PartialEq, Eq, Structural)]
pub struct Connection {
    pub direction: Direction,
    pub established_at: u64,
}

/// The raw state of the engine: addresses whose socket is being opened, and
/// addresses whose socket is open.
pub struct TcpView {
    pub connecting: Map<u64, Direction>,
    pub connected: Map<u64, Connection>,
}

impl TcpView {
    /// Raw state is a partition: no address is both connecting and connected.
    pub open spec fn wf(self) -> bool {
        &&& self.connecting.dom().finite()
        &&& self.connected.dom().finite()
        &&& self.connecting.dom().disjoint(self.connected.dom())
    }

    pub open spec fn knows(self, addr: u64) -> bool {
        self.connecting.contains_key(addr) || self.connected.contains_key(addr)
    }

    pub open spec fn empty() -> TcpView {
        TcpView { connecting: Map::empty(), connected: Map::empty() }
    }

    /// An outbound open starts, unless the address is already known.
    pub open spec fn begin_connect(self, addr: u64) -> TcpView {
        if self.knows(addr) {
            self
        } else {
            TcpView { connecting: self.connecting.insert(addr, Direction::Outbound), ..self }
        }
    }

    /// A socket to `addr` is now open.
    pub open spec fn establish(self, addr: u64, dir: Direction, now: u64) -> TcpView {
        TcpView {
            connecting: self.connecting.remove(addr),
            connected: self.connected.insert(addr, Connection { direction: dir, established_at: now }),
        }
    }

    /// Every raw trace of `addr` is gone.
    pub open spec fn forget(self, addr: u64) -> TcpView {
        TcpView { connecting: self.connecting.remove(addr), connected: self.connected.remove(addr) }
    }
}

/// Raw socket bookkeeping, keyed by remote address.
pub struct Tcp {
    connecting: HashMap<u64, Direction>,
    connected: HashMap<u64, Connection>,
}

impl View for Tcp {
    type V = TcpView;

    closed spec fn view(&self) -> TcpView {
        TcpView { connecting: self.connecting@, connected: self.connected@ }
    }
}

impl Tcp {
    pub fn new() -> (r: Tcp)
        ensures
            r@ == TcpView::empty(),
    {
        Tcp { connecting: HashMap::new(), connected: HashMap::new() }
    }

    /// The number of sockets being opened.
    pub fn num_connecting(&self) -> (r: usize)
        ensures
            r == self@.connecting.len(),
    {
        self.connecting.len()
    }

    /// The number of open sockets.
    pub fn num_connected(&self) -> (r: usize)
        ensures
            r == self@.connected.len(),
    {
        self.connected.len()
    }

    pub fn is_connecting(&self, addr: u64) -> (r: bool)
        ensures
            r == self@.connecting.contains_key(addr),
    {
        self.connecting.contains_key(&addr)
    }

    pub fn is_connected(&self, addr: u64) -> (r: bool)
        ensures
            r == self@.connected.contains_key(addr),
    {
        self.connected.contains_key(&addr)
    }

    /// The open socket to `addr`, if there is one.
    pub fn connection(&self, addr: u64) -> (r: Option<Connection>)
        ensures
            r == (if self@.connected.contains_key(addr) {
                Some(self@.connected[addr])
            } else {
                None::<Connection>
            }),
    {
        match self.connected.get(&addr) {
            Some(c) => Some(*c),
            None => None,
        }
    }

    /// Marks `addr` as connecting; a second call for an address that is
    /// connecting or connected changes nothing. Returns whether a socket
    /// should be opened.
    pub fn connect(&mut self, addr: u64) -> (r: bool)
        requires
            old(self)@.wf(),
        ensures
            r == !old(self)@.knows(addr),
            final(self)@ == old(self)@.begin_connect(addr),
            final(self)@.wf(),
    {
        if self.connecting.contains_key(&addr) || self.connected.contains_key(&addr) {
            false
        } else {
            self.connecting.insert(addr, Direction::Outbound);
            true
        }
    }

    /// Records that the socket to `addr` opened at time `now`.
    pub fn establish(&mut self, addr: u64, dir: Direction, now: u64)
        requires
            old(self)@.wf(),
        ensures
            final(self)@ == old(self)@.establish(addr, dir, now),
            final(self)@.wf(),
    {
        self.connecting.remove(&addr);
        self.connected.insert(addr, Connection { direction: dir, established_at: now });
    }

    /// Drops every raw trace of `addr`, without telling the remote side.
    pub fn disconnect(&mut self, addr: u64)
        requires
            old(self)@.wf(),
        ensures
            final(self)@ == old(self)@.forget(addr),
            final(self)@.wf(),
    {
        self.connecting.remove(&addr);
        self.connected.remove(&addr);
    }
}

} // verus!
