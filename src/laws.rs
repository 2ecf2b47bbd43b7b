//! Laws of the router, stated over its model and proved.
use crate::router::{Action, HandshakeOutcome, RouterView, deadline};
use vstd::prelude::*;

verus! {

/// Two nodes without the handshake: once `a` connects to `b_addr` and its
/// socket opens, and `b` accepts the socket from `a_addr`, each side counts
/// one more open socket, the same number of sockets being opened, and one
/// more connected peer.
pub proof fn connect_is_symmetric_without_protocols(
    a: RouterView,
    b: RouterView,
    a_addr: u64,
    b_addr: u64,
    a_now: u64,
    b_now: u64,
)
    requires
        a.wf(),
        b.wf(),
        !a.handshake,
        !b.handshake,
        !a.tcp.knows(b_addr),
        !b.tcp.knows(a_addr),
    ensures
        ({
            let (a1, act) = a.connect(b_addr);
            let (a2, _) = a1.on_connected(b_addr, a_now);
            let (b1, _) = b.on_accepted(a_addr, b_now);
            &&& act == Action::OpenSocket(b_addr)
            &&& a2.num_connected() == a.num_connected() + 1
            &&& a2.num_connecting() == a.num_connecting()
            &&& a2.number_of_connected_peers() == a.number_of_connected_peers() + 1
            &&& b1.num_connected() == b.num_connected() + 1
            &&& b1.num_connecting() == b.num_connecting()
            &&& b1.number_of_connected_peers() == b.number_of_connected_peers() + 1
        }),
{
    let (a1, _) = a.connect(b_addr);
    assert(a1.tcp.connecting.remove(b_addr) =~= a.tcp.connecting);
    assert(!a.peers.contains_key(b_addr));
    assert(!b.peers.contains_key(a_addr));
}

/// Without the disconnect protocol, a local disconnect closes the socket and
/// forgets the address at once, sends the remote side nothing, and a notice
/// arriving at a node without the protocol changes nothing there.
pub proof fn disconnect_is_local_without_protocol(a: RouterView, b: RouterView, a_addr: u64, b_addr: u64)
    requires
        a.wf(),
        b.wf(),
        !a.disconnect_protocol,
        !b.disconnect_protocol,
        a.tcp.connected.contains_key(b_addr),
    ensures
        ({
            let (a1, act) = a.disconnect(b_addr);
            &&& act == Action::CloseSocket(b_addr)
            &&& a1.num_connected() == a.num_connected() - 1
            &&& a1.num_connecting() == a.num_connecting()
            &&& !a1.tcp.knows(b_addr)
            &&& !a1.peers.contains_key(b_addr)
            &&& b.on_disconnect_notice(a_addr) == (b, Action::Nothing)
        }),
{
    assert(a.tcp.connecting.remove(b_addr) =~= a.tcp.connecting);
}

/// With the handshake enabled, a socket that opens (either way) is not a
/// peer: it handshakes until a deadline `timeout` after it opened. Only a
/// completed handshake promotes it, carrying the negotiated result; a failed
/// one tears the connection down and creates no peer.
pub proof fn handshake_gates_promotion(s: RouterView, addr: u64, now: u64, outcome: HandshakeOutcome)
    requires
        s.wf(),
        s.handshake,
        !s.tcp.knows(addr),
    ensures
        ({
            let (s1, _) = s.connect(addr);
            let (out, act_out) = s1.on_connected(addr, now);
            let (inb, act_in) = s.on_accepted(addr, now);
            &&& act_out == Action::StartHandshake(addr)
            &&& act_in == Action::StartHandshake(addr)
            &&& out.num_connected() == s.num_connected() + 1
            &&& inb.num_connected() == s.num_connected() + 1
            &&& out.number_of_connected_peers() == s.number_of_connected_peers()
            &&& inb.number_of_connected_peers() == s.number_of_connected_peers()
            &&& !out.peers.contains_key(addr)
            &&& !inb.peers.contains_key(addr)
            &&& out.pending[addr] == deadline(now, s.handshake_timeout)
            &&& inb.pending[addr] == deadline(now, s.handshake_timeout)
            &&& ({
                let (done, _) = out.on_handshake(addr, outcome);
                match outcome {
                    HandshakeOutcome::Completed(info) => {
                        &&& done.number_of_connected_peers() == s.number_of_connected_peers() + 1
                        &&& done.peers[addr].handshake == Some(info)
                        &&& done.num_connected() == s.num_connected() + 1
                    },
                    HandshakeOutcome::Failed => {
                        &&& done.number_of_connected_peers() == s.number_of_connected_peers()
                        &&& done.num_connected() == s.num_connected()
                        &&& !done.tcp.knows(addr)
                    },
                }
            })
        }),
{
    let (s1, _) = s.connect(addr);
    let (out, _) = s1.on_connected(addr, now);
    assert(!s.peers.contains_key(addr));
    assert(s1.tcp.connecting.remove(addr) =~= s.tcp.connecting);
    match outcome {
        HandshakeOutcome::Completed(info) => {
            assert(out.peers.insert(addr, out.peers[addr]).len() == out.peers.len() + 1);
        },
        HandshakeOutcome::Failed => {
            assert(out.tcp.connected.remove(addr) =~= s.tcp.connected);
            assert(out.peers.remove(addr) =~= s.peers);
        },
    }
}

/// Asking twice for a connection to the same address is asking once: the
/// second request changes nothing and opens nothing, and a request for an
/// address already connecting or connected changes nothing either.
pub proof fn connect_is_idempotent(s: RouterView, addr: u64)
    requires
        s.wf(),
    ensures
        ({
            let (s1, _) = s.connect(addr);
            let (s2, act2) = s1.connect(addr);
            &&& s2 == s1
            &&& act2 == Action::Nothing
            &&& s1.num_connected() == s.num_connected()
            &&& s1.num_connecting() <= s.num_connecting() + 1
            &&& s.tcp.knows(addr) ==> s1 == s
        }),
{
}

/// A handshake still running at its deadline is torn down: the address
/// leaves every table, no peer is created, and an outcome arriving later is
/// ignored.
pub proof fn handshake_timeout_tears_down(s: RouterView, addr: u64, now: u64, late: HandshakeOutcome)
    requires
        s.wf(),
        s.pending.contains_key(addr),
        s.pending[addr] <= now,
    ensures
        ({
            let (s1, act) = s.on_deadline(addr, now);
            &&& act == Action::CloseSocket(addr)
            &&& !s1.tcp.knows(addr)
            &&& !s1.pending.contains_key(addr)
            &&& !s1.peers.contains_key(addr)
            &&& s1.number_of_connected_peers() == s.number_of_connected_peers()
            &&& s1.num_connected() == s.num_connected() - 1
            &&& s1.on_handshake(addr, late) == (s1, Action::Nothing)
        }),
{
    assert(!s.peers.contains_key(addr));
    assert(s.peers.remove(addr) =~= s.peers);
}

/// With the handshake enabled, a connection whose socket opened at `opened`
/// and whose handshake never completes stays up before `opened + timeout`
/// (saturating) and is torn down, with no peer created, once that time comes.
pub proof fn handshake_expires_after_timeout(s: RouterView, addr: u64, opened: u64, t: u64)
    requires
        s.wf(),
        s.handshake,
        !s.tcp.knows(addr),
    ensures
        ({
            let (s1, _) = s.connect(addr);
            let (s2, _) = s1.on_connected(addr, opened);
            let limit = deadline(opened, s.handshake_timeout);
            let (s3, act) = s2.on_deadline(addr, t);
            &&& t < limit ==> s3 == s2 && act == Action::Nothing
            &&& t >= limit ==> {
                &&& act == Action::CloseSocket(addr)
                &&& !s3.tcp.knows(addr)
                &&& s3.peers == s.peers
                &&& s3.tcp.connected == s.tcp.connected
            }
        }),
{
    let (s1, _) = s.connect(addr);
    let (s2, _) = s1.on_connected(addr, opened);
    assert(!s.peers.contains_key(addr));
    assert(s2.peers.remove(addr) =~= s.peers);
    assert(s2.tcp.connected.remove(addr) =~= s.tcp.connected);
}

} // verus!
