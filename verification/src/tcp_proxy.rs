//! What the proxy does with a TCP stream that the transparent listener accepted.
//!
//! Such a stream's local address is the destination the client meant to reach
//! and its peer address is the client. The proxy dials the destination from a
//! new outbound socket, whose local address it holds in the detector (with a
//! `DetectGuard`) while the relay runs. A stream whose peer is one of those
//! addresses is the proxy's own outbound connection intercepted again: it is
//! dropped instead of being dialled once more.

use vstd::prelude::*;
use crate::addr::SocketAddr;
use crate::detector::Detector;

verus! {

/// The action for an accepted stream.
#[derive(Clone, Copy, Debug, PartialEq, Eq, Structural)]
pub enum Inbound {
    /// The stream comes from an address of the proxy's own: a routing loop.
    /// Drop the stream.
    RoutingLoop { from: SocketAddr },
    /// Dial `target` and relay between it and the stream from `client`.
    Proxy { client: SocketAddr, target: SocketAddr },
}

/// The action for a stream with local address `local` and peer `peer`, when
/// the proxy's outbound connections own the addresses `owned`.
pub open spec fn spec_inbound(owned: Set<SocketAddr>, local: SocketAddr, peer: SocketAddr) -> Inbound {
    if owned.contains(peer) {
        Inbound::RoutingLoop { from: peer }
    } else {
        Inbound::Proxy { client: peer, target: local }
    }
}

/// Decides what to do with an accepted stream, given its local address
/// (`local`, the destination the client asked for) and its peer address
/// (`peer`, the client).
pub fn inbound(detector: &Detector, local: SocketAddr, peer: SocketAddr) -> (r: Inbound)
    ensures
        r == spec_inbound(detector@, local, peer),
{
    if detector.contains(&peer) {
        Inbound::RoutingLoop { from: peer }
    } else {
        Inbound::Proxy { client: peer, target: local }
    }
}

/// While the proxy owns `addr` on an outbound connection (a guard for it was
/// taken), a stream from `addr` is refused, whatever it targets; once the
/// guard has ended, it is relayed again; and taking or ending the guard
/// changes nothing for streams from any other address.
pub proof fn lemma_owned_source_is_refused(
    owned: Set<SocketAddr>,
    addr: SocketAddr,
    other: SocketAddr,
    target: SocketAddr,
)
    requires
        other != addr,
    ensures
        spec_inbound(owned.insert(addr), target, addr) == (Inbound::RoutingLoop { from: addr }),
        spec_inbound(owned.remove(addr), target, addr) == (Inbound::Proxy {
            client: addr,
            target,
        }),
        spec_inbound(owned.insert(addr), target, other) == spec_inbound(owned, target, other),
        spec_inbound(owned.remove(addr), target, other) == spec_inbound(owned, target, other),
{
}

} // verus!
