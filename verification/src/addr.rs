//! Socket addresses, held as plain numbers so that they can be compared and
//! stored by verified code.

use vstd::prelude::*;

verus! {

/// An IP address. A version 4 address is held as the `u32` whose bytes, most
/// significant first, are its four octets; a version 6 address as the `u128`
/// whose bytes, most significant first, are its sixteen octets.
#[derive(Clone, Copy, Debug, PartialEq, Eq, Hash, Structural)]
pub enum IpAddr {
    V4(u32),
    V6(u128),
}

/// A socket address: an IP address and a port, and for version 6 also the
/// flow information and the scope id. Two addresses are the same exactly when
/// all of these are.
#[derive(Clone, Copy, Debug, PartialEq, Eq, Hash, Structural)]
#[allow(inconsistent_fields)]
pub enum SocketAddr {
    V4 { ip: u32, port: u16 },
    V6 { ip: u128, port: u16, flowinfo: u32, scope_id: u32 },
}

/// The first (most significant) octet of a version 4 address.
pub open spec fn first_octet_v4(ip: u32) -> int {
    ip as int / 0x100_0000
}

/// The first (most significant) octet of a version 6 address.
pub open spec fn first_octet_v6(ip: u128) -> int {
    ip as int / 0x100_0000_0000_0000_0000_0000_0000_0000
}

/// Multicast: `224.0.0.0/4` for version 4 (first octet from 224 to 239),
/// `ff00::/8` for version 6 (first octet 255).
pub open spec fn spec_is_multicast(ip: IpAddr) -> bool {
    match ip {
        IpAddr::V4(a) => 224 <= first_octet_v4(a) <= 239,
        IpAddr::V6(a) => first_octet_v6(a) == 255,
    }
}

/// The limited broadcast address `255.255.255.255`; no version 6 address is one.
pub open spec fn spec_is_broadcast(ip: IpAddr) -> bool {
    match ip {
        IpAddr::V4(a) => a == 0xffff_ffff,
        IpAddr::V6(_) => false,
    }
}

/// The IP address of a socket address.
pub open spec fn spec_ip(addr: SocketAddr) -> IpAddr {
    match addr {
        SocketAddr::V4 { ip, .. } => IpAddr::V4(ip),
        SocketAddr::V6 { ip, .. } => IpAddr::V6(ip),
    }
}

/// The socket address with the given IP address and port; for version 6 the
/// flow information and the scope id are 0.
pub open spec fn spec_socket_addr(ip: IpAddr, port: u16) -> SocketAddr {
    match ip {
        IpAddr::V4(a) => SocketAddr::V4 { ip: a, port },
        IpAddr::V6(a) => SocketAddr::V6 { ip: a, port, flowinfo: 0, scope_id: 0 },
    }
}

/// The multicast addresses are exactly the version 4 addresses from
/// `224.0.0.0` to `239.255.255.255` (first octet from 224 to 239, i.e.
/// `224.0.0.0/4`) and the version 6 addresses from `ff00::` up (first octet
/// 255, i.e. `ff00::/8`); the only broadcast address is `255.255.255.255`.
pub proof fn lemma_multicast_and_broadcast_ranges(ip: IpAddr)
    ensures
        ip matches IpAddr::V4(a) ==> (spec_is_multicast(ip) <==> 0xe000_0000 <= a <= 0xefff_ffff),
        ip matches IpAddr::V6(a) ==> (spec_is_multicast(ip) <==> 0xff00_0000_0000_0000_0000_0000_0000_0000 <= a),
        ip matches IpAddr::V4(a) ==> (spec_is_broadcast(ip) <==> a == 0xffff_ffff),
        ip is V6 ==> !spec_is_broadcast(ip),
{
}

impl IpAddr {
    /// Whether this is a multicast address.
    pub fn is_multicast(&self) -> (r: bool)
        ensures
            r == spec_is_multicast(*self),
            *self matches IpAddr::V4(a) ==> (r <==> 0xe000_0000 <= a <= 0xefff_ffff),
            *self matches IpAddr::V6(a) ==> (r <==> 0xff00_0000_0000_0000_0000_0000_0000_0000 <= a),
    {
        match self {
            IpAddr::V4(a) => 0xe000_0000u32 <= *a && *a <= 0xefff_ffffu32,
            IpAddr::V6(a) => 0xff00_0000_0000_0000_0000_0000_0000_0000u128 <= *a,
        }
    }

    /// Whether this is the version 4 broadcast address.
    pub fn is_broadcast(&self) -> (r: bool)
        ensures
            r == spec_is_broadcast(*self),
            *self matches IpAddr::V4(a) ==> (r <==> a == 0xffff_ffff),
            *self is V6 ==> !r,
    {
        match self {
            IpAddr::V4(a) => *a == 0xffff_ffffu32,
            IpAddr::V6(_) => false,
        }
    }
}

impl SocketAddr {
    /// The socket address with the given IP address and port.
    pub fn new(ip: IpAddr, port: u16) -> (r: SocketAddr)
        ensures
            r == spec_socket_addr(ip, port),
    {
        match ip {
            IpAddr::V4(a) => SocketAddr::V4 { ip: a, port },
            IpAddr::V6(a) => SocketAddr::V6 { ip: a, port, flowinfo: 0, scope_id: 0 },
        }
    }

    /// The IP address of this socket address.
    pub fn ip(&self) -> (r: IpAddr)
        ensures
            r == spec_ip(*self),
    {
        match self {
            SocketAddr::V4 { ip, .. } => IpAddr::V4(*ip),
            SocketAddr::V6 { ip, .. } => IpAddr::V6(*ip),
        }
    }

    /// Whether this is a version 4 socket address.
    pub fn is_ipv4(&self) -> (r: bool)
        ensures
            r == (*self is V4),
    {
        match self {
            SocketAddr::V4 { .. } => true,
            SocketAddr::V6 { .. } => false,
        }
    }
}

/// The address the transparent listeners bind to: the unspecified address
/// (`::` when `ipv6`, `0.0.0.0` otherwise) with the given port.
pub fn listen_addr(ipv6: bool, port: u16) -> (r: SocketAddr)
    ensures
        r == (if ipv6 {
            SocketAddr::V6 { ip: 0, port, flowinfo: 0, scope_id: 0 }
        } else {
            SocketAddr::V4 { ip: 0, port }
        }),
{
    if ipv6 {
        SocketAddr::new(IpAddr::V6(0), port)
    } else {
        SocketAddr::new(IpAddr::V4(0), port)
    }
}

} // verus!
