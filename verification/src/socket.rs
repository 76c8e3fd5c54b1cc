//! The settings of the sockets the proxy opens. Each function here says how a
//! socket is to be made; the program creates and configures the socket from
//! that description.

use vstd::prelude::*;
use crate::addr::SocketAddr;

verus! {

/// The backlog of the transparent TCP listener.
pub const LISTEN_BACKLOG: i32 = 1024;

/// Address family of a socket.
#[derive(Clone, Copy, Debug, PartialEq, Eq, Structural)]
pub enum Domain {
    Ipv4,
    Ipv6,
}

/// Kind of a socket.
#[derive(Clone, Copy, Debug, PartialEq, Eq, Structural)]
pub enum SocketKind {
    Stream,
    Datagram,
}

/// How to make a socket: its family and kind, the options to set, and the
/// addresses to bind, listen on or connect to. An option that is `false` (or
/// `None`) is left as the system sets it.
#[derive(Debug)]
pub struct SocketPlan {
    pub domain: Domain,
    pub kind: SocketKind,
    /// Ask for the UDP protocol explicitly.
    pub udp_protocol: bool,
    /// Bind the socket to this network device.
    pub device: Option<String>,
    pub ip_transparent: bool,
    pub nonblocking: bool,
    pub keepalive: bool,
    pub nodelay: bool,
    pub broadcast: bool,
    pub reuse_port: bool,
    pub reuse_address: bool,
    /// The firewall mark to put on the socket.
    pub mark: Option<u32>,
    /// Receive the original destination address of each datagram.
    pub orig_dst_addr: bool,
    pub bind: Option<SocketAddr>,
    pub listen_backlog: Option<i32>,
    pub connect: Option<SocketAddr>,
}

/// The family of sockets that talk to `addr`.
pub open spec fn spec_domain(addr: SocketAddr) -> Domain {
    match addr {
        SocketAddr::V4 { .. } => Domain::Ipv4,
        SocketAddr::V6 { .. } => Domain::Ipv6,
    }
}

/// The family of sockets that talk to `addr`.
pub fn domain_of(addr: &SocketAddr) -> (d: Domain)
    ensures
        d == spec_domain(*addr),
        *addr is V4 ==> d == Domain::Ipv4,
        *addr is V6 ==> d == Domain::Ipv6,
{
    if addr.is_ipv4() {
        Domain::Ipv4
    } else {
        Domain::Ipv6
    }
}

/// The transparent TCP listener on `addr`.
pub open spec fn spec_tcp_listener_plan(addr: SocketAddr) -> SocketPlan {
    SocketPlan {
        domain: spec_domain(addr),
        kind: SocketKind::Stream,
        udp_protocol: false,
        device: None,
        ip_transparent: true,
        nonblocking: true,
        keepalive: false,
        nodelay: false,
        broadcast: false,
        reuse_port: false,
        reuse_address: false,
        mark: None,
        orig_dst_addr: false,
        bind: Some(addr),
        listen_backlog: Some(LISTEN_BACKLOG),
        connect: None,
    }
}

/// The TCP connection from the proxy to `remote`, carrying `mark`.
pub open spec fn spec_tcp_stream_plan(remote: SocketAddr, mark: u32) -> SocketPlan {
    SocketPlan {
        domain: spec_domain(remote),
        kind: SocketKind::Stream,
        udp_protocol: false,
        device: None,
        ip_transparent: false,
        nonblocking: true,
        keepalive: true,
        nodelay: true,
        broadcast: false,
        reuse_port: false,
        reuse_address: false,
        mark: Some(mark),
        orig_dst_addr: false,
        bind: None,
        listen_backlog: None,
        connect: Some(remote),
    }
}

/// The transparent UDP socket on `addr`, carrying `mark`, that receives the
/// intercepted datagrams with their original destination.
pub open spec fn spec_udp_listener_plan(addr: SocketAddr, mark: u32) -> SocketPlan {
    SocketPlan {
        domain: spec_domain(addr),
        kind: SocketKind::Datagram,
        udp_protocol: true,
        device: None,
        ip_transparent: true,
        nonblocking: true,
        keepalive: false,
        nodelay: false,
        broadcast: true,
        reuse_port: true,
        reuse_address: true,
        mark: Some(mark),
        orig_dst_addr: true,
        bind: Some(addr),
        listen_backlog: None,
        connect: None,
    }
}

/// The UDP socket, carrying `mark`, connected to `addr`, bound to `local`
/// when one is given (which may be any address: the socket is transparent)
/// and to the device `iface` when one is given.
pub open spec fn spec_udp_packet_plan(
    local: Option<SocketAddr>,
    addr: SocketAddr,
    iface: Option<String>,
    mark: u32,
) -> SocketPlan {
    SocketPlan {
        domain: spec_domain(addr),
        kind: SocketKind::Datagram,
        udp_protocol: false,
        device: iface,
        ip_transparent: true,
        nonblocking: true,
        keepalive: false,
        nodelay: false,
        broadcast: false,
        reuse_port: false,
        reuse_address: true,
        mark: Some(mark),
        orig_dst_addr: false,
        bind: local,
        listen_backlog: None,
        connect: Some(addr),
    }
}

/// How to make the transparent TCP listener on `addr`.
pub fn tcp_listener_plan(addr: SocketAddr) -> (p: SocketPlan)
    ensures
        p == spec_tcp_listener_plan(addr),
        addr is V4 ==> p.domain == Domain::Ipv4,
        addr is V6 ==> p.domain == Domain::Ipv6,
{
    SocketPlan {
        domain: domain_of(&addr),
        kind: SocketKind::Stream,
        udp_protocol: false,
        device: None,
        ip_transparent: true,
        nonblocking: true,
        keepalive: false,
        nodelay: false,
        broadcast: false,
        reuse_port: false,
        reuse_address: false,
        mark: None,
        orig_dst_addr: false,
        bind: Some(addr),
        listen_backlog: Some(LISTEN_BACKLOG),
        connect: None,
    }
}

/// How to make the TCP connection from the proxy to `remote`.
pub fn tcp_stream_plan(remote: SocketAddr, mark: u32) -> (p: SocketPlan)
    ensures
        p == spec_tcp_stream_plan(remote, mark),
        remote is V4 ==> p.domain == Domain::Ipv4,
        remote is V6 ==> p.domain == Domain::Ipv6,
{
    SocketPlan {
        domain: domain_of(&remote),
        kind: SocketKind::Stream,
        udp_protocol: false,
        device: None,
        ip_transparent: false,
        nonblocking: true,
        keepalive: true,
        nodelay: true,
        broadcast: false,
        reuse_port: false,
        reuse_address: false,
        mark: Some(mark),
        orig_dst_addr: false,
        bind: None,
        listen_backlog: None,
        connect: Some(remote),
    }
}

/// How to make the transparent UDP socket on `addr`.
pub fn udp_listener_plan(addr: SocketAddr, mark: u32) -> (p: SocketPlan)
    ensures
        p == spec_udp_listener_plan(addr, mark),
        addr is V4 ==> p.domain == Domain::Ipv4,
        addr is V6 ==> p.domain == Domain::Ipv6,
{
    SocketPlan {
        domain: domain_of(&addr),
        kind: SocketKind::Datagram,
        udp_protocol: true,
        device: None,
        ip_transparent: true,
        nonblocking: true,
        keepalive: false,
        nodelay: false,
        broadcast: true,
        reuse_port: true,
        reuse_address: true,
        mark: Some(mark),
        orig_dst_addr: true,
        bind: Some(addr),
        listen_backlog: None,
        connect: None,
    }
}

/// How to make a UDP socket connected to `addr`, bound to `local` and to the
/// device `iface` when these are given.
pub fn udp_packet_plan(
    local: Option<SocketAddr>,
    addr: SocketAddr,
    iface: Option<String>,
    mark: u32,
) -> (p: SocketPlan)
    ensures
        p == spec_udp_packet_plan(local, addr, iface, mark),
        addr is V4 ==> p.domain == Domain::Ipv4,
        addr is V6 ==> p.domain == Domain::Ipv6,
{
    SocketPlan {
        domain: domain_of(&addr),
        kind: SocketKind::Datagram,
        udp_protocol: false,
        device: iface,
        ip_transparent: true,
        nonblocking: true,
        keepalive: false,
        nodelay: false,
        broadcast: false,
        reuse_port: false,
        reuse_address: true,
        mark: Some(mark),
        orig_dst_addr: false,
        bind: local,
        listen_backlog: None,
        connect: Some(addr),
    }
}

/// Every socket the proxy makes has the family of the address it binds to or
/// talks to: an IPv4 socket for an IPv4 address, an IPv6 socket for an IPv6
/// address. For the listeners that is the address they bind; for the
/// outbound sockets it is the destination, whatever local address they bind.
pub proof fn lemma_plans_follow_address_family(
    addr: SocketAddr,
    local: Option<SocketAddr>,
    iface: Option<String>,
    mark: u32,
)
    ensures
        addr is V4 ==> {
            &&& spec_tcp_listener_plan(addr).domain == Domain::Ipv4
            &&& spec_tcp_stream_plan(addr, mark).domain == Domain::Ipv4
            &&& spec_udp_listener_plan(addr, mark).domain == Domain::Ipv4
            &&& spec_udp_packet_plan(local, addr, iface, mark).domain == Domain::Ipv4
        },
        addr is V6 ==> {
            &&& spec_tcp_listener_plan(addr).domain == Domain::Ipv6
            &&& spec_tcp_stream_plan(addr, mark).domain == Domain::Ipv6
            &&& spec_udp_listener_plan(addr, mark).domain == Domain::Ipv6
            &&& spec_udp_packet_plan(local, addr, iface, mark).domain == Domain::Ipv6
        },
{
}

} // verus!
