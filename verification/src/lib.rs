//! Decision logic of a transparent (TPROXY) proxy: the socket addresses it
//! works with, the routing-loop detector, the handling of inbound TCP streams
//! and UDP datagrams, the socket settings it asks for, and the firewall mark.

pub mod addr;
pub mod mark;
pub mod tcp;
pub mod detector;
pub mod tcp_proxy;
pub mod socket;
pub mod udp_proxy;
