//! What the proxy does with UDP datagrams.
//!
//! The transparent UDP socket receives each intercepted datagram with its
//! source (the client) and its original destination. The proxy sends the
//! payload to that destination from a fresh socket, and every datagram that
//! comes back on it is written back to the client from a transparent socket
//! bound at the address the client sent to, so that the kernel hands it to the
//! client's own socket.

use vstd::prelude::*;
use vstd::slice::{slice_subrange, slice_to_vec};
use crate::addr::{SocketAddr, spec_ip, spec_is_broadcast, spec_is_multicast};
use crate::socket::{SocketPlan, spec_udp_packet_plan, udp_packet_plan};

verus! {

/// Size of the buffer that intercepted datagrams are received into.
pub const RECV_BUFFER_LEN: usize = 65536;

/// Size of the buffer that replies from a destination are received into.
pub const REPLY_BUFFER_LEN: usize = 1024;

/// A datagram on its way through the proxy: its payload, where it comes from
/// and where it goes.
#[derive(Debug)]
pub struct UdpPacket {
    pub data: Vec<u8>,
    pub src_addr: SocketAddr,
    pub dst_addr: SocketAddr,
}

/// What becomes of an intercepted datagram.
#[derive(Debug)]
pub enum Intake {
    /// Relay it.
    Forward(UdpPacket),
    /// Its original destination is a multicast or broadcast address: drop it.
    Ignore,
    /// Its original destination is unknown: drop it.
    NoOrigDst,
}

/// Datagrams to a multicast address, or to the version 4 broadcast address,
/// are not relayed.
pub open spec fn spec_is_ignored_destination(dst: SocketAddr) -> bool {
    spec_is_multicast(spec_ip(dst)) || spec_is_broadcast(spec_ip(dst))
}

/// Whether datagrams to `dst` are left alone.
pub fn is_ignored_destination(dst: &SocketAddr) -> (r: bool)
    ensures
        r == spec_is_ignored_destination(*dst),
        r == (match *dst {
            SocketAddr::V4 { ip, .. } => (0xe000_0000 <= ip <= 0xefff_ffff || ip == 0xffff_ffff),
            SocketAddr::V6 { ip, .. } => 0xff00_0000_0000_0000_0000_0000_0000_0000 <= ip,
        }),
{
    let ip = dst.ip();
    ip.is_multicast() || ip.is_broadcast()
}

/// The datagrams that are not relayed are exactly those whose original
/// destination is a version 4 address in `224.0.0.0/4` or the address
/// `255.255.255.255`, or a version 6 address in `ff00::/8`.
pub proof fn lemma_ignored_destinations(dst: SocketAddr)
    ensures
        spec_is_ignored_destination(dst) <==> (match dst {
            SocketAddr::V4 { ip, .. } => (0xe000_0000 <= ip <= 0xefff_ffff || ip == 0xffff_ffff),
            SocketAddr::V6 { ip, .. } => 0xff00_0000_0000_0000_0000_0000_0000_0000 <= ip,
        }),
{
}

/// The first `len` bytes of `buf`, copied.
fn payload(buf: &[u8], len: usize) -> (v: Vec<u8>)
    requires
        len <= buf@.len(),
    ensures
        v@ == buf@.take(len as int),
{
    slice_to_vec(slice_subrange(buf, 0, len))
}

/// Decides what to do with a datagram of `len` bytes, received into `buf`
/// from `from`, whose original destination is `orig_dst` when it is known.
pub fn intake(buf: &[u8], len: usize, from: SocketAddr, orig_dst: Option<SocketAddr>) -> (r: Intake)
    requires
        len <= buf@.len(),
    ensures
        orig_dst is None <==> r is NoOrigDst,
        orig_dst matches Some(d) ==> (r is Ignore <==> spec_is_ignored_destination(d)),
        orig_dst matches Some(d) ==> (r is Ignore <==> (match d {
            SocketAddr::V4 { ip, .. } => (0xe000_0000 <= ip <= 0xefff_ffff || ip == 0xffff_ffff),
            SocketAddr::V6 { ip, .. } => 0xff00_0000_0000_0000_0000_0000_0000_0000 <= ip,
        })),
        r matches Intake::Forward(p) ==> {
            &&& orig_dst == Some(p.dst_addr)
            &&& p.data@ == buf@.take(len as int)
            &&& p.src_addr == from
        },
{
    match orig_dst {
        Some(dst) => {
            if is_ignored_destination(&dst) {
                Intake::Ignore
            } else {
                Intake::Forward(UdpPacket { data: payload(buf, len), src_addr: from, dst_addr: dst })
            }
        },
        None => Intake::NoOrigDst,
    }
}

/// The datagram to hand back to the client of `request`: the `len` bytes
/// received into `buf` from `from`, addressed to the source of `request`.
pub fn reply(buf: &[u8], len: usize, from: SocketAddr, request: &UdpPacket) -> (p: UdpPacket)
    requires
        len <= buf@.len(),
    ensures
        p.data@ == buf@.take(len as int),
        p.src_addr == from,
        p.dst_addr == request.src_addr,
{
    UdpPacket { data: payload(buf, len), src_addr: from, dst_addr: request.src_addr }
}

/// The socket that sends `pkt` on towards its destination.
pub open spec fn spec_upstream_plan(pkt: UdpPacket, mark: u32) -> SocketPlan {
    spec_udp_packet_plan(None, pkt.dst_addr, None, mark)
}

/// The socket that writes `pkt` back into the kernel: bound at the packet's
/// source, connected to its destination.
pub open spec fn spec_write_back_plan(pkt: UdpPacket, mark: u32) -> SocketPlan {
    spec_udp_packet_plan(Some(pkt.src_addr), pkt.dst_addr, None, mark)
}

/// How to make the socket that sends an intercepted datagram on.
pub fn upstream_plan(pkt: &UdpPacket, mark: u32) -> (p: SocketPlan)
    ensures
        p == spec_upstream_plan(*pkt, mark),
{
    udp_packet_plan(None, pkt.dst_addr, None, mark)
}

/// How to make the socket that writes a reply back to the client.
pub fn write_back_plan(pkt: &UdpPacket, mark: u32) -> (p: SocketPlan)
    ensures
        p == spec_write_back_plan(*pkt, mark),
{
    udp_packet_plan(Some(pkt.src_addr), pkt.dst_addr, None, mark)
}

/// A reply that comes from the destination of `request` goes back to the
/// client from a transparent socket bound at the very address the client sent
/// to, and the request itself leaves from a socket of the proxy's own, bound
/// nowhere in particular and connected to that destination; both carry the
/// mark.
pub proof fn lemma_reply_returns_to_client(request: UdpPacket, answer: UdpPacket, mark: u32)
    requires
        answer.src_addr == request.dst_addr,
        answer.dst_addr == request.src_addr,
    ensures
        spec_write_back_plan(answer, mark).bind == Some(request.dst_addr),
        spec_write_back_plan(answer, mark).connect == Some(request.src_addr),
        spec_write_back_plan(answer, mark).ip_transparent,
        spec_write_back_plan(answer, mark).mark == Some(mark),
        spec_upstream_plan(request, mark).bind is None,
        spec_upstream_plan(request, mark).connect == Some(request.dst_addr),
        spec_upstream_plan(request, mark).mark == Some(mark),
{
}

} // verus!
