use tproxy::addr::{listen_addr, IpAddr, SocketAddr};
use tproxy::mark::{get_mark, set_mark, Mark};

fn v4(a: u8, b: u8, c: u8, d: u8) -> u32 {
    u32::from_be_bytes([a, b, c, d])
}

#[test]
fn multicast_v4_range() {
    assert!(!IpAddr::V4(v4(223, 255, 255, 255)).is_multicast());
    assert!(IpAddr::V4(v4(224, 0, 0, 0)).is_multicast());
    assert!(IpAddr::V4(v4(224, 0, 0, 251)).is_multicast());
    assert!(IpAddr::V4(v4(239, 255, 255, 255)).is_multicast());
    assert!(!IpAddr::V4(v4(240, 0, 0, 0)).is_multicast());
    assert!(!IpAddr::V4(v4(1, 1, 1, 1)).is_multicast());
}

#[test]
fn multicast_v6_prefix() {
    assert!(IpAddr::V6(0xff02_0000_0000_0000_0000_0000_0000_00fb).is_multicast());
    assert!(IpAddr::V6(0xff00_0000_0000_0000_0000_0000_0000_0000).is_multicast());
    assert!(!IpAddr::V6(0xfeff_ffff_ffff_ffff_ffff_ffff_ffff_ffff).is_multicast());
    assert!(!IpAddr::V6(0xfe80_0000_0000_0000_0000_0000_0000_0001).is_multicast());
    assert!(!IpAddr::V6(1).is_multicast());
}

#[test]
fn broadcast_only_v4_all_ones() {
    assert!(IpAddr::V4(v4(255, 255, 255, 255)).is_broadcast());
    assert!(!IpAddr::V4(v4(192, 168, 2, 255)).is_broadcast());
    assert!(!IpAddr::V6(u128::MAX).is_broadcast());
}

#[test]
fn socket_addr_parts() {
    let a = SocketAddr::new(IpAddr::V6(1), 53);
    assert_eq!(a, SocketAddr::V6 { ip: 1, port: 53, flowinfo: 0, scope_id: 0 });
    assert_eq!(a.ip(), IpAddr::V6(1));
    assert!(!a.is_ipv4());
    let b = SocketAddr::new(IpAddr::V4(v4(1, 1, 1, 1)), 80);
    assert_eq!(b, SocketAddr::V4 { ip: v4(1, 1, 1, 1), port: 80 });
    assert_eq!(b.ip(), IpAddr::V4(v4(1, 1, 1, 1)));
    assert!(b.is_ipv4());
}

#[test]
fn listen_addr_is_unspecified() {
    assert_eq!(listen_addr(false, 7893), SocketAddr::V4 { ip: 0, port: 7893 });
    assert_eq!(
        listen_addr(true, 7893),
        SocketAddr::V6 { ip: 0, port: 7893, flowinfo: 0, scope_id: 0 }
    );
}

#[test]
fn mark_starts_at_zero_and_reads_last_write() {
    let mut m = Mark::new();
    assert_eq!(get_mark(&m), 0);
    set_mark(&mut m, 8964);
    assert_eq!(get_mark(&m), 8964);
    set_mark(&mut m, 1);
    assert_eq!(get_mark(&m), 1);
}

#[test]
fn tcp_mark_holds_negative_values() {
    let mut m = tproxy::tcp::mark::Mark::new();
    assert_eq!(tproxy::tcp::mark::get_mark(&m), 0);
    tproxy::tcp::mark::set_mark(&mut m, -1);
    assert_eq!(tproxy::tcp::mark::get_mark(&m), -1);
    tproxy::tcp::mark::set_mark(&mut m, 8964);
    assert_eq!(tproxy::tcp::mark::get_mark(&m), 8964);
}
