use tproxy::addr::SocketAddr;
use tproxy::detector::{DetectGuard, Detector};
use tproxy::tcp_proxy::{inbound, Inbound};

fn v4(a: u8, b: u8, c: u8, d: u8, port: u16) -> SocketAddr {
    SocketAddr::V4 { ip: u32::from_be_bytes([a, b, c, d]), port }
}

#[test]
fn insert_reports_whether_new() {
    let mut d = Detector::new();
    let a = v4(192, 168, 2, 2, 1111);
    assert!(!d.contains(&a));
    assert!(d.insert(a));
    assert!(d.contains(&a));
    assert!(!d.insert(a));
    assert!(d.contains(&a));
}

#[test]
fn remove_reports_whether_present() {
    let mut d = Detector::new();
    let a = v4(192, 168, 2, 2, 1111);
    let b = v4(192, 168, 2, 2, 1112);
    assert!(!d.remove(&a));
    d.insert(a);
    d.insert(b);
    assert!(d.remove(&a));
    assert!(!d.contains(&a));
    assert!(d.contains(&b));
    assert!(!d.remove(&a));
}

#[test]
fn v6_addresses_differ_by_scope() {
    let mut d = Detector::new();
    let a = SocketAddr::V6 { ip: 1, port: 8888, flowinfo: 0, scope_id: 0 };
    let b = SocketAddr::V6 { ip: 1, port: 8888, flowinfo: 0, scope_id: 2 };
    d.insert(a);
    assert!(d.contains(&a));
    assert!(!d.contains(&b));
}

#[test]
fn guard_adds_and_drop_removes() {
    let mut d = Detector::new();
    let a = v4(192, 168, 2, 2, 1111);
    let g = DetectGuard::new(a, &mut d);
    assert!(d.contains(&a));
    g.drop_manually(&mut d);
    assert!(!d.contains(&a));
}

#[test]
fn routing_loop_chain_is_cut() {
    // curl 1.1.1.1: the accepted stream is 127.0.0.1:45762 => 1.1.1.1:80
    let mut d = Detector::new();
    let target = v4(1, 1, 1, 1, 80);
    let client = v4(127, 0, 0, 1, 45762);
    assert_eq!(inbound(&d, target, client), Inbound::Proxy { client, target });
    // the proxy dials the target from 192.168.2.2:1111
    let outbound = v4(192, 168, 2, 2, 1111);
    let guard = DetectGuard::new(outbound, &mut d);
    // with a loop, that connection is intercepted again
    assert_eq!(inbound(&d, target, outbound), Inbound::RoutingLoop { from: outbound });
    // other clients are still relayed
    assert_eq!(inbound(&d, target, client), Inbound::Proxy { client, target });
    guard.drop_manually(&mut d);
    assert_eq!(
        inbound(&d, target, outbound),
        Inbound::Proxy { client: outbound, target }
    );
}
