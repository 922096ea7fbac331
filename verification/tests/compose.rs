//! Composition of layer stacks: the constructor functions, the
//! composition table, label flattening, and the rejected TCP payload path.

use lib_sendpacket::addr::Mac;
use lib_sendpacket::layers::{Ether, Ip, L3Over, Package, Payload, Tcp, Udp, MPLS};
use lib_sendpacket::PacketError;

fn sample_ether() -> Ether {
    Ether::new(Mac::from([10, 1, 1, 1, 1, 1]), Mac::from([10, 1, 1, 1, 1, 2]))
}

#[test]
fn macro_ip_works() {
    assert_eq!(
        Ip { src: "".into(), dst: "hello".into() },
        Ip::new("".into(), "hello".into())
    );
}

#[test]
fn macro_tcp_works() {
    assert_eq!(Tcp { dport: 0, sport: 1 }, Tcp::new(0u16, 1u16));
}

#[test]
fn macro_mac_works() {
    assert_eq!(Mac { address: [0; 6] }, Mac::from([0; 6]));
}

#[test]
fn macro_tcp_ip_div_fv() {
    let by_literals = Ether {
        src_mac: Mac::from([10, 1, 1, 1, 1, 1]),
        dst_mac: Mac::from([10, 1, 1, 1, 1, 2]),
    }
    .stack_ip(Ip { src: "".into(), dst: "hello".into() })
    .stack_transport(Tcp { dport: 0u16, sport: 1u16 });
    let by_constructors = sample_ether()
        .stack_ip(Ip::new("".into(), "hello".into()))
        .stack_transport(Tcp::new(0u16, 1u16));
    assert_eq!(by_literals, by_constructors);
}

#[test]
fn label_stacking_flattens() {
    let stack = sample_ether()
        .stack_label(MPLS::new(77))
        .stack_label(MPLS::new(88));
    assert_eq!(stack.mpls_labels, vec![MPLS { label: 77 }, MPLS { label: 88 }]);
    assert_eq!(stack.ether, sample_ether());
}

#[test]
fn udp_stack_carries_its_parts() {
    let stack = sample_ether()
        .stack_ip(Ip::new("10.8.0.1".into(), "127.0.0.1".into()))
        .stack_transport(Udp::new(1, 2));
    assert_eq!(stack.transport, Udp { src_port: 1, dst_port: 2 });
    assert_eq!(stack.l3.ip.src, "10.8.0.1".to_string());
    let packet = stack.with_payload(Payload::new(vec![1, 2, 3]));
    assert_eq!(packet.payload.payload, vec![1, 2, 3]);
}

#[test]
fn tcp_stack_rejects_payload() {
    let stack: L3Over<Tcp> = sample_ether()
        .stack_ip(Ip::new("10.8.0.1".into(), "127.0.0.1".into()))
        .stack_transport(Tcp::new(85, 10));
    let packet = Package::new(stack, Payload::new(vec![1, 2, 3, 4]));
    assert_eq!(packet.build_packet(), Err(PacketError::UnsupportedComposition));
}
