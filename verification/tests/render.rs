//! Rendering stacks to wire bytes: frame layout, derived lengths,
//! discriminators, the IPv4 checksum, and the error conditions.

use lib_sendpacket::addr::Mac;
use lib_sendpacket::checksum::checksum_words;
use lib_sendpacket::layers::{Ether, Ip, PackageHeader, Payload, Udp, MPLS};
use lib_sendpacket::wire::{build_ipv4_header, build_udp_header, ETHERTYPE_IPV4, ETHERTYPE_IPV6,
    ETHERTYPE_MPLS, PROTO_TCP, PROTO_UDP};
use lib_sendpacket::PacketError;

fn sample_ether() -> Ether {
    Ether::new(Mac::from([10, 1, 1, 1, 1, 1]), Mac::from([10, 1, 1, 1, 1, 2]))
}

fn sample_ip() -> Ip {
    Ip::new("10.8.0.1".into(), "127.0.0.1".into())
}

/// Reads a rendered header back as big-endian words and folds their sum.
fn folded_word_sum(bytes: &[u8]) -> u32 {
    let mut sum: u32 = 0;
    let mut i = 0;
    while i + 1 < bytes.len() {
        sum += (bytes[i] as u32) * 0x100 + bytes[i + 1] as u32;
        i += 2;
    }
    while sum > 0xffff {
        sum = (sum >> 16) + (sum & 0xffff);
    }
    sum
}

#[test]
fn end_to_end_udp_render() {
    let packet = sample_ether()
        .stack_ip(sample_ip())
        .stack_transport(Udp::new(1, 2))
        .with_payload(Payload::new("hello".to_string().into_bytes()));
    let bytes = packet.build_packet().unwrap();
    assert_eq!(bytes.len(), 14 + 20 + 8 + 5);
    // Link layer: destination first, then source, then the type field.
    assert_eq!(&bytes[0..6], &[10, 1, 1, 1, 1, 2]);
    assert_eq!(&bytes[6..12], &[10, 1, 1, 1, 1, 1]);
    assert_eq!(&bytes[12..14], &[0x08, 0x00]);
    // Network layer: version 4, header length 5, total length 33,
    // ttl 1, protocol 17, derived checksum, then the two addresses.
    assert_eq!(
        &bytes[14..34],
        &[
            0x45, 0x00, 0x00, 0x21, 0x00, 0x00, 0x00, 0x00, 0x01, 0x11, 0x30, 0xc3, 10, 8, 0, 1,
            127, 0, 0, 1
        ]
    );
    // Transport layer: ports, length 13, checksum transmitted as zero.
    assert_eq!(&bytes[34..42], &[0x00, 0x01, 0x00, 0x02, 0x00, 0x0d, 0x00, 0x00]);
    // Payload.
    assert_eq!(&bytes[42..47], b"hello");
}

#[test]
fn ether_raw_payload_render() {
    let packet = sample_ether().with_payload(Payload::new(vec![9, 8, 7]));
    let bytes = packet.build_packet().unwrap();
    assert_eq!(bytes.len(), 17);
    assert_eq!(&bytes[0..6], &[10, 1, 1, 1, 1, 2]);
    assert_eq!(&bytes[6..12], &[10, 1, 1, 1, 1, 1]);
    // No declared type: the field is written as zero.
    assert_eq!(&bytes[12..14], &[0, 0]);
    assert_eq!(&bytes[14..17], &[9, 8, 7]);
}

#[test]
fn mpls_stack_render() {
    let packet = sample_ether()
        .stack_label(MPLS::new(77))
        .stack_label(MPLS::new(0x0102_0304))
        .stack_ip(sample_ip())
        .stack_transport(Udp::new(1, 2))
        .with_payload(Payload::new(vec![0xab]));
    let bytes = packet.build_packet().unwrap();
    assert_eq!(bytes.len(), 14 + 8 + 20 + 8 + 1);
    // With labels present the frame announces the label stack.
    assert_eq!(&bytes[12..14], &[0x88, 0x47]);
    // The labels follow in composition order, big-endian.
    assert_eq!(&bytes[14..18], &[0, 0, 0, 77]);
    assert_eq!(&bytes[18..22], &[1, 2, 3, 4]);
    // The network layer follows the labels.
    assert_eq!(bytes[22], 0x45);
}

#[test]
fn l2_ethertype_passthrough() {
    // With no labels, the frame carries the declared ethertype through.
    let l2 = lib_sendpacket::layers::L2::new(sample_ether(), vec![]);
    let bytes = l2.build_header(&[1, 2], ETHERTYPE_IPV6).unwrap();
    assert_eq!(bytes.len(), 16);
    assert_eq!(&bytes[12..14], &[0x86, 0xdd]);
    assert_eq!(&bytes[14..16], &[1, 2]);
}

#[test]
fn ipv4_checksum_vector() {
    // The fixed header: version 4, header length 5, total length 20,
    // ttl 1, protocol 17, source 10.8.0.1, destination 127.0.0.1.
    let header = build_ipv4_header(20, PROTO_UDP, [10, 8, 0, 1], [127, 0, 0, 1]);
    assert_eq!(header.len(), 20);
    assert_eq!(&header[10..12], &[0x30, 0xd0]);
    // Re-verifying: the words including the checksum fold to 0xffff.
    assert_eq!(folded_word_sum(&header), 0xffff);
}

#[test]
fn checksum_words_matches_hand_fold() {
    let words = vec![0x4500u16, 0x0014, 0, 0, 0x0111, 0, 0x0a08, 0x0001, 0x7f00, 0x0001];
    assert_eq!(checksum_words(&words), 0x30d0);
    // A sum with carries to fold: 0x2fffd folds to 0xffff.
    let words = vec![0xffffu16, 0xffff, 0xffff];
    assert_eq!(checksum_words(&words), 0);
    // One carry: 0x10000 folds to 1.
    let words = vec![0xffffu16, 0x0001];
    assert_eq!(checksum_words(&words), 0xfffe);
}

#[test]
fn udp_header_layout() {
    let header = build_udp_header(0x1234, 0x5678, 0x0d);
    assert_eq!(header, vec![0x12, 0x34, 0x56, 0x78, 0x00, 0x0d, 0x00, 0x00]);
}

#[test]
fn oversized_payload_is_field_overflow() {
    // Small enough for the UDP length field, too big for the IPv4 total.
    let packet = sample_ether()
        .stack_ip(sample_ip())
        .stack_transport(Udp::new(1, 2))
        .with_payload(Payload::new(vec![0; 65520]));
    assert_eq!(packet.build_packet(), Err(PacketError::FieldOverflow));
    // Too big even for the UDP length field.
    let packet = sample_ether()
        .stack_ip(sample_ip())
        .stack_transport(Udp::new(1, 2))
        .with_payload(Payload::new(vec![0; 65530]));
    assert_eq!(packet.build_packet(), Err(PacketError::FieldOverflow));
}

#[test]
fn bad_address_is_malformed() {
    let packet = sample_ether()
        .stack_ip(Ip::new("10.8.0".into(), "127.0.0.1".into()))
        .stack_transport(Udp::new(1, 2))
        .with_payload(Payload::new(vec![1]));
    assert_eq!(packet.build_packet(), Err(PacketError::MalformedAddress));
    let packet = sample_ether()
        .stack_ip(Ip::new("10.8.0.1".into(), "localhost".into()))
        .stack_transport(Udp::new(1, 2))
        .with_payload(Payload::new(vec![1]));
    assert_eq!(packet.build_packet(), Err(PacketError::MalformedAddress));
}

#[test]
fn l3_build_header_directly() {
    // The network-layer stack renders for any declared protocol number.
    let l3 = sample_ether().stack_ip(sample_ip());
    let bytes = l3.build_header(&[1, 2, 3], PROTO_TCP).unwrap();
    assert_eq!(bytes.len(), 14 + 20 + 3);
    assert_eq!(bytes[14 + 9], PROTO_TCP);
}

#[test]
fn discriminators_are_distinct() {
    let all = [
        ETHERTYPE_IPV4,
        ETHERTYPE_IPV6,
        ETHERTYPE_MPLS,
        PROTO_UDP as u16,
        PROTO_TCP as u16,
    ];
    for i in 0..all.len() {
        for j in 0..all.len() {
            if i != j {
                assert_ne!(all[i], all[j]);
            }
        }
    }
    assert_eq!(MPLS::new(0).ether_type(), ETHERTYPE_MPLS);
    assert_eq!(sample_ip().ether_type(), ETHERTYPE_IPV4);
}
