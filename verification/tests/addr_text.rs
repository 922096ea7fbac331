//! The textual address forms: MAC parsing and rendering, IPv4 parsing,
//! and default-address resolution.

use lib_sendpacket::addr::{parse_ipv4, Mac};
use lib_sendpacket::PacketError;

#[test]
fn mac_parse_round_trips() {
    let mac = Mac::parse("aa:bb:cc:dd:ee:ff").unwrap();
    assert_eq!(mac.address, [0xaa, 0xbb, 0xcc, 0xdd, 0xee, 0xff]);
    assert_eq!(mac.to_text(), "aa:bb:cc:dd:ee:ff".to_string());
}

#[test]
fn mac_parse_accepts_upper_case() {
    let mac = Mac::parse("AA:0B:C0:DD:9E:F1").unwrap();
    assert_eq!(mac.address, [0xaa, 0x0b, 0xc0, 0xdd, 0x9e, 0xf1]);
    // The canonical text form is lower-case.
    assert_eq!(mac.to_text(), "aa:0b:c0:dd:9e:f1".to_string());
}

#[test]
fn mac_parse_rejects_bad_shapes() {
    assert_eq!(Mac::parse(""), Err(PacketError::MalformedAddress));
    assert_eq!(Mac::parse("aa:bb:cc:dd:ee"), Err(PacketError::MalformedAddress));
    assert_eq!(Mac::parse("aa:bb:cc:dd:ee:f"), Err(PacketError::MalformedAddress));
    assert_eq!(Mac::parse("aa:bb:cc:dd:ee:fg"), Err(PacketError::MalformedAddress));
    assert_eq!(Mac::parse("aabbccddeeff0011f"), Err(PacketError::MalformedAddress));
    assert_eq!(Mac::parse("aa-bb-cc-dd-ee-ff"), Err(PacketError::MalformedAddress));
}

#[test]
fn mac_text_is_canonical() {
    let mac = Mac::new([0, 1, 0x10, 0x9f, 0xa0, 0xff]);
    assert_eq!(mac.to_text(), "00:01:10:9f:a0:ff".to_string());
    assert_eq!(Mac::parse(&mac.to_text()).unwrap(), mac);
}

#[test]
fn ipv4_parse_accepts_dotted_decimal() {
    assert_eq!(parse_ipv4("10.8.0.1").unwrap(), [10, 8, 0, 1]);
    assert_eq!(parse_ipv4("127.0.0.1").unwrap(), [127, 0, 0, 1]);
    assert_eq!(parse_ipv4("255.255.255.255").unwrap(), [255, 255, 255, 255]);
    assert_eq!(parse_ipv4("0.0.0.0").unwrap(), [0, 0, 0, 0]);
    assert_eq!(parse_ipv4("010.008.000.001").unwrap(), [10, 8, 0, 1]);
}

#[test]
fn ipv4_parse_rejects_bad_shapes() {
    assert_eq!(parse_ipv4(""), Err(PacketError::MalformedAddress));
    assert_eq!(parse_ipv4("1.2.3"), Err(PacketError::MalformedAddress));
    assert_eq!(parse_ipv4("1.2.3.4.5"), Err(PacketError::MalformedAddress));
    assert_eq!(parse_ipv4("256.1.1.1"), Err(PacketError::MalformedAddress));
    assert_eq!(parse_ipv4("1.2.3.1000"), Err(PacketError::MalformedAddress));
    assert_eq!(parse_ipv4("1..2.3"), Err(PacketError::MalformedAddress));
    assert_eq!(parse_ipv4("1.2.3."), Err(PacketError::MalformedAddress));
    assert_eq!(parse_ipv4(".1.2.3"), Err(PacketError::MalformedAddress));
    assert_eq!(parse_ipv4("a.b.c.d"), Err(PacketError::MalformedAddress));
    assert_eq!(parse_ipv4("1.2.3.4 "), Err(PacketError::MalformedAddress));
}

#[test]
fn default_mac_resolution() {
    assert_eq!(
        Mac::resolve_default(Some([1, 2, 3, 4, 5, 6])),
        Ok(Mac::new([1, 2, 3, 4, 5, 6]))
    );
    assert_eq!(Mac::resolve_default(None), Err(PacketError::NoInterfaceAvailable));
}
