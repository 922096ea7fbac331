//! Big-endian field encoding, the discriminator table, and the fixed
//! header layouts of the IPv4 and UDP layers.
//!
//! All multi-byte header fields are big-endian network byte order.  The
//! discriminator table is the closed mapping from the type of a next-inner
//! layer to its reserved numeric constant: the ethertype carried by an
//! Ethernet frame, or the protocol number carried by an IPv4 header.

use crate::checksum::{checksum_of, checksum_words, fold_carries, lemma_checksum_round_trip,
    sum_words};
use vstd::prelude::*;

verus! {

/// Ethertype announcing an IPv4 header.
pub const ETHERTYPE_IPV4: u16 = 0x0800;

/// Ethertype announcing an IPv6 header.
pub const ETHERTYPE_IPV6: u16 = 0x86DD;

/// Ethertype announcing an MPLS label stack.
pub const ETHERTYPE_MPLS: u16 = 0x8847;

/// IPv4 protocol number of UDP.
pub const PROTO_UDP: u8 = 17;

/// IPv4 protocol number of TCP.
pub const PROTO_TCP: u8 = 6;

/// The kinds of next-inner layer that a discriminator field can announce.
#[derive(Clone, Copy, Debug, PartialEq, Eq, Structural)]
pub enum NextLayer {
    Mpls,
    Ipv4,
    Ipv6,
    Udp,
    Tcp,
}

/// The closed discriminator mapping of the composition table: each
/// next-layer kind to its reserved numeric constant.
pub open spec fn discriminator(k: NextLayer) -> u16 {
    match k {
        NextLayer::Mpls => 0x8847,
        NextLayer::Ipv4 => 0x0800,
        NextLayer::Ipv6 => 0x86DD,
        NextLayer::Udp => 17,
        NextLayer::Tcp => 6,
    }
}

/// The discriminator mapping is injective on its domain: no two distinct
/// next-layer kinds share a numeric constant.
pub proof fn lemma_discriminator_injective(a: NextLayer, b: NextLayer)
    ensures
        discriminator(a) == discriminator(b) ==> a == b,
{
}

/// The two big-endian bytes of a 16-bit field.
pub open spec fn be16(x: u16) -> Seq<u8> {
    seq![(x / 0x100) as u8, (x % 0x100) as u8]
}

/// The four big-endian bytes of a 32-bit field.
pub open spec fn be32(x: u32) -> Seq<u8> {
    seq![
        (x / 0x1000000) as u8,
        ((x / 0x10000) % 0x100) as u8,
        ((x / 0x100) % 0x100) as u8,
        (x % 0x100) as u8,
    ]
}

/// The 16-bit word formed by two bytes in big-endian order.
pub open spec fn word16(hi: u8, lo: u8) -> u16 {
    (hi as int * 0x100 + lo as int) as u16
}

/// A byte sequence of even length read as big-endian 16-bit words.
pub open spec fn words_of_bytes(b: Seq<u8>) -> Seq<u16> {
    Seq::new((b.len() / 2) as nat, |i: int| word16(b[2 * i], b[2 * i + 1]))
}

/// Appends the two big-endian bytes of a 16-bit field.
pub fn push_be16(out: &mut Vec<u8>, x: u16)
    ensures
        final(out)@ == old(out)@ + be16(x),
{
    out.push((x / 0x100) as u8);
    out.push((x % 0x100) as u8);
    assert(out@ =~= old(out)@ + be16(x));
}

/// Appends the four big-endian bytes of a 32-bit field.
pub fn push_be32(out: &mut Vec<u8>, x: u32)
    ensures
        final(out)@ == old(out)@ + be32(x),
{
    out.push((x / 0x1000000) as u8);
    out.push(((x / 0x10000) % 0x100) as u8);
    out.push(((x / 0x100) % 0x100) as u8);
    out.push((x % 0x100) as u8);
    assert(out@ =~= old(out)@ + be32(x));
}

/// Appends a whole byte slice.
pub fn push_bytes(out: &mut Vec<u8>, s: &[u8])
    ensures
        final(out)@ == old(out)@ + s@,
{
    let mut i: usize = 0;
    while i < s.len()
        invariant
            0 <= i <= s@.len(),
            out@ == old(out)@ + s@.subrange(0, i as int),
        decreases s@.len() - i,
    {
        out.push(s[i]);
        assert(out@ =~= old(out)@ + s@.subrange(0, i + 1));
        i = i + 1;
    }
    assert(s@.subrange(0, s@.len() as int) =~= s@);
}

/// The ten 16-bit words of an IPv4 header with the checksum slot zero:
/// version 4, header length 5 (no options), all-zero service field,
/// identification and fragment fields zero, hop count 1.
pub open spec fn ipv4_words(total_len: u16, proto: u8, src: Seq<u8>, dst: Seq<u8>) -> Seq<u16>
    recommends
        src.len() == 4,
        dst.len() == 4,
{
    seq![
        0x4500u16,
        total_len,
        0u16,
        0u16,
        (0x100 + proto as int) as u16,
        0u16,
        word16(src[0], src[1]),
        word16(src[2], src[3]),
        word16(dst[0], dst[1]),
        word16(dst[2], dst[3]),
    ]
}

/// The twenty bytes of an IPv4 header: the words above rendered
/// big-endian, with the derived checksum filled into its slot.
pub open spec fn ipv4_header_bytes(total_len: u16, proto: u8, src: Seq<u8>, dst: Seq<u8>) -> Seq<
    u8,
>
    recommends
        src.len() == 4,
        dst.len() == 4,
{
    let ck = checksum_of(ipv4_words(total_len, proto, src, dst));
    seq![0x45u8, 0u8] + be16(total_len) + seq![0u8, 0u8, 0u8, 0u8, 1u8, proto] + be16(ck) + src
        + dst
}

/// The eight bytes of a UDP header.  The checksum field is transmitted as
/// zero, which UDP over IPv4 defines as "no checksum computed"; the field
/// is written explicitly, not omitted.
pub open spec fn udp_header_bytes(src_port: u16, dst_port: u16, length: u16) -> Seq<u8> {
    be16(src_port) + be16(dst_port) + be16(length) + seq![0u8, 0u8]
}

/// A rendered IPv4 header verifies: reading its twenty bytes back as
/// big-endian words and folding their sum yields `0xffff`.
pub proof fn lemma_ipv4_header_verifies(total_len: u16, proto: u8, src: Seq<u8>, dst: Seq<u8>)
    requires
        src.len() == 4,
        dst.len() == 4,
    ensures
        fold_carries(sum_words(words_of_bytes(ipv4_header_bytes(total_len, proto, src, dst))))
            == 0xffff,
{
    let ws = ipv4_words(total_len, proto, src, dst);
    let ck = checksum_of(ws);
    let b = ipv4_header_bytes(total_len, proto, src, dst);
    assert(b.len() == 20);
    assert(words_of_bytes(b) =~= ws.update(5, ck)) by {
        assert forall|i: int| 0 <= i < 10 implies words_of_bytes(b)[i] == ws.update(5, ck)[i] by {
            assert(words_of_bytes(b)[i] == word16(b[2 * i], b[2 * i + 1]));
        }
    }
    lemma_checksum_round_trip(ws, 5);
}

/// Builds the twenty header bytes of the IPv4 layer, deriving the
/// checksum from the other fields.
pub fn build_ipv4_header(total_len: u16, proto: u8, src: [u8; 4], dst: [u8; 4]) -> (r: Vec<u8>)
    ensures
        r@ == ipv4_header_bytes(total_len, proto, src@, dst@),
{
    let mut words: Vec<u16> = Vec::new();
    words.push(0x4500);
    words.push(total_len);
    words.push(0);
    words.push(0);
    words.push(0x100 + proto as u16);
    words.push(0);
    words.push(src[0] as u16 * 0x100 + src[1] as u16);
    words.push(src[2] as u16 * 0x100 + src[3] as u16);
    words.push(dst[0] as u16 * 0x100 + dst[1] as u16);
    words.push(dst[2] as u16 * 0x100 + dst[3] as u16);
    assert(words@ =~= ipv4_words(total_len, proto, src@, dst@));
    let ck = checksum_words(&words);
    let mut out: Vec<u8> = Vec::new();
    out.push(0x45);
    out.push(0);
    push_be16(&mut out, total_len);
    out.push(0);
    out.push(0);
    out.push(0);
    out.push(0);
    out.push(1);
    out.push(proto);
    push_be16(&mut out, ck);
    out.push(src[0]);
    out.push(src[1]);
    out.push(src[2]);
    out.push(src[3]);
    out.push(dst[0]);
    out.push(dst[1]);
    out.push(dst[2]);
    out.push(dst[3]);
    assert(out@ =~= ipv4_header_bytes(total_len, proto, src@, dst@));
    out
}

/// Builds the eight header bytes of the UDP layer.
pub fn build_udp_header(src_port: u16, dst_port: u16, length: u16) -> (r: Vec<u8>)
    ensures
        r@ == udp_header_bytes(src_port, dst_port, length),
{
    let mut out: Vec<u8> = Vec::new();
    push_be16(&mut out, src_port);
    push_be16(&mut out, dst_port);
    push_be16(&mut out, length);
    out.push(0);
    out.push(0);
    assert(out@ =~= udp_header_bytes(src_port, dst_port, length));
    out
}

} // verus!
