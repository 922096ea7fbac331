//! The header value types, the layer-composition operator, and the
//! header-builder protocol.
//!
//! A stack is built by composition steps, each valid for specific
//! (outer, inner) pairs only: a link layer takes labels or a network
//! layer, a network layer takes one transport layer, and a link layer or
//! a completed transport stack takes the payload.  Every composite
//! renders itself inside-out: the inner bytes are rendered first, and
//! each layer derives its length fields, discriminators and checksum
//! from them before prefixing its own header.

use crate::addr::{ipv4_value_of, parse_ipv4, valid_ipv4_text, Mac};
use crate::wire::{
    be16, be32, build_ipv4_header, build_udp_header, ipv4_header_bytes, push_be16, push_be32,
    push_bytes, udp_header_bytes, ETHERTYPE_IPV4, ETHERTYPE_MPLS, PROTO_UDP,
};
use crate::PacketError;
use vstd::prelude::*;

verus! {

/// The Ethernet link layer: source and destination hardware addresses.
#[derive(Clone, Copy, Debug, PartialEq, Eq)]
pub struct Ether {
    pub src_mac: Mac,
    pub dst_mac: Mac,
}

/// A newtype wrapper around a link layer.
#[derive(Clone, Copy, Debug, PartialEq, Eq)]
pub struct EtherWrapper(pub Ether);

/// One MPLS label.
#[derive(Clone, Copy, Debug, PartialEq, Eq)]
pub struct MPLS {
    pub label: u32,
}

/// The network layer: source and destination addresses in text form.
#[derive(Clone, Debug, PartialEq, Eq)]
pub struct Ip {
    pub src: String,
    pub dst: String,
}

/// TCP transport fields: destination and source ports.
#[derive(Clone, Copy, Debug, PartialEq, Eq)]
pub struct Tcp {
    pub dport: u16,
    pub sport: u16,
}

/// UDP transport fields: source and destination ports.
#[derive(Clone, Copy, Debug, PartialEq, Eq)]
pub struct Udp {
    pub src_port: u16,
    pub dst_port: u16,
}

/// The opaque payload carried by a completed packet.
#[derive(Clone, Debug, PartialEq, Eq)]
pub struct Payload {
    pub payload: Vec<u8>,
}

/// A link-layer stack: one Ethernet layer and a flat, ordered sequence
/// of MPLS labels.  Stacking a further label appends to the sequence;
/// label stacks never nest.
#[derive(Clone, Debug, PartialEq, Eq)]
pub struct L2 {
    pub ether: Ether,
    pub mpls_labels: Vec<MPLS>,
}

/// A network-layer stack: a link-layer stack wrapping the network layer.
#[derive(Clone, Debug, PartialEq, Eq)]
pub struct L3 {
    pub l2: L2,
    pub ip: Ip,
}

/// Marker for the transport layers a network layer accepts.
pub trait Transport {

}

impl Transport for Tcp {

}

impl Transport for Udp {

}

/// A transport stack: a network-layer stack fixed to one transport kind.
#[derive(Clone, Debug, PartialEq, Eq)]
pub struct L3Over<T: Transport> {
    pub l3: L3,
    pub transport: T,
}

/// The header-builder protocol: a stack renders itself to wire bytes
/// around already-rendered inner bytes, given whatever extra information
/// its outermost layer still needs (a declared ethertype for a bare link
/// layer, a protocol number for a network layer, nothing for a completed
/// stack).
pub trait PackageHeader<ExtraInfo> {
    /// The bytes this stack renders around the payload, or the error it
    /// reports.
    spec fn build_header_spec(&self, payload: Seq<u8>, extra: ExtraInfo) -> Result<
        Seq<u8>,
        PacketError,
    >;

    /// Renders the stack's headers around the payload bytes, inside-out.
    fn build_header(&self, payload: &[u8], extra: ExtraInfo) -> (r: Result<Vec<u8>, PacketError>)
        ensures
            match r {
                Ok(v) => self.build_header_spec(payload@, extra) == Ok::<Seq<u8>, PacketError>(v@),
                Err(e) => self.build_header_spec(payload@, extra) == Err::<Seq<u8>, PacketError>(
                    e,
                ),
            },
    ;
}

/// A completed packet: a stack that accepts a raw payload, paired with
/// the payload it carries.
#[derive(Clone, Debug, PartialEq, Eq)]
pub struct Package<H: PackageHeader<()>> {
    pub header: H,
    pub payload: Payload,
}

/// The wire bytes of an Ethernet frame: destination, source, the 16-bit
/// type field, then the inner bytes.
pub open spec fn ether_frame_bytes(e: Ether, ethertype: u16, inner: Seq<u8>) -> Seq<u8> {
    e.dst_mac.address@ + e.src_mac.address@ + be16(ethertype) + inner
}

/// The type field an optional declared ethertype renders to: zero when
/// nothing is declared.
pub open spec fn opt_ethertype(ether_type: Option<u16>) -> u16 {
    match ether_type {
        Some(t) => t,
        None => 0,
    }
}

/// The label values of a link-layer stack, outermost first.
pub open spec fn labels_of(l2: L2) -> Seq<u32> {
    l2.mpls_labels@.map_values(|m: MPLS| m.label)
}

/// The label sequence after one more label is stacked on: appended to
/// the same flat sequence, never nested.
pub open spec fn stacked_labels(labels: Seq<u32>, label: u32) -> Seq<u32> {
    labels.push(label)
}

/// The rendered bytes of a label stack: each label as four big-endian
/// bytes, in sequence order.
pub open spec fn labels_bytes(labels: Seq<u32>) -> Seq<u8>
    decreases labels.len(),
{
    if labels.len() == 0 {
        Seq::empty()
    } else {
        labels_bytes(labels.drop_last()) + be32(labels.last())
    }
}

/// A label stack renders to four bytes per label.
pub proof fn lemma_labels_bytes_len(labels: Seq<u32>)
    ensures
        labels_bytes(labels).len() == 4 * labels.len(),
    decreases labels.len(),
{
    if labels.len() > 0 {
        lemma_labels_bytes_len(labels.drop_last());
    }
}

/// The ethertype a link-layer stack writes into its frame: the label
/// stack's fixed marker when labels are present, else whatever the layer
/// above declared.
pub open spec fn l2_ethertype(l2: L2, declared: u16) -> u16 {
    if labels_of(l2).len() > 0 {
        ETHERTYPE_MPLS
    } else {
        declared
    }
}

impl Ether {
    /// Builds a link layer from its two addresses.
    pub fn new(src_mac: Mac, dst_mac: Mac) -> (r: Ether)
        ensures
            r == (Ether { src_mac, dst_mac }),
    {
        Ether { src_mac, dst_mac }
    }

    /// Renders the Ethernet frame around already-rendered inner bytes;
    /// with no declared ethertype the type field is written as zero.
    fn build_header_inner(&self, payload: &[u8], ether_type: Option<u16>) -> (r: Vec<u8>)
        ensures
            r@ == ether_frame_bytes(*self, opt_ethertype(ether_type), payload@),
    {
        let mut out: Vec<u8> = Vec::new();
        out.push(self.dst_mac.address[0]);
        out.push(self.dst_mac.address[1]);
        out.push(self.dst_mac.address[2]);
        out.push(self.dst_mac.address[3]);
        out.push(self.dst_mac.address[4]);
        out.push(self.dst_mac.address[5]);
        out.push(self.src_mac.address[0]);
        out.push(self.src_mac.address[1]);
        out.push(self.src_mac.address[2]);
        out.push(self.src_mac.address[3]);
        out.push(self.src_mac.address[4]);
        out.push(self.src_mac.address[5]);
        let et = match ether_type {
            Some(t) => t,
            None => 0,
        };
        push_be16(&mut out, et);
        push_bytes(&mut out, payload);
        assert(out@ =~= ether_frame_bytes(*self, opt_ethertype(ether_type), payload@));
        out
    }

    /// Stacks a first MPLS label onto the link layer.
    pub fn stack_label(self, rhs: MPLS) -> (r: L2)
        ensures
            r.ether == self,
            labels_of(r) == stacked_labels(Seq::<u32>::empty(), rhs.label),
    {
        let mut labels: Vec<MPLS> = Vec::new();
        labels.push(rhs);
        let r = L2 { ether: self, mpls_labels: labels };
        proof {
            assert(labels_of(r) =~= stacked_labels(Seq::<u32>::empty(), rhs.label));
        }
        r
    }

    /// Stacks the network layer directly onto the link layer.
    pub fn stack_ip(self, rhs: Ip) -> (r: L3)
        ensures
            r.l2.ether == self,
            labels_of(r.l2) == Seq::<u32>::empty(),
            r.ip == rhs,
    {
        let r = L3 { l2: L2 { ether: self, mpls_labels: Vec::new() }, ip: rhs };
        proof {
            assert(labels_of(r.l2) =~= Seq::<u32>::empty());
        }
        r
    }

    /// Attaches a raw payload directly to the link layer: the terminal
    /// composition for a frame that declares no type.
    pub fn with_payload(self, rhs: Payload) -> (r: Package<Ether>)
        ensures
            r.header == self,
            r.payload == rhs,
    {
        Package { header: self, payload: rhs }
    }
}

impl EtherWrapper {
    /// Wraps a link layer.
    pub fn new(ether: Ether) -> (r: EtherWrapper)
        ensures
            r.0 == ether,
    {
        EtherWrapper(ether)
    }
}

impl MPLS {
    /// Builds one label.
    pub fn new(label: u32) -> (r: MPLS)
        ensures
            r == (MPLS { label }),
    {
        MPLS { label }
    }

    /// The fixed ethertype marker of an MPLS label stack.
    pub fn ether_type(&self) -> (r: u16)
        ensures
            r == ETHERTYPE_MPLS,
    {
        ETHERTYPE_MPLS
    }
}

impl Ip {
    /// Builds the network layer from its two address texts.
    pub fn new(src: String, dst: String) -> (r: Ip)
        ensures
            r == (Ip { src, dst }),
    {
        Ip { src, dst }
    }

    /// The ethertype announcing this network layer; the layer is IPv4.
    pub fn ether_type(&self) -> (r: u16)
        ensures
            r == ETHERTYPE_IPV4,
    {
        ETHERTYPE_IPV4
    }
}

impl Tcp {
    /// Builds the TCP fields.
    pub fn new(dport: u16, sport: u16) -> (r: Tcp)
        ensures
            r == (Tcp { dport, sport }),
    {
        Tcp { dport, sport }
    }
}

impl Udp {
    /// Builds the UDP fields.
    pub fn new(src_port: u16, dst_port: u16) -> (r: Udp)
        ensures
            r == (Udp { src_port, dst_port }),
    {
        Udp { src_port, dst_port }
    }
}

impl Payload {
    /// Wraps payload bytes.
    pub fn new(payload: Vec<u8>) -> (r: Payload)
        ensures
            r.payload@ == payload@,
    {
        Payload { payload }
    }
}

impl L2 {
    /// Builds a link-layer stack from its parts.
    pub fn new(ether: Ether, mpls_labels: Vec<MPLS>) -> (r: L2)
        ensures
            r.ether == ether,
            r.mpls_labels@ == mpls_labels@,
    {
        L2 { ether, mpls_labels }
    }

    /// Renders the label stack to bytes, outermost label first.
    fn build_labels(&self) -> (r: Vec<u8>)
        ensures
            r@ == labels_bytes(labels_of(*self)),
    {
        let ghost all = labels_of(*self);
        let mut out: Vec<u8> = Vec::new();
        let mut i: usize = 0;
        while i < self.mpls_labels.len()
            invariant
                0 <= i <= self.mpls_labels@.len(),
                all == labels_of(*self),
                all.len() == self.mpls_labels@.len(),
                out@ == labels_bytes(all.subrange(0, i as int)),
            decreases self.mpls_labels@.len() - i,
        {
            push_be32(&mut out, self.mpls_labels[i].label);
            proof {
                assert(all.subrange(0, i + 1).drop_last() =~= all.subrange(0, i as int));
                assert(all.subrange(0, i + 1).last() == all[i as int]);
            }
            i = i + 1;
        }
        proof {
            assert(all.subrange(0, all.len() as int) =~= all);
        }
        out
    }

    /// Stacks a further label: appends to the same flat sequence rather
    /// than nesting a new wrapper.
    pub fn stack_label(self, rhs: MPLS) -> (r: L2)
        ensures
            r.ether == self.ether,
            labels_of(r) == stacked_labels(labels_of(self), rhs.label),
    {
        let L2 { ether, mpls_labels: mut labels } = self;
        labels.push(rhs);
        let r = L2 { ether, mpls_labels: labels };
        proof {
            assert(labels_of(r) =~= stacked_labels(labels_of(self), rhs.label));
        }
        r
    }

    /// Stacks the network layer onto the link-layer stack.
    pub fn stack_ip(self, rhs: Ip) -> (r: L3)
        ensures
            r.l2 == self,
            r.ip == rhs,
    {
        L3 { l2: self, ip: rhs }
    }
}

impl L3 {
    /// Builds a network-layer stack from its parts.
    pub fn new(l2: L2, ip: Ip) -> (r: L3)
        ensures
            r.l2 == l2,
            r.ip == ip,
    {
        L3 { l2, ip }
    }

    /// Stacks one transport layer onto the network layer.
    pub fn stack_transport<T: Transport>(self, rhs: T) -> (r: L3Over<T>)
        ensures
            r.l3 == self,
            r.transport == rhs,
    {
        L3Over { l3: self, transport: rhs }
    }
}

impl<T: Transport> L3Over<T> {
    /// Builds a transport stack from its parts.
    pub fn new(l3: L3, transport: T) -> (r: L3Over<T>)
        ensures
            r.l3 == l3,
            r.transport == transport,
    {
        L3Over { l3, transport }
    }
}

impl L3Over<Udp> {
    /// Attaches the payload to the completed UDP stack: the terminal
    /// composition of the UDP path.
    pub fn with_payload(self, rhs: Payload) -> (r: Package<L3Over<Udp>>)
        ensures
            r.header == self,
            r.payload == rhs,
    {
        Package { header: self, payload: rhs }
    }
}

impl PackageHeader<u16> for Ether {
    open spec fn build_header_spec(&self, payload: Seq<u8>, extra: u16) -> Result<
        Seq<u8>,
        PacketError,
    > {
        Ok(ether_frame_bytes(*self, extra, payload))
    }

    fn build_header(&self, payload: &[u8], extra: u16) -> Result<Vec<u8>, PacketError> {
        Ok(self.build_header_inner(payload, Some(extra)))
    }
}

impl PackageHeader<()> for Ether {
    open spec fn build_header_spec(&self, payload: Seq<u8>, extra: ()) -> Result<
        Seq<u8>,
        PacketError,
    > {
        Ok(ether_frame_bytes(*self, 0, payload))
    }

    fn build_header(&self, payload: &[u8], _extra: ()) -> Result<Vec<u8>, PacketError> {
        Ok(self.build_header_inner(payload, None))
    }
}

impl PackageHeader<u16> for L2 {
    open spec fn build_header_spec(&self, payload: Seq<u8>, extra: u16) -> Result<
        Seq<u8>,
        PacketError,
    > {
        Ok(
            ether_frame_bytes(
                self.ether,
                l2_ethertype(*self, extra),
                labels_bytes(labels_of(*self)) + payload,
            ),
        )
    }

    fn build_header(&self, payload: &[u8], extra: u16) -> Result<Vec<u8>, PacketError> {
        let mut inner = self.build_labels();
        push_bytes(&mut inner, payload);
        let et = if self.mpls_labels.len() > 0 {
            ETHERTYPE_MPLS
        } else {
            extra
        };
        Ok(self.ether.build_header_inner(inner.as_slice(), Some(et)))
    }
}

impl PackageHeader<u8> for L3 {
    open spec fn build_header_spec(&self, payload: Seq<u8>, extra: u8) -> Result<
        Seq<u8>,
        PacketError,
    > {
        if !(valid_ipv4_text(self.ip.src@) && valid_ipv4_text(self.ip.dst@)) {
            Err(PacketError::MalformedAddress)
        } else if payload.len() + 20 > 0xffff {
            Err(PacketError::FieldOverflow)
        } else {
            self.l2.build_header_spec(
                ipv4_header_bytes(
                    (payload.len() + 20) as u16,
                    extra,
                    ipv4_value_of(self.ip.src@),
                    ipv4_value_of(self.ip.dst@),
                ) + payload,
                ETHERTYPE_IPV4,
            )
        }
    }

    fn build_header(&self, payload: &[u8], extra: u8) -> Result<Vec<u8>, PacketError> {
        let src = match parse_ipv4(self.ip.src.as_str()) {
            Ok(v) => v,
            Err(e) => {
                return Err(e);
            },
        };
        let dst = match parse_ipv4(self.ip.dst.as_str()) {
            Ok(v) => v,
            Err(e) => {
                return Err(e);
            },
        };
        if payload.len() > 0xffff - 20 {
            return Err(PacketError::FieldOverflow);
        }
        let total = (payload.len() + 20) as u16;
        let mut inner = build_ipv4_header(total, extra, src, dst);
        push_bytes(&mut inner, payload);
        self.l2.build_header(inner.as_slice(), ETHERTYPE_IPV4)
    }
}

impl PackageHeader<()> for L3Over<Udp> {
    open spec fn build_header_spec(&self, payload: Seq<u8>, extra: ()) -> Result<
        Seq<u8>,
        PacketError,
    > {
        if payload.len() + 8 > 0xffff {
            Err(PacketError::FieldOverflow)
        } else {
            self.l3.build_header_spec(
                udp_header_bytes(
                    self.transport.src_port,
                    self.transport.dst_port,
                    (payload.len() + 8) as u16,
                ) + payload,
                PROTO_UDP,
            )
        }
    }

    fn build_header(&self, payload: &[u8], _extra: ()) -> Result<Vec<u8>, PacketError> {
        if payload.len() > 0xffff - 8 {
            return Err(PacketError::FieldOverflow);
        }
        let length = (payload.len() + 8) as u16;
        let mut inner = build_udp_header(self.transport.src_port, self.transport.dst_port, length);
        push_bytes(&mut inner, payload);
        self.l3.build_header(inner.as_slice(), PROTO_UDP)
    }
}

impl PackageHeader<()> for L3Over<Tcp> {
    /// The TCP transport encoder was never completed: attaching a
    /// payload over TCP reports the nesting as unsupported instead of
    /// rendering an incomplete segment.
    open spec fn build_header_spec(&self, payload: Seq<u8>, extra: ()) -> Result<
        Seq<u8>,
        PacketError,
    > {
        Err(PacketError::UnsupportedComposition)
    }

    fn build_header(&self, _payload: &[u8], _extra: ()) -> Result<Vec<u8>, PacketError> {
        Err(PacketError::UnsupportedComposition)
    }
}

impl<H: PackageHeader<()>> Package<H> {
    /// Pairs a completed stack with the payload it carries.
    pub fn new(header: H, payload: Payload) -> (r: Package<H>)
        ensures
            r.header == header,
            r.payload == payload,
    {
        Package { header, payload }
    }

    /// Renders the completed packet to its wire bytes.
    pub fn build_packet(&self) -> (r: Result<Vec<u8>, PacketError>)
        ensures
            match r {
                Ok(v) => self.header.build_header_spec(self.payload.payload@, ())
                    == Ok::<Seq<u8>, PacketError>(v@),
                Err(e) => self.header.build_header_spec(self.payload.payload@, ())
                    == Err::<Seq<u8>, PacketError>(e),
            },
    {
        self.header.build_header(self.payload.payload.as_slice(), ())
    }
}

/// Stacking labels flattens: stacking onto an existing sequence appends,
/// so a chain of two labels yields exactly the sequence of both, however
/// the chain was associated.
pub proof fn lemma_label_stack_flattens(labels: Seq<u32>, a: u32, b: u32)
    ensures
        stacked_labels(stacked_labels(labels, a), b) == labels + seq![a, b],
        stacked_labels(stacked_labels(Seq::<u32>::empty(), a), b) == seq![a, b],
{
    assert(stacked_labels(stacked_labels(labels, a), b) =~= labels + seq![a, b]);
    assert(stacked_labels(stacked_labels(Seq::<u32>::empty(), a), b) =~= seq![a, b]);
}

/// A bare link layer with a declared ethertype renders to its 14 header
/// bytes plus the payload.
pub proof fn lemma_render_len_ether(e: Ether, payload: Seq<u8>, et: u16)
    ensures
        PackageHeader::<u16>::build_header_spec(&e, payload, et) matches Ok(b) && b.len() == 14
            + payload.len(),
{
}

/// A link layer carrying a raw payload renders to its 14 header bytes
/// plus the payload.
pub proof fn lemma_render_len_ether_payload(e: Ether, payload: Seq<u8>)
    ensures
        PackageHeader::<()>::build_header_spec(&e, payload, ()) matches Ok(b) && b.len() == 14
            + payload.len(),
{
}

/// A link-layer stack renders to 14 frame bytes, four bytes per label,
/// then the payload.
pub proof fn lemma_render_len_l2(l2: L2, payload: Seq<u8>, et: u16)
    ensures
        PackageHeader::<u16>::build_header_spec(&l2, payload, et) matches Ok(b) && b.len() == 14 + 4
            * labels_of(l2).len() + payload.len(),
{
    lemma_labels_bytes_len(labels_of(l2));
}

/// A network-layer stack over parseable addresses renders to the frame
/// and label bytes, its own 20 header bytes, then the payload.
pub proof fn lemma_render_len_l3(l3: L3, payload: Seq<u8>, proto: u8)
    requires
        valid_ipv4_text(l3.ip.src@),
        valid_ipv4_text(l3.ip.dst@),
        payload.len() + 20 <= 0xffff,
    ensures
        PackageHeader::<u8>::build_header_spec(&l3, payload, proto) matches Ok(b) && b.len() == 14
            + 4 * labels_of(l3.l2).len() + 20 + payload.len(),
{
    lemma_labels_bytes_len(labels_of(l3.l2));
}

/// A completed UDP stack over parseable addresses renders to the frame,
/// label and network bytes, its own 8 header bytes, then the payload.
pub proof fn lemma_render_len_udp(stack: L3Over<Udp>, payload: Seq<u8>)
    requires
        valid_ipv4_text(stack.l3.ip.src@),
        valid_ipv4_text(stack.l3.ip.dst@),
        payload.len() + 28 <= 0xffff,
    ensures
        PackageHeader::<()>::build_header_spec(&stack, payload, ()) matches Ok(b) && b.len() == 14
            + 4 * labels_of(stack.l3.l2).len() + 20 + 8 + payload.len(),
{
    lemma_render_len_l3(
        stack.l3,
        udp_header_bytes(
            stack.transport.src_port,
            stack.transport.dst_port,
            (payload.len() + 8) as u16,
        ) + payload,
        PROTO_UDP,
    );
}

} // verus!
