//! A typed packet-layering and header-serialization library.
//!
//! Network packets are composed out of nested protocol headers: an Ethernet
//! link layer, an optional MPLS label stack, an IPv4 network layer, a UDP or
//! TCP transport layer, and an opaque payload.  Each legal nesting is a
//! distinct composition step producing a distinct stack type, and every stack
//! renders itself to wire bytes inside-out, deriving length fields, ethertype
//! and protocol discriminators, and the IPv4 header checksum from the composed
//! structure.

use vstd::prelude::*;

pub mod addr;
pub mod checksum;
pub mod layers;
pub mod wire;

verus! {

/// The errors the library reports.  All failures surface as values of this
/// type; no operation panics or terminates the process.
#[derive(Clone, Copy, Debug, PartialEq, Eq, Structural)]
pub enum PacketError {
    /// A textual address does not parse to the required octet count.
    MalformedAddress,
    /// The requested layer nesting is outside the composition table.
    UnsupportedComposition,
    /// A derived length does not fit its wire-format field width.
    FieldOverflow,
    /// The interface collaborator found no usable interface.
    NoInterfaceAvailable,
    /// The interface collaborator failed to send or receive.
    ChannelError,
}

} // verus!
