//! The address on which the client listens for its peers.

use libp2p::multiaddr::Protocol;
use libp2p::Multiaddr;
use vstd::prelude::*;

verus! {

/// A component of a multiaddress.
#[derive(Clone, Copy, Debug, PartialEq, Eq)]
pub enum Segment {
    /// An IPv4 address, by its octets.
    Ip4([u8; 4]),
    /// A UDP port.
    Udp(u16),
    /// Version 1 of QUIC.
    QuicV1,
}

/// The type of a multiaddress. What it holds is named by [`segments`].
#[verifier::external_type_specification]
#[verifier::external_body]
pub struct ExMultiaddr(Multiaddr);

/// The components of a multiaddress that is made of the kinds in [`Segment`], in order.
pub uninterp spec fn segments(address: Multiaddr) -> Seq<Segment>;

/// Calls `Multiaddr::empty`. The address has no component.
#[verifier::external_body]
fn empty_address() -> (address: Multiaddr)
    ensures
        segments(address) == Seq::<Segment>::empty(),
{
    Multiaddr::empty()
}

/// Calls `Multiaddr::with`. The component is added at the end.
#[verifier::external_body]
fn with_segment(address: Multiaddr, segment: Segment) -> (longer: Multiaddr)
    ensures
        segments(longer) == segments(address).push(segment),
{
    address.with(match segment {
        Segment::Ip4(octets) => Protocol::Ip4(octets.into()),
        Segment::Udp(port) => Protocol::Udp(port),
        Segment::QuicV1 => Protocol::QuicV1,
    })
}

/// Where the client listens: on every interface, on a UDP port, so that QUIC comes first.
pub open spec fn listen_segments(port: u16) -> Seq<Segment> {
    seq![Segment::Ip4([0u8, 0u8, 0u8, 0u8]), Segment::Udp(port), Segment::QuicV1]
}

/// The address on which the client listens.
pub fn listen_address(port: u16) -> (address: Multiaddr)
    ensures
        segments(address) == listen_segments(port),
{
    let address = empty_address();
    let address = with_segment(address, Segment::Ip4([0u8, 0u8, 0u8, 0u8]));
    let address = with_segment(address, Segment::Udp(port));
    let address = with_segment(address, Segment::QuicV1);
    assert(segments(address) =~= listen_segments(port));
    address
}

/// The address names every interface, then the port, then QUIC, and nothing more. It is the same
/// for every port but for the port.
pub proof fn the_address_has_the_port(port: u16, address: Multiaddr)
    requires
        call_ensures(listen_address, (port,), address),
    ensures
        segments(address).len() == 3,
        segments(address)[0] == Segment::Ip4([0u8, 0u8, 0u8, 0u8]),
        segments(address)[1] == Segment::Udp(port),
        segments(address)[2] == Segment::QuicV1,
{
}

} // verus!
