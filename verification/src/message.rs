//! The values that travel through the pipeline.
use vstd::prelude::*;

verus! {

/// A node's network address: an IPv4 or an IPv6 socket address, kept as
/// the numbers it is made of.
#[derive(Clone, Copy, Debug, PartialEq, Eq)]
pub enum NetAddress {
    V4 { octets: [u8; 4], port: u16 },
    V6 { segments: [u16; 8], port: u16, flowinfo: u32, scope_id: u32 },
}

/// The pair that names an endpoint in the mix network: the recipient's
/// address and the identifier under which replies are filed.
#[derive(Clone, Copy, Debug, PartialEq, Eq)]
pub struct Destination {
    pub address: [u8; 32],
    pub identifier: [u8; 16],
}

impl Destination {
    pub fn new(address: [u8; 32], identifier: [u8; 16]) -> (destination: Self)
        ensures
            destination.address == address,
            destination.identifier == identifier,
    {
        Destination { address, identifier }
    }

    /// The name under which a client addresses packets to itself: its
    /// address, with the identifier that is all zeros.
    pub fn of_client(address: [u8; 32]) -> (destination: Self)
        ensures
            destination.address == address,
            destination.identifier@ == Seq::new(16, |i: int| 0u8),
    {
        let destination = Destination { address, identifier: [0u8; 16] };
        assert(destination.identifier@ =~= Seq::new(16, |i: int| 0u8));
        destination
    }
}

/// A message that the application wants delivered: where to, and what.
#[derive(Debug, PartialEq, Eq)]
pub struct InputMessage(pub Destination, pub Vec<u8>);

/// A packet ready for the wire: the first hop's address and the packet's
/// bytes, which nothing in the pipeline looks into.
#[derive(Debug, PartialEq, Eq)]
pub struct MixMessage(pub NetAddress, pub Vec<u8>);

/// The credential under which the provider hands out this client's mail.
#[derive(Debug, PartialEq, Eq)]
pub struct AuthToken {
    pub bytes: Vec<u8>,
}

/// What the packet builder is asked to wrap next.
#[derive(Debug, PartialEq, Eq)]
pub enum PacketRequest {
    /// A real message on its way to `destination`.
    Forward { destination: Destination, payload: Vec<u8> },
    /// A cover packet whose route leads back to the client itself.
    LoopCover { origin: Destination },
}

impl PacketRequest {
    /// Whether the packet asked for carries no message.
    pub open spec fn is_cover(self) -> bool {
        self is LoopCover
    }
}

} // verus!
