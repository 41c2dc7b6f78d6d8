//! Plain IPv4 addresses and the fixed mDNS constants.

use vstd::prelude::*;

verus! {

/// The UDP port of the mDNS multicast group.
pub const MDNS_PORT: u16 = 5353;

/// The size of a listener's receive buffer, large enough for any compliant
/// mDNS response carried in one UDP datagram.
pub const RECEIVE_BUFFER_LEN: usize = 4096;

/// An IPv4 address, held as its four octets.
#[derive(Clone, Copy, Debug, PartialEq, Eq, Structural)]
pub struct Ipv4Address {
    pub octet0: u8,
    pub octet1: u8,
    pub octet2: u8,
    pub octet3: u8,
}

/// An IPv4 socket address: an address and a UDP port.
#[derive(Clone, Copy, Debug, PartialEq, Eq, Structural)]
pub struct SocketAddressV4 {
    pub ip: Ipv4Address,
    pub port: u16,
}

impl Ipv4Address {
    /// Builds an address from four octets in network order.
    pub fn from_octets(o: [u8; 4]) -> (r: Ipv4Address)
        ensures
            r == (Ipv4Address { octet0: o[0], octet1: o[1], octet2: o[2], octet3: o[3] }),
    {
        Ipv4Address { octet0: o[0], octet1: o[1], octet2: o[2], octet3: o[3] }
    }
}

/// The mDNS multicast group address, 224.0.0.251.
pub open spec fn spec_mdns_group() -> Ipv4Address {
    Ipv4Address { octet0: 224, octet1: 0, octet2: 0, octet3: 251 }
}

/// The IPv4 loopback address, 127.0.0.1.
pub open spec fn spec_loopback_address() -> Ipv4Address {
    Ipv4Address { octet0: 127, octet1: 0, octet2: 0, octet3: 1 }
}

/// The IPv4 wildcard address, 0.0.0.0.
pub open spec fn spec_unspecified_address() -> Ipv4Address {
    Ipv4Address { octet0: 0, octet1: 0, octet2: 0, octet3: 0 }
}

/// Returns the mDNS multicast group address, 224.0.0.251.
pub fn mdns_group() -> (r: Ipv4Address)
    ensures
        r == spec_mdns_group(),
{
    Ipv4Address { octet0: 224, octet1: 0, octet2: 0, octet3: 251 }
}

/// Returns the full destination of an mDNS query: 224.0.0.251:5353.
pub fn mdns_group_address() -> (r: SocketAddressV4)
    ensures
        r == (SocketAddressV4 { ip: spec_mdns_group(), port: MDNS_PORT }),
{
    SocketAddressV4 { ip: mdns_group(), port: MDNS_PORT }
}

/// Returns the IPv4 loopback address, 127.0.0.1.
pub fn loopback_address() -> (r: Ipv4Address)
    ensures
        r == spec_loopback_address(),
{
    Ipv4Address { octet0: 127, octet1: 0, octet2: 0, octet3: 1 }
}

/// Returns the IPv4 wildcard address, 0.0.0.0.
pub fn unspecified_address() -> (r: Ipv4Address)
    ensures
        r == spec_unspecified_address(),
{
    Ipv4Address { octet0: 0, octet1: 0, octet2: 0, octet3: 0 }
}

} // verus!
