use vstd::prelude::*;

verus! {

/// The IP part of a socket address, as its bytes in network order.
#[derive(Debug, Clone, Copy, PartialEq, Eq)]
pub enum IpAddress {
    V4([u8; 4]),
    V6([u8; 16]),
}

/// A UDP endpoint: an IP address and a port. The relay carries these through
/// without looking inside: a listener's bind address and a client's origin.
#[derive(Debug, Clone, Copy, PartialEq, Eq)]
pub struct SocketAddress {
    pub ip: IpAddress,
    pub port: u16,
}

impl SocketAddress {
    /// An IPv4 endpoint.
    pub fn v4(octets: [u8; 4], port: u16) -> (r: SocketAddress)
        ensures
            r == (SocketAddress { ip: IpAddress::V4(octets), port }),
    {
        SocketAddress { ip: IpAddress::V4(octets), port }
    }

    /// An IPv6 endpoint.
    pub fn v6(octets: [u8; 16], port: u16) -> (r: SocketAddress)
        ensures
            r == (SocketAddress { ip: IpAddress::V6(octets), port }),
    {
        SocketAddress { ip: IpAddress::V6(octets), port }
    }
}

} // verus!
