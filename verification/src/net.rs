//! Addresses, endpoints and the parameters of a tunnel.

use vstd::prelude::*;

verus! {

/// An IPv4 address, held as the number its four octets spell in network
/// order.
#[derive(Clone, Copy, Debug, PartialEq, Eq, Hash, Structural)]
pub struct Ipv4Address {
    pub bits: u32,
}

impl Ipv4Address {
    /// The address `0.0.0.0`.
    pub open spec fn unspecified() -> Ipv4Address {
        Ipv4Address { bits: 0 }
    }

    /// The number that the octets `a.b.c.d` spell.
    pub open spec fn spec_bits(a: u8, b: u8, c: u8, d: u8) -> u32 {
        (a * 0x100_0000 + b * 0x1_0000 + c * 0x100 + d) as u32
    }

    /// The address `a.b.c.d`.
    pub fn new(a: u8, b: u8, c: u8, d: u8) -> (address: Ipv4Address)
        ensures
            address.bits == Self::spec_bits(a, b, c, d),
    {
        Ipv4Address {
            bits: (a as u32) * 0x100_0000 + (b as u32) * 0x1_0000 + (c as u32) * 0x100 + (d as u32),
        }
    }

    /// The address `0.0.0.0`, which stands for "no address".
    pub fn zero() -> (address: Ipv4Address)
        ensures
            address == Self::unspecified(),
    {
        Ipv4Address { bits: 0 }
    }
}

/// An IPv6 address, held as the number its sixteen octets spell in network
/// order.
#[derive(Clone, Copy, Debug, PartialEq, Eq, Hash, Structural)]
pub struct Ipv6Address {
    pub bits: u128,
}

/// An address of either family.
#[derive(Clone, Copy, Debug, PartialEq, Eq, Hash, Structural)]
pub enum IpAddress {
    V4(Ipv4Address),
    V6(Ipv6Address),
}

/// The transport that carries a tunnel.
#[derive(Clone, Copy, Debug, PartialEq, Eq, Hash, Structural)]
pub enum TransportProtocol {
    Udp,
    Tcp,
}

/// A remote socket address and the transport to reach it with.
#[derive(Clone, Copy, Debug, PartialEq, Eq, Hash, Structural)]
pub struct Endpoint {
    pub address: IpAddress,
    pub port: u16,
    pub protocol: TransportProtocol,
}

/// What a tunnel is started with. The state machine reads nothing of it but
/// the three endpoints.
#[derive(Clone, Copy, Debug, PartialEq, Eq, Structural)]
pub struct TunnelParameters {
    /// The server the tunnel ends at.
    pub tunnel_endpoint: Endpoint,
    /// The first host that traffic to the server is sent to.
    pub next_hop_endpoint: Endpoint,
    /// The proxy the tunnel runs through, if it runs through one.
    pub proxy_endpoint: Option<Endpoint>,
}

impl TunnelParameters {
    /// The server the tunnel ends at.
    pub fn get_tunnel_endpoint(&self) -> (endpoint: Endpoint)
        ensures
            endpoint == self.tunnel_endpoint,
    {
        self.tunnel_endpoint
    }

    /// The first host that traffic to the server is sent to: the peer that
    /// the firewall has to let through.
    pub fn get_next_hop_endpoint(&self) -> (endpoint: Endpoint)
        ensures
            endpoint == self.next_hop_endpoint,
    {
        self.next_hop_endpoint
    }

    /// The proxy the tunnel runs through, if it runs through one.
    pub fn get_proxy_endpoint(&self) -> (endpoint: Option<Endpoint>)
        ensures
            endpoint == self.proxy_endpoint,
    {
        self.proxy_endpoint
    }
}

} // verus!
