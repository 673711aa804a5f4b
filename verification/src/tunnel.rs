//! What a tunnel monitor reports, and why a tunnel may be blocked.

use crate::net::{IpAddress, Ipv4Address, Ipv6Address};
use vstd::prelude::*;

verus! {

/// Why the firewall refused a policy.
#[derive(Clone, Copy, Debug, PartialEq, Eq, Structural)]
pub enum FirewallPolicyError {
    /// No reason is known.
    Generic,
    /// Another application holds a lock on the firewall.
    LockedByAnotherApplication,
}

/// Why the state machine rests in its error state.
#[derive(Clone, Copy, Debug, PartialEq, Eq, Structural)]
pub enum ErrorStateCause {
    /// The server rejected the account.
    AuthFailed,
    /// The tunnel needs IPv6 and the host has none.
    Ipv6Unavailable,
    /// The firewall refused a policy.
    SetFirewallPolicyError(FirewallPolicyError),
    /// The DNS servers could not be set.
    SetDnsError,
    /// The tunnel could not be started.
    StartTunnelError,
    /// No parameters for a tunnel could be had.
    TunnelParameterError,
    /// The host has no connectivity.
    IsOffline,
    /// The host denied the permission to run a tunnel.
    VpnPermissionDenied,
    /// The split-tunnel driver failed.
    SplitTunnelError,
}

/// What a tunnel that is up looks like from the host.
#[derive(Debug, PartialEq, Eq)]
pub struct TunnelMetadata {
    /// The name of the tunnel's interface.
    pub interface: String,
    /// The addresses assigned inside the tunnel.
    pub ips: Vec<IpAddress>,
    /// The gateway inside the tunnel.
    pub ipv4_gateway: Ipv4Address,
    /// The IPv6 gateway inside the tunnel, if there is one.
    pub ipv6_gateway: Option<Ipv6Address>,
}

/// The first IPv4 address among the first `count` of `ips`.
pub open spec fn first_ipv4(ips: Seq<IpAddress>, count: nat) -> Option<Ipv4Address>
    decreases count,
{
    if count == 0 {
        None
    } else {
        match first_ipv4(ips, (count - 1) as nat) {
            Some(address) => Some(address),
            None => match ips[count - 1] {
                IpAddress::V4(address) => Some(address),
                IpAddress::V6(_) => None,
            },
        }
    }
}

/// The first IPv6 address among the first `count` of `ips`.
pub open spec fn first_ipv6(ips: Seq<IpAddress>, count: nat) -> Option<Ipv6Address>
    decreases count,
{
    if count == 0 {
        None
    } else {
        match first_ipv6(ips, (count - 1) as nat) {
            Some(address) => Some(address),
            None => match ips[count - 1] {
                IpAddress::V4(_) => None,
                IpAddress::V6(address) => Some(address),
            },
        }
    }
}

impl TunnelMetadata {
    /// The servers that answer DNS inside the tunnel: the IPv4 gateway, then
    /// the IPv6 gateway where there is one.
    pub open spec fn spec_dns_servers(self) -> Seq<IpAddress> {
        match self.ipv6_gateway {
            Some(gateway) => seq![IpAddress::V4(self.ipv4_gateway), IpAddress::V6(gateway)],
            None => seq![IpAddress::V4(self.ipv4_gateway)],
        }
    }

    /// The servers that answer DNS inside the tunnel: the IPv4 gateway, then
    /// the IPv6 gateway where there is one.
    pub fn dns_servers(&self) -> (servers: Vec<IpAddress>)
        ensures
            servers@ == self.spec_dns_servers(),
    {
        let mut servers: Vec<IpAddress> = Vec::new();
        servers.push(IpAddress::V4(self.ipv4_gateway));
        if let Some(gateway) = self.ipv6_gateway {
            servers.push(IpAddress::V6(gateway));
        }
        servers
    }

    /// The tunnel's own IPv4 address: the first among its addresses, and
    /// `0.0.0.0` where it has none.
    pub open spec fn spec_tunnel_ipv4(self) -> Ipv4Address {
        match first_ipv4(self.ips@, self.ips@.len()) {
            Some(address) => address,
            None => Ipv4Address::unspecified(),
        }
    }

    /// The tunnel's own IPv6 address: the first among its addresses.
    pub open spec fn spec_tunnel_ipv6(self) -> Option<Ipv6Address> {
        first_ipv6(self.ips@, self.ips@.len())
    }

    /// The tunnel's own IPv4 address: the first among its addresses, and
    /// `0.0.0.0` where it has none.
    pub fn tunnel_ipv4(&self) -> (address: Ipv4Address)
        ensures
            address == self.spec_tunnel_ipv4(),
    {
        let mut found: Option<Ipv4Address> = None;
        let mut i: usize = 0;
        while i < self.ips.len()
            invariant
                i <= self.ips.len(),
                found == first_ipv4(self.ips@, i as nat),
            decreases self.ips.len() - i,
        {
            if found.is_none() {
                if let IpAddress::V4(address) = self.ips[i] {
                    found = Some(address);
                }
            }
            i += 1;
        }
        match found {
            Some(address) => address,
            None => Ipv4Address::zero(),
        }
    }

    /// The tunnel's own IPv6 address: the first among its addresses.
    pub fn tunnel_ipv6(&self) -> (address: Option<Ipv6Address>)
        ensures
            address == self.spec_tunnel_ipv6(),
    {
        let mut found: Option<Ipv6Address> = None;
        let mut i: usize = 0;
        while i < self.ips.len()
            invariant
                i <= self.ips.len(),
                found == first_ipv6(self.ips@, i as nat),
            decreases self.ips.len() - i,
        {
            if found.is_none() {
                if let IpAddress::V6(address) = self.ips[i] {
                    found = Some(address);
                }
            }
            i += 1;
        }
        found
    }
}

/// What a tunnel monitor reports while its tunnel runs.
#[derive(Debug, PartialEq, Eq)]
pub enum TunnelEvent {
    /// The server rejected the account, for the reason given.
    AuthFailed(String),
    /// The tunnel's interface exists; the tunnel does not carry traffic yet.
    InterfaceUp(TunnelMetadata),
    /// The tunnel carries traffic.
    Up(TunnelMetadata),
    /// The tunnel stopped carrying traffic.
    Down,
}

/// How a tunnel monitor ended.
#[derive(Clone, Copy, Debug, PartialEq, Eq, Structural)]
pub enum TunnelCloseEvent {
    /// The monitor ended in order: `None` after a clean exit, and the cause
    /// after an error that a new attempt would meet again.
    Exited(Option<ErrorStateCause>),
    /// The monitor stopped without a word.
    MonitorStopped,
}

impl TunnelCloseEvent {
    /// The cause to block for. A monitor that stopped without a word counts
    /// as one that exited cleanly.
    pub open spec fn spec_block_reason(self) -> Option<ErrorStateCause> {
        match self {
            TunnelCloseEvent::Exited(reason) => reason,
            TunnelCloseEvent::MonitorStopped => None,
        }
    }

    /// The cause to block for. A monitor that stopped without a word counts
    /// as one that exited cleanly.
    pub fn block_reason(self) -> (reason: Option<ErrorStateCause>)
        ensures
            reason == self.spec_block_reason(),
    {
        match self {
            TunnelCloseEvent::Exited(reason) => reason,
            TunnelCloseEvent::MonitorStopped => None,
        }
    }
}

} // verus!
