//! The policies the firewall is asked to apply.

use crate::net::Endpoint;
use crate::tunnel::FirewallPolicyError;
use vstd::prelude::*;

verus! {

/// What traffic the firewall lets through.
#[derive(Debug, PartialEq, Eq)]
pub enum FirewallPolicy {
    /// A tunnel is being set up: only traffic to its peer passes.
    Connecting { peer_endpoint: Endpoint },
    /// A tunnel is up: traffic to its peer and through its interface
    /// passes, and traffic to the local network where `allow_lan` is set.
    Connected { peer_endpoint: Endpoint, tunnel_interface: String, allow_lan: bool },
    /// No tunnel: nothing passes but traffic to the local network where
    /// `allow_lan` is set.
    Blocked { allow_lan: bool },
}

impl FirewallPolicy {
    /// A second copy of this policy.
    pub fn duplicate(&self) -> (copy: FirewallPolicy)
        ensures
            copy == *self,
    {
        match self {
            FirewallPolicy::Connecting { peer_endpoint } => FirewallPolicy::Connecting {
                peer_endpoint: *peer_endpoint,
            },
            FirewallPolicy::Connected { peer_endpoint, tunnel_interface, allow_lan } => {
                FirewallPolicy::Connected {
                    peer_endpoint: *peer_endpoint,
                    tunnel_interface: tunnel_interface.clone(),
                    allow_lan: *allow_lan,
                }
            },
            FirewallPolicy::Blocked { allow_lan } => FirewallPolicy::Blocked {
                allow_lan: *allow_lan,
            },
        }
    }
}

/// Why the firewall failed.
#[derive(Clone, Copy, Debug, PartialEq, Eq, Structural)]
pub enum FirewallError {
    /// The policy for a tunnel that is being set up was refused.
    ApplyingConnectingPolicy,
    /// The policy for a tunnel that is up was refused, for the reason given.
    ApplyingConnectedPolicy(FirewallPolicyError),
    /// The blocking policy was refused.
    ApplyingBlockedPolicy,
    /// The policy in force could not be removed.
    ResettingPolicy,
}

impl FirewallError {
    /// The reason to report for a refused policy: the one the firewall gave
    /// for the policy of a tunnel that is up, and `Generic` otherwise.
    pub open spec fn spec_policy_error(self) -> FirewallPolicyError {
        match self {
            FirewallError::ApplyingConnectedPolicy(policy_error) => policy_error,
            _ => FirewallPolicyError::Generic,
        }
    }

    /// The reason to report for a refused policy: the one the firewall gave
    /// for the policy of a tunnel that is up, and `Generic` otherwise.
    pub fn policy_error(self) -> (reason: FirewallPolicyError)
        ensures
            reason == self.spec_policy_error(),
    {
        match self {
            FirewallError::ApplyingConnectedPolicy(policy_error) => policy_error,
            _ => FirewallPolicyError::Generic,
        }
    }
}

} // verus!
