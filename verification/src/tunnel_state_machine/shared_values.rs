//! What all states share: the user's preferences, what the machine last
//! asked of the firewall and the DNS monitor, and the actions of the step
//! in progress.

use crate::firewall::FirewallPolicy;
use crate::net::{IpAddress, Ipv4Address, Ipv6Address, TunnelParameters};
use crate::split_tunnel::config::paths_view;
use vstd::prelude::*;

verus! {

/// One thing for the caller to carry out.
#[derive(Debug, PartialEq, Eq)]
pub enum Action {
    /// Apply the policy, and answer with `Event::FirewallPolicyApplied`.
    ApplyFirewallPolicy(FirewallPolicy),
    /// Remove whatever policy is in force.
    ResetFirewall,
    /// Make `servers` answer DNS for the interface, and answer with
    /// `Event::DnsSet`.
    SetDns { interface: String, servers: Vec<IpAddress> },
    /// Restore the host's own DNS servers.
    ResetDns,
    /// Remove the routes of the tunnel.
    ClearRoutes,
    /// From now on, register the addresses anew whenever the default route
    /// changes.
    AddDefaultRouteCallback,
    /// Stop reacting to changes of the default route.
    ClearDefaultRouteCallbacks,
    /// Register the tunnel's addresses, and those of the default route,
    /// with the split-tunnel driver.
    RegisterIps { tunnel_ipv4: Ipv4Address, tunnel_ipv6: Option<Ipv6Address> },
    /// Register no addresses with the split-tunnel driver.
    UnregisterIps,
    /// Hand the split-tunnel driver the applications to exclude, and give
    /// the result to whoever sent the command.
    SetExcludedApps(Vec<Vec<u16>>),
    /// Ask for the parameters of the next tunnel, and answer with
    /// `Event::TunnelParameters`.
    GenerateTunnelParameters { retry_attempt: u32 },
    /// Start a tunnel after `delay_ms` milliseconds, with its resources
    /// taken from `resource_dir`, and send `Event::ConnectTimeout` where it
    /// is not up `timeout_ms` milliseconds later. A tunnel that cannot be
    /// started counts as one that closed.
    StartTunnel {
        parameters: TunnelParameters,
        resource_dir: String,
        delay_ms: u64,
        timeout_ms: u64,
    },
    /// Tell the tunnel to close, or give up starting it, and send
    /// `Event::TunnelClosed` once it has closed: at once, where it had closed
    /// before.
    CloseTunnel,
}

/// An action, with its lists as sequences.
pub enum ActionView {
    ApplyFirewallPolicy(FirewallPolicy),
    ResetFirewall,
    SetDns { interface: String, servers: Seq<IpAddress> },
    ResetDns,
    ClearRoutes,
    AddDefaultRouteCallback,
    ClearDefaultRouteCallbacks,
    RegisterIps { tunnel_ipv4: Ipv4Address, tunnel_ipv6: Option<Ipv6Address> },
    UnregisterIps,
    SetExcludedApps(Seq<Seq<u16>>),
    GenerateTunnelParameters { retry_attempt: u32 },
    StartTunnel {
        parameters: TunnelParameters,
        resource_dir: String,
        delay_ms: u64,
        timeout_ms: u64,
    },
    CloseTunnel,
}

impl View for Action {
    type V = ActionView;

    open spec fn view(&self) -> ActionView {
        match *self {
            Action::ApplyFirewallPolicy(policy) => ActionView::ApplyFirewallPolicy(policy),
            Action::ResetFirewall => ActionView::ResetFirewall,
            Action::SetDns { interface, servers } => ActionView::SetDns {
                interface,
                servers: servers@,
            },
            Action::ResetDns => ActionView::ResetDns,
            Action::ClearRoutes => ActionView::ClearRoutes,
            Action::AddDefaultRouteCallback => ActionView::AddDefaultRouteCallback,
            Action::ClearDefaultRouteCallbacks => ActionView::ClearDefaultRouteCallbacks,
            Action::RegisterIps { tunnel_ipv4, tunnel_ipv6 } => ActionView::RegisterIps {
                tunnel_ipv4,
                tunnel_ipv6,
            },
            Action::UnregisterIps => ActionView::UnregisterIps,
            Action::SetExcludedApps(paths) => ActionView::SetExcludedApps(paths_view(paths@)),
            Action::GenerateTunnelParameters { retry_attempt } => {
                ActionView::GenerateTunnelParameters { retry_attempt }
            },
            Action::StartTunnel { parameters, resource_dir, delay_ms, timeout_ms } => {
                ActionView::StartTunnel { parameters, resource_dir, delay_ms, timeout_ms }
            },
            Action::CloseTunnel => ActionView::CloseTunnel,
        }
    }
}

impl ActionView {
    /// Whether the action asks a question: the caller owes the machine an
    /// answer to it before any other event.
    pub open spec fn asks(self) -> bool {
        self is ApplyFirewallPolicy || self is SetDns || self is GenerateTunnelParameters
    }
}

impl Action {
    /// Whether the action asks a question: the caller owes the machine an
    /// answer to it before any other event.
    pub fn asks(&self) -> (asks: bool)
        ensures
            asks == self@.asks(),
    {
        match self {
            Action::ApplyFirewallPolicy(_) => true,
            Action::SetDns { .. } => true,
            Action::GenerateTunnelParameters { .. } => true,
            _ => false,
        }
    }
}

/// The actions as their views.
pub open spec fn actions_view(actions: Seq<Action>) -> Seq<ActionView> {
    actions.map_values(|action: Action| action@)
}

/// What the machine last asked of the firewall.
#[derive(Debug, PartialEq, Eq)]
pub struct Firewall {
    /// The policy last handed to the firewall; `None` where the machine
    /// last had it remove its policy, or has asked nothing yet.
    pub policy: Option<FirewallPolicy>,
}

/// What the machine knows of the DNS monitor.
#[derive(Debug, PartialEq, Eq)]
pub struct DnsMonitor {
    /// Whether the tunnel's servers are in force: they were set, and the
    /// machine has not had them removed since.
    pub active: bool,
}

/// What the machine knows of the tunnel monitor.
#[derive(Debug, PartialEq, Eq)]
pub struct TunnelMonitor {
    /// Whether the machine has a tunnel: it had one started, and has not
    /// seen it close after telling it to.
    pub active: bool,
}

/// What the machine knows of the route manager.
#[derive(Debug, PartialEq, Eq)]
pub struct RouteManager {
    /// Whether changes of the default route are reacted to.
    pub default_route_callback: bool,
}

/// What the machine knows of the split-tunnel driver.
#[derive(Debug, PartialEq, Eq)]
pub struct SplitTunnelHandle {
    /// Whether the addresses of a tunnel are registered with the split-tunnel
    /// driver.
    pub ips_registered: bool,
}

/// What all states share.
#[derive(Debug, PartialEq, Eq)]
pub struct SharedTunnelStateValues {
    pub firewall: Firewall,
    pub dns_monitor: DnsMonitor,
    pub route_manager: RouteManager,
    pub split_tunnel: SplitTunnelHandle,
    pub tunnel_monitor: TunnelMonitor,
    /// Whether traffic to the local network passes.
    pub allow_lan: bool,
    /// Whether the machine blocks while no tunnel is up.
    pub block_when_disconnected: bool,
    /// Whether the host is without connectivity.
    pub is_offline: bool,
    /// Where the tunnel's resources lie.
    pub resource_dir: String,
    /// The actions of the step in progress, in the order to carry them out.
    pub requests: Vec<Action>,
}

/// The shared values, with what is known of the collaborators side by side
/// and the actions as a sequence of views.
pub struct SharedView {
    pub firewall: Option<FirewallPolicy>,
    pub dns_active: bool,
    pub default_route_callback: bool,
    pub ips_registered: bool,
    pub tunnel_active: bool,
    pub allow_lan: bool,
    pub block_when_disconnected: bool,
    pub is_offline: bool,
    pub resource_dir: String,
    pub requests: Seq<ActionView>,
}

impl SharedView {
    /// With one more action for the caller.
    pub open spec fn request(self, action: ActionView) -> SharedView {
        SharedView { requests: self.requests.push(action), ..self }
    }

    /// With the policy handed to the firewall.
    pub open spec fn apply_firewall_policy(self, policy: FirewallPolicy) -> SharedView {
        SharedView {
            firewall: Some(policy),
            requests: self.requests.push(ActionView::ApplyFirewallPolicy(policy)),
            ..self
        }
    }

    /// With the firewall told to remove its policy.
    pub open spec fn reset_firewall(self) -> SharedView {
        SharedView {
            firewall: None,
            requests: self.requests.push(ActionView::ResetFirewall),
            ..self
        }
    }

    /// With the host's own DNS servers restored.
    pub open spec fn reset_dns(self) -> SharedView {
        SharedView {
            dns_active: false,
            requests: self.requests.push(ActionView::ResetDns),
            ..self
        }
    }

    /// With the reactions to the default route and the tunnel's routes
    /// removed.
    pub open spec fn reset_routes(self) -> SharedView {
        SharedView {
            default_route_callback: false,
            requests: self.requests.push(ActionView::ClearDefaultRouteCallbacks).push(
                ActionView::ClearRoutes,
            ),
            ..self
        }
    }

    /// With the tunnel's addresses registered with the split-tunnel driver,
    /// to be registered anew whenever the default route changes.
    pub open spec fn register_ips(
        self,
        tunnel_ipv4: Ipv4Address,
        tunnel_ipv6: Option<Ipv6Address>,
    ) -> SharedView {
        SharedView {
            default_route_callback: true,
            ips_registered: true,
            requests: self.requests.push(ActionView::RegisterIps { tunnel_ipv4, tunnel_ipv6 }).push(
                ActionView::AddDefaultRouteCallback,
            ),
            ..self
        }
    }

    /// With no addresses registered with the split-tunnel driver.
    pub open spec fn unregister_ips(self) -> SharedView {
        SharedView {
            ips_registered: false,
            requests: self.requests.push(ActionView::UnregisterIps),
            ..self
        }
    }

    /// With a tunnel started from the resources in the resource directory.
    pub open spec fn start_tunnel(
        self,
        parameters: TunnelParameters,
        delay_ms: u64,
        timeout_ms: u64,
    ) -> SharedView {
        SharedView {
            tunnel_active: true,
            requests: self.requests.push(
                ActionView::StartTunnel {
                    parameters,
                    resource_dir: self.resource_dir,
                    delay_ms,
                    timeout_ms,
                },
            ),
            ..self
        }
    }
}

impl View for SharedTunnelStateValues {
    type V = SharedView;

    open spec fn view(&self) -> SharedView {
        SharedView {
            firewall: self.firewall.policy,
            dns_active: self.dns_monitor.active,
            default_route_callback: self.route_manager.default_route_callback,
            ips_registered: self.split_tunnel.ips_registered,
            tunnel_active: self.tunnel_monitor.active,
            allow_lan: self.allow_lan,
            block_when_disconnected: self.block_when_disconnected,
            is_offline: self.is_offline,
            resource_dir: self.resource_dir,
            requests: actions_view(self.requests@),
        }
    }
}

impl SharedTunnelStateValues {
    /// The shared values of a machine that has asked nothing yet.
    pub fn new(
        allow_lan: bool,
        block_when_disconnected: bool,
        is_offline: bool,
        resource_dir: String,
    ) -> (shared_values: SharedTunnelStateValues)
        ensures
            shared_values@ == (SharedView {
                firewall: None,
                dns_active: false,
                default_route_callback: false,
                ips_registered: false,
                tunnel_active: false,
                allow_lan,
                block_when_disconnected,
                is_offline,
                resource_dir,
                requests: Seq::empty(),
            }),
    {
        let shared_values = SharedTunnelStateValues {
            firewall: Firewall { policy: None },
            dns_monitor: DnsMonitor { active: false },
            route_manager: RouteManager { default_route_callback: false },
            split_tunnel: SplitTunnelHandle { ips_registered: false },
            tunnel_monitor: TunnelMonitor { active: false },
            allow_lan,
            block_when_disconnected,
            is_offline,
            resource_dir,
            requests: Vec::new(),
        };
        assert(shared_values@.requests =~= Seq::empty());
        shared_values
    }

    /// Adds an action for the caller.
    pub(crate) fn request(&mut self, action: Action)
        ensures
            final(self)@ == old(self)@.request(action@),
    {
        self.requests.push(action);
        assert(final(self)@.requests =~= old(self)@.requests.push(action@));
    }

    /// Hands the policy to the firewall.
    pub fn apply_firewall_policy(&mut self, policy: FirewallPolicy)
        ensures
            final(self)@ == old(self)@.apply_firewall_policy(policy),
    {
        self.firewall.policy = Some(policy.duplicate());
        self.requests.push(Action::ApplyFirewallPolicy(policy));
        assert(final(self)@.requests =~= old(self)@.requests.push(
            ActionView::ApplyFirewallPolicy(policy),
        ));
    }

    /// Tells the firewall to remove its policy.
    pub fn reset_firewall(&mut self)
        ensures
            final(self)@ == old(self)@.reset_firewall(),
    {
        self.firewall.policy = None;
        self.requests.push(Action::ResetFirewall);
        assert(final(self)@.requests =~= old(self)@.requests.push(ActionView::ResetFirewall));
    }

    /// Restores the host's own DNS servers.
    pub fn reset_dns(&mut self)
        ensures
            final(self)@ == old(self)@.reset_dns(),
    {
        self.dns_monitor.active = false;
        self.requests.push(Action::ResetDns);
        assert(final(self)@.requests =~= old(self)@.requests.push(ActionView::ResetDns));
    }

    /// Removes the reactions to the default route and the tunnel's routes.
    pub fn reset_routes(&mut self)
        ensures
            final(self)@ == old(self)@.reset_routes(),
    {
        self.route_manager.default_route_callback = false;
        self.requests.push(Action::ClearDefaultRouteCallbacks);
        self.requests.push(Action::ClearRoutes);
        assert(final(self)@.requests =~= old(self)@.requests.push(
            ActionView::ClearDefaultRouteCallbacks,
        ).push(ActionView::ClearRoutes));
    }

    /// Registers the tunnel's addresses with the split-tunnel driver, to be
    /// registered anew whenever the default route changes.
    pub fn register_ips(&mut self, tunnel_ipv4: Ipv4Address, tunnel_ipv6: Option<Ipv6Address>)
        ensures
            final(self)@ == old(self)@.register_ips(tunnel_ipv4, tunnel_ipv6),
    {
        self.route_manager.default_route_callback = true;
        self.split_tunnel.ips_registered = true;
        self.requests.push(Action::RegisterIps { tunnel_ipv4, tunnel_ipv6 });
        self.requests.push(Action::AddDefaultRouteCallback);
        assert(final(self)@.requests =~= old(self)@.requests.push(
            ActionView::RegisterIps { tunnel_ipv4, tunnel_ipv6 },
        ).push(ActionView::AddDefaultRouteCallback));
    }

    /// Registers no addresses with the split-tunnel driver.
    pub fn unregister_ips(&mut self)
        ensures
            final(self)@ == old(self)@.unregister_ips(),
    {
        self.split_tunnel.ips_registered = false;
        self.requests.push(Action::UnregisterIps);
        assert(final(self)@.requests =~= old(self)@.requests.push(ActionView::UnregisterIps));
    }

    /// Has a tunnel started.
    pub fn start_tunnel(&mut self, parameters: TunnelParameters, delay_ms: u64, timeout_ms: u64)
        ensures
            final(self)@ == old(self)@.start_tunnel(parameters, delay_ms, timeout_ms),
    {
        self.tunnel_monitor.active = true;
        let resource_dir = self.resource_dir.clone();
        self.requests.push(Action::StartTunnel { parameters, resource_dir, delay_ms, timeout_ms });
        assert(final(self)@.requests =~= old(self)@.requests.push(
            ActionView::StartTunnel {
                parameters,
                resource_dir: old(self).resource_dir,
                delay_ms,
                timeout_ms,
            },
        ));
    }

    /// Takes the actions of the step that has ended, and leaves none.
    pub fn take_requests(&mut self) -> (actions: Vec<Action>)
        ensures
            actions_view(actions@) == old(self)@.requests,
            final(self)@ == (SharedView { requests: Seq::empty(), ..old(self)@ }),
    {
        let mut actions: Vec<Action> = Vec::new();
        core::mem::swap(&mut actions, &mut self.requests);
        assert(final(self)@.requests =~= Seq::empty());
        actions
    }
}

} // verus!
