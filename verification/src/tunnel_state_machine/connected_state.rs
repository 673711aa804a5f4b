//! A tunnel that is up.

use super::disconnecting_state::DisconnectingState;
use super::shared_values::{Action, ActionView, SharedTunnelStateValues, SharedView};
use super::{
    AfterDisconnect, Event, EventConsequence, TunnelCommand, TunnelStateTransition,
    TunnelStateWrapper,
};
use crate::firewall::{FirewallError, FirewallPolicy};
use crate::net::TunnelParameters;
use crate::split_tunnel::config::paths_view;
use crate::tunnel::{ErrorStateCause, TunnelEvent, TunnelMetadata};
use vstd::prelude::*;

verus! {

/// What `Connecting` hands over when its tunnel is up.
#[derive(Debug, PartialEq, Eq)]
pub struct ConnectedStateBootstrap {
    pub metadata: TunnelMetadata,
    pub tunnel_parameters: TunnelParameters,
}

/// How far the state has come.
#[derive(Clone, Copy, Debug, PartialEq, Eq, Structural)]
pub enum ConnectedPhase {
    /// Entering: the firewall has been handed the policy.
    ApplyingPolicy,
    /// Entering: the DNS servers have been handed over.
    SettingDns,
    /// The state has been entered, and nothing is owed.
    Running,
    /// The firewall has been handed the policy anew, for a changed
    /// preference.
    UpdatingPolicy,
}

/// The tunnel is up and working.
#[derive(Debug, PartialEq, Eq)]
pub struct ConnectedState {
    pub metadata: TunnelMetadata,
    pub tunnel_parameters: TunnelParameters,
    pub phase: ConnectedPhase,
}

impl ConnectedState {
    /// The state that begins with what `Connecting` handed over.
    pub open spec fn spec_from(bootstrap: ConnectedStateBootstrap) -> ConnectedState {
        ConnectedState {
            metadata: bootstrap.metadata,
            tunnel_parameters: bootstrap.tunnel_parameters,
            phase: ConnectedPhase::ApplyingPolicy,
        }
    }

    fn from(bootstrap: ConnectedStateBootstrap) -> (state: ConnectedState)
        ensures
            state == Self::spec_from(bootstrap),
    {
        ConnectedState {
            metadata: bootstrap.metadata,
            tunnel_parameters: bootstrap.tunnel_parameters,
            phase: ConnectedPhase::ApplyingPolicy,
        }
    }

    /// The state with its phase changed.
    pub open spec fn in_phase(self, phase: ConnectedPhase) -> TunnelStateWrapper {
        TunnelStateWrapper::Connected(
            ConnectedState {
                metadata: self.metadata,
                tunnel_parameters: self.tunnel_parameters,
                phase,
            },
        )
    }

    fn into_phase(self, phase: ConnectedPhase) -> (state: TunnelStateWrapper)
        ensures
            state == self.in_phase(phase),
    {
        TunnelStateWrapper::Connected(
            ConnectedState {
                metadata: self.metadata,
                tunnel_parameters: self.tunnel_parameters,
                phase,
            },
        )
    }

    /// The policy while the tunnel is up: its peer and its interface pass,
    /// and the local network where the user allows it.
    pub open spec fn spec_get_firewall_policy(self, shared: SharedView) -> FirewallPolicy {
        FirewallPolicy::Connected {
            peer_endpoint: self.tunnel_parameters.next_hop_endpoint,
            tunnel_interface: self.metadata.interface,
            allow_lan: shared.allow_lan,
        }
    }

    fn get_firewall_policy(
        &self,
        shared_values: &SharedTunnelStateValues,
    ) -> (policy: FirewallPolicy)
        ensures
            policy == self.spec_get_firewall_policy(shared_values@),
    {
        FirewallPolicy::Connected {
            peer_endpoint: self.tunnel_parameters.get_next_hop_endpoint(),
            tunnel_interface: self.metadata.interface.clone(),
            allow_lan: shared_values.allow_lan,
        }
    }

    /// With the policy of this state handed to the firewall.
    pub open spec fn spec_set_firewall_policy(self, shared: SharedView) -> SharedView {
        shared.apply_firewall_policy(self.spec_get_firewall_policy(shared))
    }

    fn set_firewall_policy(&self, shared_values: &mut SharedTunnelStateValues)
        ensures
            final(shared_values)@ == self.spec_set_firewall_policy(old(shared_values)@),
    {
        let policy = self.get_firewall_policy(shared_values);
        shared_values.apply_firewall_policy(policy);
    }

    /// The cause to block for when the firewall refused the policy.
    pub open spec fn spec_firewall_block_reason(error: FirewallError) -> ErrorStateCause {
        ErrorStateCause::SetFirewallPolicyError(error.spec_policy_error())
    }

    /// With the tunnel's DNS servers handed to the DNS monitor: the
    /// gateways, for the tunnel's interface.
    pub open spec fn spec_set_dns(self, shared: SharedView) -> SharedView {
        shared.request(
            ActionView::SetDns {
                interface: self.metadata.interface,
                servers: self.metadata.spec_dns_servers(),
            },
        )
    }

    fn set_dns(&self, shared_values: &mut SharedTunnelStateValues)
        ensures
            final(shared_values)@ == self.spec_set_dns(old(shared_values)@),
    {
        let servers = self.metadata.dns_servers();
        shared_values.request(
            Action::SetDns { interface: self.metadata.interface.clone(), servers },
        );
    }

    /// With the host's own DNS servers restored.
    pub open spec fn spec_reset_dns(shared: SharedView) -> SharedView {
        shared.reset_dns()
    }

    fn reset_dns(shared_values: &mut SharedTunnelStateValues)
        ensures
            final(shared_values)@ == Self::spec_reset_dns(old(shared_values)@),
    {
        shared_values.reset_dns();
    }

    /// With the reactions to the default route and the tunnel's routes
    /// removed.
    pub open spec fn spec_reset_routes(shared: SharedView) -> SharedView {
        shared.reset_routes()
    }

    fn reset_routes(shared_values: &mut SharedTunnelStateValues)
        ensures
            final(shared_values)@ == Self::spec_reset_routes(old(shared_values)@),
    {
        shared_values.reset_routes();
    }

    /// With the tunnel's addresses registered with the split-tunnel driver,
    /// to be registered anew whenever the default route changes.
    pub open spec fn spec_register_ips(self, shared: SharedView) -> SharedView {
        shared.register_ips(self.metadata.spec_tunnel_ipv4(), self.metadata.spec_tunnel_ipv6())
    }

    fn register_ips(&self, shared_values: &mut SharedTunnelStateValues)
        ensures
            final(shared_values)@ == self.spec_register_ips(old(shared_values)@),
    {
        let tunnel_ipv4 = self.metadata.tunnel_ipv4();
        let tunnel_ipv6 = self.metadata.tunnel_ipv6();
        shared_values.register_ips(tunnel_ipv4, tunnel_ipv6);
    }

    /// Leaving: the host's DNS servers are restored, the reactions to the
    /// default route and the routes are removed, no addresses stay
    /// registered with the split-tunnel driver, and the tunnel is told to
    /// close.
    pub open spec fn spec_disconnect(shared: SharedView, after_disconnect: AfterDisconnect) -> (
        EventConsequence,
        SharedView,
    ) {
        DisconnectingState::spec_enter(
            Self::spec_reset_routes(Self::spec_reset_dns(shared)).unregister_ips(),
            after_disconnect,
        )
    }

    fn disconnect(
        self,
        shared_values: &mut SharedTunnelStateValues,
        after_disconnect: AfterDisconnect,
    ) -> (consequence: EventConsequence)
        ensures
            (consequence, final(shared_values)@) == Self::spec_disconnect(
                old(shared_values)@,
                after_disconnect,
            ),
    {
        Self::reset_dns(shared_values);
        Self::reset_routes(shared_values);
        shared_values.unregister_ips();
        DisconnectingState::enter(shared_values, after_disconnect)
    }

    /// What a command leads to.
    ///
    /// A change of `AllowLan` is noted and the policy handed to the
    /// firewall anew. `Disconnect` and the end of the commands close the
    /// tunnel for good, `Connect` and `Reconnect` close it for a first
    /// attempt at a new one, `Block` closes it to block, and so does the
    /// news that the host is offline. The other preferences are noted.
    pub open spec fn spec_handle_commands(
        self,
        command: Option<TunnelCommand>,
        shared: SharedView,
    ) -> (EventConsequence, SharedView) {
        let same = EventConsequence::SameState(TunnelStateWrapper::Connected(self));
        match command {
            Some(TunnelCommand::AllowLan(allow_lan)) => (
                EventConsequence::SameState(self.in_phase(ConnectedPhase::UpdatingPolicy)),
                self.spec_set_firewall_policy(SharedView { allow_lan, ..shared }),
            ),
            Some(TunnelCommand::BlockWhenDisconnected(block_when_disconnected)) => (
                same,
                SharedView { block_when_disconnected, ..shared },
            ),
            Some(TunnelCommand::IsOffline(is_offline)) => {
                if is_offline {
                    Self::spec_disconnect(
                        SharedView { is_offline, ..shared },
                        AfterDisconnect::Block(ErrorStateCause::IsOffline),
                    )
                } else {
                    (same, SharedView { is_offline, ..shared })
                }
            },
            Some(TunnelCommand::Connect) | Some(TunnelCommand::Reconnect) => Self::spec_disconnect(
                shared,
                AfterDisconnect::Reconnect(0),
            ),
            Some(TunnelCommand::Disconnect) | None => Self::spec_disconnect(
                shared,
                AfterDisconnect::Nothing,
            ),
            Some(TunnelCommand::Block(reason)) => Self::spec_disconnect(
                shared,
                AfterDisconnect::Block(reason),
            ),
            Some(TunnelCommand::SetExcludedApps(paths)) => (
                same,
                shared.request(ActionView::SetExcludedApps(paths_view(paths@))),
            ),
        }
    }

    /// Handles one command; `None` stands for the end of the commands.
    pub fn handle_commands(
        self,
        command: Option<TunnelCommand>,
        shared_values: &mut SharedTunnelStateValues,
    ) -> (consequence: EventConsequence)
        ensures
            (consequence, final(shared_values)@) == self.spec_handle_commands(
                command,
                old(shared_values)@,
            ),
    {
        match command {
            Some(TunnelCommand::AllowLan(allow_lan)) => {
                shared_values.allow_lan = allow_lan;
                self.set_firewall_policy(shared_values);
                EventConsequence::SameState(self.into_phase(ConnectedPhase::UpdatingPolicy))
            },
            Some(TunnelCommand::BlockWhenDisconnected(block_when_disconnected)) => {
                shared_values.block_when_disconnected = block_when_disconnected;
                EventConsequence::SameState(TunnelStateWrapper::Connected(self))
            },
            Some(TunnelCommand::IsOffline(is_offline)) => {
                shared_values.is_offline = is_offline;
                if is_offline {
                    self.disconnect(
                        shared_values,
                        AfterDisconnect::Block(ErrorStateCause::IsOffline),
                    )
                } else {
                    EventConsequence::SameState(TunnelStateWrapper::Connected(self))
                }
            },
            Some(TunnelCommand::Connect) | Some(TunnelCommand::Reconnect) => self.disconnect(
                shared_values,
                AfterDisconnect::Reconnect(0),
            ),
            Some(TunnelCommand::Disconnect) | None => self.disconnect(
                shared_values,
                AfterDisconnect::Nothing,
            ),
            Some(TunnelCommand::Block(reason)) => self.disconnect(
                shared_values,
                AfterDisconnect::Block(reason),
            ),
            Some(TunnelCommand::SetExcludedApps(paths)) => {
                shared_values.request(Action::SetExcludedApps(paths));
                EventConsequence::SameState(TunnelStateWrapper::Connected(self))
            },
        }
    }

    /// What an event of the tunnel leads to: a tunnel that went down, or
    /// whose events ended, is closed for a first attempt at a new one, a
    /// rejected account closes it to block, and news that it is up changes
    /// nothing.
    pub open spec fn spec_handle_tunnel_events(
        self,
        event: Option<TunnelEvent>,
        shared: SharedView,
    ) -> (EventConsequence, SharedView) {
        match event {
            Some(TunnelEvent::Down) | None => Self::spec_disconnect(
                shared,
                AfterDisconnect::Reconnect(0),
            ),
            Some(TunnelEvent::AuthFailed(_)) => Self::spec_disconnect(
                shared,
                AfterDisconnect::Block(ErrorStateCause::AuthFailed),
            ),
            Some(_) => (EventConsequence::SameState(TunnelStateWrapper::Connected(self)), shared),
        }
    }

    /// Handles one event of the tunnel; `None` stands for the end of its
    /// events.
    pub fn handle_tunnel_events(
        self,
        event: Option<TunnelEvent>,
        shared_values: &mut SharedTunnelStateValues,
    ) -> (consequence: EventConsequence)
        ensures
            (consequence, final(shared_values)@) == self.spec_handle_tunnel_events(
                event,
                old(shared_values)@,
            ),
    {
        match event {
            Some(TunnelEvent::Down) | None => self.disconnect(
                shared_values,
                AfterDisconnect::Reconnect(0),
            ),
            Some(TunnelEvent::AuthFailed(_)) => self.disconnect(
                shared_values,
                AfterDisconnect::Block(ErrorStateCause::AuthFailed),
            ),
            Some(_) => EventConsequence::SameState(TunnelStateWrapper::Connected(self)),
        }
    }

    /// What the closing of the tunnel leads to: `Disconnecting`, to block
    /// where the tunnel gave a cause, and for a first attempt at a new
    /// tunnel otherwise.
    pub open spec fn spec_handle_tunnel_close_event(
        self,
        block_reason: Option<ErrorStateCause>,
        shared: SharedView,
    ) -> (EventConsequence, SharedView) {
        match block_reason {
            Some(reason) => Self::spec_disconnect(shared, AfterDisconnect::Block(reason)),
            None => Self::spec_disconnect(shared, AfterDisconnect::Reconnect(0)),
        }
    }

    /// Handles the closing of the tunnel, with the cause it gave.
    pub fn handle_tunnel_close_event(
        self,
        block_reason: Option<ErrorStateCause>,
        shared_values: &mut SharedTunnelStateValues,
    ) -> (consequence: EventConsequence)
        ensures
            (consequence, final(shared_values)@) == self.spec_handle_tunnel_close_event(
                block_reason,
                old(shared_values)@,
            ),
    {
        match block_reason {
            Some(reason) => self.disconnect(shared_values, AfterDisconnect::Block(reason)),
            None => self.disconnect(shared_values, AfterDisconnect::Reconnect(0)),
        }
    }

    /// Entering: the policy is handed to the firewall, and nothing is
    /// published before the firewall and the DNS monitor have answered.
    pub open spec fn spec_enter(shared: SharedView, bootstrap: ConnectedStateBootstrap) -> (
        EventConsequence,
        SharedView,
    ) {
        let state = Self::spec_from(bootstrap);
        (
            EventConsequence::SameState(TunnelStateWrapper::Connected(state)),
            state.spec_set_firewall_policy(shared),
        )
    }

    /// Begins to enter the state with what `Connecting` handed over.
    pub fn enter(
        shared_values: &mut SharedTunnelStateValues,
        bootstrap: ConnectedStateBootstrap,
    ) -> (consequence: EventConsequence)
        ensures
            (consequence, final(shared_values)@) == Self::spec_enter(
                old(shared_values)@,
                bootstrap,
            ),
    {
        let connected_state = ConnectedState::from(bootstrap);
        connected_state.set_firewall_policy(shared_values);
        EventConsequence::SameState(TunnelStateWrapper::Connected(connected_state))
    }

    /// What an event leads to.
    ///
    /// While an answer is owed, only the answer counts. On entering, a
    /// refused policy leads to `Disconnecting`, to block for it; a policy
    /// that was taken has the DNS servers handed over. Servers that could
    /// not be set lead to `Disconnecting`, to block for it; with the servers
    /// set, the tunnel's addresses are registered and `Connected` is
    /// published. A policy that is refused after a changed preference has
    /// the state left to block for it. With nothing owed, commands, the
    /// tunnel's events and its closing are handled.
    pub open spec fn spec_handle_event(self, event: Event, shared: SharedView) -> (
        EventConsequence,
        SharedView,
    ) {
        let same = EventConsequence::SameState(TunnelStateWrapper::Connected(self));
        match self.phase {
            ConnectedPhase::ApplyingPolicy => match event {
                Event::FirewallPolicyApplied(Ok(_)) => (
                    EventConsequence::SameState(self.in_phase(ConnectedPhase::SettingDns)),
                    self.spec_set_dns(shared),
                ),
                Event::FirewallPolicyApplied(Err(error)) => DisconnectingState::spec_enter(
                    shared,
                    AfterDisconnect::Block(Self::spec_firewall_block_reason(error)),
                ),
                _ => (same, shared),
            },
            ConnectedPhase::SettingDns => match event {
                Event::DnsSet(true) => (
                    EventConsequence::NewState(
                        self.in_phase(ConnectedPhase::Running),
                        TunnelStateTransition::Connected(self.tunnel_parameters.tunnel_endpoint),
                    ),
                    self.spec_register_ips(SharedView { dns_active: true, ..shared }),
                ),
                Event::DnsSet(false) => DisconnectingState::spec_enter(
                    shared,
                    AfterDisconnect::Block(ErrorStateCause::SetDnsError),
                ),
                _ => (same, shared),
            },
            ConnectedPhase::UpdatingPolicy => match event {
                Event::FirewallPolicyApplied(Ok(_)) => (
                    EventConsequence::SameState(self.in_phase(ConnectedPhase::Running)),
                    shared,
                ),
                Event::FirewallPolicyApplied(Err(error)) => Self::spec_disconnect(
                    shared,
                    AfterDisconnect::Block(Self::spec_firewall_block_reason(error)),
                ),
                _ => (same, shared),
            },
            ConnectedPhase::Running => match event {
                Event::Command(command) => self.spec_handle_commands(command, shared),
                Event::Tunnel(tunnel_event) => self.spec_handle_tunnel_events(tunnel_event, shared),
                Event::TunnelClosed(close_event) => self.spec_handle_tunnel_close_event(
                    close_event.spec_block_reason(),
                    shared,
                ),
                _ => (same, shared),
            },
        }
    }

    /// Handles one event.
    pub fn handle_event(
        self,
        event: Event,
        shared_values: &mut SharedTunnelStateValues,
    ) -> (consequence: EventConsequence)
        ensures
            (consequence, final(shared_values)@) == self.spec_handle_event(
                event,
                old(shared_values)@,
            ),
    {
        match self.phase {
            ConnectedPhase::ApplyingPolicy => match event {
                Event::FirewallPolicyApplied(Ok(_)) => {
                    self.set_dns(shared_values);
                    EventConsequence::SameState(self.into_phase(ConnectedPhase::SettingDns))
                },
                Event::FirewallPolicyApplied(Err(error)) => DisconnectingState::enter(
                    shared_values,
                    AfterDisconnect::Block(
                        ErrorStateCause::SetFirewallPolicyError(error.policy_error()),
                    ),
                ),
                _ => EventConsequence::SameState(TunnelStateWrapper::Connected(self)),
            },
            ConnectedPhase::SettingDns => match event {
                Event::DnsSet(true) => {
                    shared_values.dns_monitor.active = true;
                    self.register_ips(shared_values);
                    let tunnel_endpoint = self.tunnel_parameters.get_tunnel_endpoint();
                    EventConsequence::NewState(
                        self.into_phase(ConnectedPhase::Running),
                        TunnelStateTransition::Connected(tunnel_endpoint),
                    )
                },
                Event::DnsSet(false) => DisconnectingState::enter(
                    shared_values,
                    AfterDisconnect::Block(ErrorStateCause::SetDnsError),
                ),
                _ => EventConsequence::SameState(TunnelStateWrapper::Connected(self)),
            },
            ConnectedPhase::UpdatingPolicy => match event {
                Event::FirewallPolicyApplied(Ok(_)) => EventConsequence::SameState(
                    self.into_phase(ConnectedPhase::Running),
                ),
                Event::FirewallPolicyApplied(Err(error)) => self.disconnect(
                    shared_values,
                    AfterDisconnect::Block(
                        ErrorStateCause::SetFirewallPolicyError(error.policy_error()),
                    ),
                ),
                _ => EventConsequence::SameState(TunnelStateWrapper::Connected(self)),
            },
            ConnectedPhase::Running => match event {
                Event::Command(command) => self.handle_commands(command, shared_values),
                Event::Tunnel(tunnel_event) => self.handle_tunnel_events(
                    tunnel_event,
                    shared_values,
                ),
                Event::TunnelClosed(close_event) => self.handle_tunnel_close_event(
                    close_event.block_reason(),
                    shared_values,
                ),
                _ => EventConsequence::SameState(TunnelStateWrapper::Connected(self)),
            },
        }
    }
}

} // verus!
