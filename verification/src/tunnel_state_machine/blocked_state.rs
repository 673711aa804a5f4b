//! No tunnel, and the host's traffic blocked.

use super::connecting_state::ConnectingState;
use super::disconnected_state::DisconnectedState;
use super::shared_values::{Action, ActionView, SharedTunnelStateValues, SharedView};
use super::{Event, EventConsequence, TunnelCommand, TunnelStateTransition, TunnelStateWrapper};
use crate::firewall::FirewallPolicy;
use crate::split_tunnel::config::paths_view;
use crate::tunnel::ErrorStateCause;
use vstd::prelude::*;

verus! {

/// No tunnel is running and all network connections are blocked.
#[derive(Debug, PartialEq, Eq)]
pub struct BlockedState {
    /// Why the machine blocks.
    pub block_reason: ErrorStateCause,
    /// Whether the firewall took the blocking policy; `None` while its
    /// answer is owed.
    pub blocking: Option<bool>,
}

impl BlockedState {
    /// The policy of this state.
    pub open spec fn spec_policy(shared: SharedView) -> FirewallPolicy {
        FirewallPolicy::Blocked { allow_lan: shared.allow_lan }
    }

    /// With the blocking policy handed to the firewall.
    pub open spec fn spec_set_firewall_policy(shared: SharedView) -> SharedView {
        shared.apply_firewall_policy(Self::spec_policy(shared))
    }

    fn set_firewall_policy(shared_values: &mut SharedTunnelStateValues)
        ensures
            final(shared_values)@ == Self::spec_set_firewall_policy(old(shared_values)@),
    {
        let policy = FirewallPolicy::Blocked { allow_lan: shared_values.allow_lan };
        shared_values.apply_firewall_policy(policy);
    }

    /// Entering: the blocking policy is handed to the firewall, and nothing
    /// is published before the firewall has answered.
    pub open spec fn spec_enter(shared: SharedView, block_reason: ErrorStateCause) -> (
        EventConsequence,
        SharedView,
    ) {
        (
            EventConsequence::SameState(
                TunnelStateWrapper::Error(BlockedState { block_reason, blocking: None }),
            ),
            Self::spec_set_firewall_policy(shared),
        )
    }

    /// Begins to enter the state, for the cause given.
    pub fn enter(
        shared_values: &mut SharedTunnelStateValues,
        block_reason: ErrorStateCause,
    ) -> (consequence: EventConsequence)
        ensures
            (consequence, final(shared_values)@) == Self::spec_enter(
                old(shared_values)@,
                block_reason,
            ),
    {
        Self::set_firewall_policy(shared_values);
        EventConsequence::SameState(
            TunnelStateWrapper::Error(BlockedState { block_reason, blocking: None }),
        )
    }

    /// What an event leads to.
    ///
    /// While the firewall's answer is owed, the answer ends the entry: the
    /// state is published with the cause and with whether the firewall took
    /// the policy. After that, `Connect` and `Reconnect` begin a first
    /// attempt at a tunnel, `Disconnect` and the end of the commands lead to
    /// `Disconnected`, and
    /// a preference is noted and the blocking policy applied anew.
    /// Everything else changes nothing.
    pub open spec fn spec_handle_event(self, event: Event, shared: SharedView) -> (
        EventConsequence,
        SharedView,
    ) {
        let same = EventConsequence::SameState(TunnelStateWrapper::Error(self));
        if self.blocking.is_none() {
            match event {
                Event::FirewallPolicyApplied(result) => (
                    EventConsequence::NewState(
                        TunnelStateWrapper::Error(
                            BlockedState {
                                block_reason: self.block_reason,
                                blocking: Some(result.is_ok()),
                            },
                        ),
                        TunnelStateTransition::Error(self.block_reason, result.is_ok()),
                    ),
                    shared,
                ),
                _ => (same, shared),
            }
        } else {
            match event {
                Event::Command(Some(TunnelCommand::Connect))
                | Event::Command(Some(TunnelCommand::Reconnect)) => ConnectingState::spec_enter(
                    shared,
                    0,
                    0,
                ),
                Event::Command(Some(TunnelCommand::Disconnect)) | Event::Command(None) => {
                    DisconnectedState::spec_enter(shared)
                },
                Event::Command(Some(TunnelCommand::AllowLan(allow_lan))) => (
                    same,
                    Self::spec_set_firewall_policy(SharedView { allow_lan, ..shared }),
                ),
                Event::Command(Some(TunnelCommand::BlockWhenDisconnected(block_when_disconnected))) => (
                    same,
                    Self::spec_set_firewall_policy(SharedView { block_when_disconnected, ..shared }),
                ),
                Event::Command(Some(TunnelCommand::IsOffline(is_offline))) => (
                    same,
                    Self::spec_set_firewall_policy(SharedView { is_offline, ..shared }),
                ),
                Event::Command(Some(TunnelCommand::SetExcludedApps(paths))) => (
                    same,
                    shared.request(ActionView::SetExcludedApps(paths_view(paths@))),
                ),
                _ => (same, shared),
            }
        }
    }

    /// Handles one event.
    pub fn handle_event(
        self,
        event: Event,
        shared_values: &mut SharedTunnelStateValues,
    ) -> (consequence: EventConsequence)
        ensures
            (consequence, final(shared_values)@) == self.spec_handle_event(
                event,
                old(shared_values)@,
            ),
    {
        if self.blocking.is_none() {
            match event {
                Event::FirewallPolicyApplied(result) => {
                    let blocking = result.is_ok();
                    EventConsequence::NewState(
                        TunnelStateWrapper::Error(
                            BlockedState {
                                block_reason: self.block_reason,
                                blocking: Some(blocking),
                            },
                        ),
                        TunnelStateTransition::Error(self.block_reason, blocking),
                    )
                },
                _ => EventConsequence::SameState(TunnelStateWrapper::Error(self)),
            }
        } else {
            match event {
                Event::Command(Some(TunnelCommand::Connect))
                | Event::Command(Some(TunnelCommand::Reconnect)) => ConnectingState::enter(
                    shared_values,
                    0,
                    0,
                ),
                Event::Command(Some(TunnelCommand::Disconnect)) | Event::Command(None) => {
                    DisconnectedState::enter(shared_values)
                },
                Event::Command(Some(TunnelCommand::AllowLan(allow_lan))) => {
                    shared_values.allow_lan = allow_lan;
                    Self::set_firewall_policy(shared_values);
                    EventConsequence::SameState(TunnelStateWrapper::Error(self))
                },
                Event::Command(Some(TunnelCommand::BlockWhenDisconnected(block_when_disconnected))) => {
                    shared_values.block_when_disconnected = block_when_disconnected;
                    Self::set_firewall_policy(shared_values);
                    EventConsequence::SameState(TunnelStateWrapper::Error(self))
                },
                Event::Command(Some(TunnelCommand::IsOffline(is_offline))) => {
                    shared_values.is_offline = is_offline;
                    Self::set_firewall_policy(shared_values);
                    EventConsequence::SameState(TunnelStateWrapper::Error(self))
                },
                Event::Command(Some(TunnelCommand::SetExcludedApps(paths))) => {
                    shared_values.request(Action::SetExcludedApps(paths));
                    EventConsequence::SameState(TunnelStateWrapper::Error(self))
                },
                _ => EventConsequence::SameState(TunnelStateWrapper::Error(self)),
            }
        }
    }
}

} // verus!
