//! No tunnel, and none wanted.

use super::blocked_state::BlockedState;
use super::connecting_state::ConnectingState;
use super::shared_values::{Action, ActionView, SharedTunnelStateValues, SharedView};
use super::{Event, EventConsequence, TunnelCommand, TunnelStateTransition, TunnelStateWrapper};
use crate::firewall::FirewallPolicy;
use crate::split_tunnel::config::paths_view;
use vstd::prelude::*;

verus! {

/// No tunnel is running, and the host's traffic passes or is blocked as the
/// user chose.
#[derive(Debug, PartialEq, Eq)]
pub struct DisconnectedState {}

impl DisconnectedState {
    /// What the firewall is asked for while no tunnel is wanted: the
    /// blocking policy where the user chose to block, and no policy
    /// otherwise.
    pub open spec fn spec_set_firewall_policy(shared: SharedView) -> SharedView {
        if shared.block_when_disconnected {
            shared.apply_firewall_policy(FirewallPolicy::Blocked { allow_lan: shared.allow_lan })
        } else {
            shared.reset_firewall()
        }
    }

    fn set_firewall_policy(shared_values: &mut SharedTunnelStateValues)
        ensures
            final(shared_values)@ == Self::spec_set_firewall_policy(old(shared_values)@),
    {
        if shared_values.block_when_disconnected {
            let policy = FirewallPolicy::Blocked { allow_lan: shared_values.allow_lan };
            shared_values.apply_firewall_policy(policy);
        } else {
            shared_values.reset_firewall();
        }
    }

    /// Entering: the firewall is set as the user chose, and `Disconnected`
    /// is published.
    pub open spec fn spec_enter(shared: SharedView) -> (EventConsequence, SharedView) {
        (
            EventConsequence::NewState(
                TunnelStateWrapper::Disconnected(DisconnectedState {  }),
                TunnelStateTransition::Disconnected,
            ),
            Self::spec_set_firewall_policy(shared),
        )
    }

    /// Enters the state.
    pub fn enter(shared_values: &mut SharedTunnelStateValues) -> (consequence: EventConsequence)
        ensures
            (consequence, final(shared_values)@) == Self::spec_enter(old(shared_values)@),
    {
        Self::set_firewall_policy(shared_values);
        EventConsequence::NewState(
            TunnelStateWrapper::Disconnected(DisconnectedState {  }),
            TunnelStateTransition::Disconnected,
        )
    }

    /// What an event leads to.
    ///
    /// `Connect` begins a first attempt at a tunnel and `Block` begins to
    /// block. A changed preference is noted, and the firewall is set anew
    /// where the change bears on it. The end of the commands ends the
    /// machine. Everything else changes nothing.
    pub open spec fn spec_handle_event(self, event: Event, shared: SharedView) -> (
        EventConsequence,
        SharedView,
    ) {
        let same = EventConsequence::SameState(TunnelStateWrapper::Disconnected(self));
        match event {
            Event::Command(Some(TunnelCommand::Connect)) => ConnectingState::spec_enter(shared, 0, 0),
            Event::Command(Some(TunnelCommand::Block(cause))) => BlockedState::spec_enter(
                shared,
                cause,
            ),
            Event::Command(Some(TunnelCommand::AllowLan(allow_lan))) => {
                let changed = SharedView { allow_lan, ..shared };
                if allow_lan != shared.allow_lan && shared.block_when_disconnected {
                    (same, Self::spec_set_firewall_policy(changed))
                } else {
                    (same, changed)
                }
            },
            Event::Command(Some(TunnelCommand::BlockWhenDisconnected(block_when_disconnected))) => {
                let changed = SharedView { block_when_disconnected, ..shared };
                if block_when_disconnected != shared.block_when_disconnected {
                    (same, Self::spec_set_firewall_policy(changed))
                } else {
                    (same, changed)
                }
            },
            Event::Command(Some(TunnelCommand::IsOffline(is_offline))) => (
                same,
                SharedView { is_offline, ..shared },
            ),
            Event::Command(Some(TunnelCommand::SetExcludedApps(paths))) => (
                same,
                shared.request(ActionView::SetExcludedApps(paths_view(paths@))),
            ),
            Event::Command(None) => (EventConsequence::Finished, shared),
            _ => (same, shared),
        }
    }

    /// Handles one event.
    pub fn handle_event(
        self,
        event: Event,
        shared_values: &mut SharedTunnelStateValues,
    ) -> (consequence: EventConsequence)
        ensures
            (consequence, final(shared_values)@) == self.spec_handle_event(
                event,
                old(shared_values)@,
            ),
    {
        match event {
            Event::Command(Some(TunnelCommand::Connect)) => ConnectingState::enter(
                shared_values,
                0,
                0,
            ),
            Event::Command(Some(TunnelCommand::Block(cause))) => BlockedState::enter(
                shared_values,
                cause,
            ),
            Event::Command(Some(TunnelCommand::AllowLan(allow_lan))) => {
                let changed = allow_lan != shared_values.allow_lan;
                shared_values.allow_lan = allow_lan;
                if changed && shared_values.block_when_disconnected {
                    Self::set_firewall_policy(shared_values);
                }
                EventConsequence::SameState(TunnelStateWrapper::Disconnected(self))
            },
            Event::Command(Some(TunnelCommand::BlockWhenDisconnected(block_when_disconnected))) => {
                let changed = block_when_disconnected != shared_values.block_when_disconnected;
                shared_values.block_when_disconnected = block_when_disconnected;
                if changed {
                    Self::set_firewall_policy(shared_values);
                }
                EventConsequence::SameState(TunnelStateWrapper::Disconnected(self))
            },
            Event::Command(Some(TunnelCommand::IsOffline(is_offline))) => {
                shared_values.is_offline = is_offline;
                EventConsequence::SameState(TunnelStateWrapper::Disconnected(self))
            },
            Event::Command(Some(TunnelCommand::SetExcludedApps(paths))) => {
                shared_values.request(Action::SetExcludedApps(paths));
                EventConsequence::SameState(TunnelStateWrapper::Disconnected(self))
            },
            Event::Command(None) => EventConsequence::Finished,
            _ => EventConsequence::SameState(TunnelStateWrapper::Disconnected(self)),
        }
    }
}

} // verus!
