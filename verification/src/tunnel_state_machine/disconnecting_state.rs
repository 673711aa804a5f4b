//! A tunnel that is closing.

use super::blocked_state::BlockedState;
use super::connecting_state::{spec_backoff_delay_ms, backoff_delay_ms, ConnectingState};
use super::disconnected_state::DisconnectedState;
use super::shared_values::{Action, ActionView, SharedTunnelStateValues, SharedView};
use super::{
    AfterDisconnect, Event, EventConsequence, TunnelCommand, TunnelStateTransition,
    TunnelStateWrapper,
};
use crate::split_tunnel::config::paths_view;
use vstd::prelude::*;

verus! {

/// The tunnel has been told to close; the machine waits for it to do so.
#[derive(Debug, PartialEq, Eq)]
pub struct DisconnectingState {
    /// What follows once the tunnel has closed.
    pub after_disconnect: AfterDisconnect,
}

impl DisconnectingState {
    /// Entering: the tunnel is told to close, and `Disconnecting` is
    /// published with what is to follow.
    pub open spec fn spec_enter(shared: SharedView, after_disconnect: AfterDisconnect) -> (
        EventConsequence,
        SharedView,
    ) {
        (
            EventConsequence::NewState(
                TunnelStateWrapper::Disconnecting(DisconnectingState { after_disconnect }),
                TunnelStateTransition::Disconnecting(after_disconnect),
            ),
            shared.request(ActionView::CloseTunnel),
        )
    }

    /// Enters the state.
    pub fn enter(
        shared_values: &mut SharedTunnelStateValues,
        after_disconnect: AfterDisconnect,
    ) -> (consequence: EventConsequence)
        ensures
            (consequence, final(shared_values)@) == Self::spec_enter(
                old(shared_values)@,
                after_disconnect,
            ),
    {
        shared_values.request(Action::CloseTunnel);
        EventConsequence::NewState(
            TunnelStateWrapper::Disconnecting(DisconnectingState { after_disconnect }),
            TunnelStateTransition::Disconnecting(after_disconnect),
        )
    }

    /// What a command makes of what is to follow: `Connect` and `Reconnect`
    /// ask for a first attempt at a new tunnel unless the machine is to
    /// block, `Disconnect` and the end of the commands ask for nothing, and
    /// `Block` asks to block.
    pub open spec fn spec_after_command(
        after_disconnect: AfterDisconnect,
        command: Option<TunnelCommand>,
    ) -> AfterDisconnect {
        match command {
            Some(TunnelCommand::Connect) | Some(TunnelCommand::Reconnect) => match after_disconnect {
                AfterDisconnect::Block(_) => after_disconnect,
                _ => AfterDisconnect::Reconnect(0),
            },
            Some(TunnelCommand::Disconnect) | None => AfterDisconnect::Nothing,
            Some(TunnelCommand::Block(reason)) => AfterDisconnect::Block(reason),
            _ => after_disconnect,
        }
    }

    /// The shared values once a command has been noted.
    pub open spec fn spec_shared_after_command(
        shared: SharedView,
        command: Option<TunnelCommand>,
    ) -> SharedView {
        match command {
            Some(TunnelCommand::AllowLan(allow_lan)) => SharedView { allow_lan, ..shared },
            Some(TunnelCommand::BlockWhenDisconnected(block_when_disconnected)) => SharedView {
                block_when_disconnected,
                ..shared
            },
            Some(TunnelCommand::IsOffline(is_offline)) => SharedView { is_offline, ..shared },
            Some(TunnelCommand::SetExcludedApps(paths)) => shared.request(
                ActionView::SetExcludedApps(paths_view(paths@)),
            ),
            _ => shared,
        }
    }

    /// What follows the closing of the tunnel: `Disconnected`, the error
    /// state, or a new attempt that starts after its backoff delay.
    pub open spec fn spec_after_disconnect(self, shared: SharedView) -> (
        EventConsequence,
        SharedView,
    ) {
        match self.after_disconnect {
            AfterDisconnect::Nothing => DisconnectedState::spec_enter(shared),
            AfterDisconnect::Block(cause) => BlockedState::spec_enter(shared, cause),
            AfterDisconnect::Reconnect(retry_attempt) => ConnectingState::spec_enter(
                shared,
                retry_attempt,
                spec_backoff_delay_ms(retry_attempt),
            ),
        }
    }

    fn after_disconnect(
        self,
        shared_values: &mut SharedTunnelStateValues,
    ) -> (consequence: EventConsequence)
        ensures
            (consequence, final(shared_values)@) == self.spec_after_disconnect(
                old(shared_values)@,
            ),
    {
        match self.after_disconnect {
            AfterDisconnect::Nothing => DisconnectedState::enter(shared_values),
            AfterDisconnect::Block(cause) => BlockedState::enter(shared_values, cause),
            AfterDisconnect::Reconnect(retry_attempt) => ConnectingState::enter(
                shared_values,
                retry_attempt,
                backoff_delay_ms(retry_attempt),
            ),
        }
    }

    /// What an event leads to.
    ///
    /// A command changes what is to follow, or a preference, and nothing
    /// else. Once the tunnel has closed, the machine has no tunnel any more
    /// and what is to follow is entered.
    /// Everything else changes nothing.
    pub open spec fn spec_handle_event(self, event: Event, shared: SharedView) -> (
        EventConsequence,
        SharedView,
    ) {
        match event {
            Event::Command(command) => (
                EventConsequence::SameState(
                    TunnelStateWrapper::Disconnecting(
                        DisconnectingState {
                            after_disconnect: Self::spec_after_command(
                                self.after_disconnect,
                                command,
                            ),
                        },
                    ),
                ),
                Self::spec_shared_after_command(shared, command),
            ),
            Event::TunnelClosed(_) => self.spec_after_disconnect(
                SharedView { tunnel_active: false, ..shared },
            ),
            _ => (EventConsequence::SameState(TunnelStateWrapper::Disconnecting(self)), shared),
        }
    }

    /// Handles one event.
    pub fn handle_event(
        self,
        event: Event,
        shared_values: &mut SharedTunnelStateValues,
    ) -> (consequence: EventConsequence)
        ensures
            (consequence, final(shared_values)@) == self.spec_handle_event(
                event,
                old(shared_values)@,
            ),
    {
        match event {
            Event::Command(command) => {
                let after_disconnect = match command {
                    Some(TunnelCommand::Connect) | Some(TunnelCommand::Reconnect) => {
                        match self.after_disconnect {
                            AfterDisconnect::Block(_) => self.after_disconnect,
                            _ => AfterDisconnect::Reconnect(0),
                        }
                    },
                    Some(TunnelCommand::Disconnect) | None => AfterDisconnect::Nothing,
                    Some(TunnelCommand::Block(reason)) => AfterDisconnect::Block(reason),
                    Some(TunnelCommand::AllowLan(allow_lan)) => {
                        shared_values.allow_lan = allow_lan;
                        self.after_disconnect
                    },
                    Some(TunnelCommand::BlockWhenDisconnected(block_when_disconnected)) => {
                        shared_values.block_when_disconnected = block_when_disconnected;
                        self.after_disconnect
                    },
                    Some(TunnelCommand::IsOffline(is_offline)) => {
                        shared_values.is_offline = is_offline;
                        self.after_disconnect
                    },
                    Some(TunnelCommand::SetExcludedApps(paths)) => {
                        shared_values.request(Action::SetExcludedApps(paths));
                        self.after_disconnect
                    },
                };
                EventConsequence::SameState(
                    TunnelStateWrapper::Disconnecting(DisconnectingState { after_disconnect }),
                )
            },
            Event::TunnelClosed(_) => {
                shared_values.tunnel_monitor.active = false;
                self.after_disconnect(shared_values)
            },
            _ => EventConsequence::SameState(TunnelStateWrapper::Disconnecting(self)),
        }
    }
}

} // verus!
