//! A tunnel that is being set up.

use super::blocked_state::BlockedState;
use super::connected_state::{ConnectedState, ConnectedStateBootstrap};
use super::disconnecting_state::DisconnectingState;
use super::shared_values::{Action, ActionView, SharedTunnelStateValues, SharedView};
use super::{
    AfterDisconnect, Event, EventConsequence, TunnelCommand, TunnelStateTransition,
    TunnelStateWrapper,
};
use crate::firewall::FirewallPolicy;
use crate::net::TunnelParameters;
use crate::split_tunnel::config::paths_view;
use crate::tunnel::{ErrorStateCause, TunnelEvent};
use vstd::arithmetic::power2::{lemma2_to64, lemma_pow2_strictly_increases, lemma_pow2_unfold, pow2};
use vstd::prelude::*;

verus! {

/// The delay before a first attempt, in milliseconds.
pub const BACKOFF_BASE_MS: u64 = 50;

/// The longest delay before an attempt, in milliseconds.
pub const BACKOFF_MAX_MS: u64 = 8000;

/// How long a tunnel may take to come up, in milliseconds.
pub const CONNECT_TIMEOUT_MS: u64 = 120_000;

/// The delay before the attempt that follows `retry_attempt` others: the
/// base delay doubled once for each of them, and never more than the
/// longest delay.
pub open spec fn spec_backoff_delay_ms(retry_attempt: u32) -> u64 {
    if pow2(retry_attempt as nat) * BACKOFF_BASE_MS <= BACKOFF_MAX_MS {
        (pow2(retry_attempt as nat) * BACKOFF_BASE_MS) as u64
    } else {
        BACKOFF_MAX_MS
    }
}

/// The delay before the attempt that follows `retry_attempt` others.
pub fn backoff_delay_ms(retry_attempt: u32) -> (delay_ms: u64)
    ensures
        delay_ms == spec_backoff_delay_ms(retry_attempt),
        BACKOFF_BASE_MS <= delay_ms <= BACKOFF_MAX_MS,
{
    let mut delay_ms: u64 = BACKOFF_BASE_MS;
    let mut doubled: u32 = 0;
    proof {
        lemma2_to64();
    }
    while doubled < retry_attempt && delay_ms <= BACKOFF_MAX_MS / 2
        invariant
            doubled <= retry_attempt,
            delay_ms == pow2(doubled as nat) * BACKOFF_BASE_MS,
            BACKOFF_BASE_MS <= delay_ms <= BACKOFF_MAX_MS,
        decreases retry_attempt - doubled,
    {
        proof {
            lemma_pow2_unfold((doubled + 1) as nat);
        }
        delay_ms = delay_ms * 2;
        doubled = doubled + 1;
    }
    if doubled < retry_attempt {
        proof {
            lemma_pow2_unfold((doubled + 1) as nat);
            if doubled + 1 < retry_attempt {
                lemma_pow2_strictly_increases((doubled + 1) as nat, retry_attempt as nat);
            }
            assert(pow2(retry_attempt as nat) * BACKOFF_BASE_MS >= 2 * delay_ms) by (nonlinear_arith)
                requires
                    pow2(retry_attempt as nat) >= 2 * pow2(doubled as nat),
                    delay_ms == pow2(doubled as nat) * BACKOFF_BASE_MS,
            ;
        }
        BACKOFF_MAX_MS
    } else {
        delay_ms
    }
}

/// The count of attempts after one more. It stops at the largest number a
/// count can hold.
pub open spec fn spec_next_retry_attempt(retry_attempt: u32) -> u32 {
    if retry_attempt < u32::MAX {
        (retry_attempt + 1) as u32
    } else {
        retry_attempt
    }
}

/// How far the setting up has come.
#[derive(Clone, Copy, Debug, PartialEq, Eq, Structural)]
pub enum ConnectingPhase {
    /// The parameters of the tunnel have been asked for.
    GeneratingParameters,
    /// The firewall has been handed the policy for these parameters.
    ApplyingPolicy(TunnelParameters),
    /// The tunnel has been started with these parameters.
    Running(TunnelParameters),
}

/// A tunnel is being set up.
#[derive(Debug, PartialEq, Eq)]
pub struct ConnectingState {
    /// The number of attempts before this one.
    pub retry_attempt: u32,
    /// The delay before the tunnel is started, in milliseconds.
    pub delay_ms: u64,
    /// How far the setting up has come.
    pub phase: ConnectingPhase,
}

impl ConnectingState {
    /// The policy while a tunnel with these parameters is set up.
    pub open spec fn spec_policy(parameters: TunnelParameters) -> FirewallPolicy {
        FirewallPolicy::Connecting { peer_endpoint: parameters.next_hop_endpoint }
    }

    /// The state with its phase changed.
    pub open spec fn in_phase(self, phase: ConnectingPhase) -> TunnelStateWrapper {
        TunnelStateWrapper::Connecting(
            ConnectingState { retry_attempt: self.retry_attempt, delay_ms: self.delay_ms, phase },
        )
    }

    /// Entering: where the host is offline, the error state is entered
    /// instead, for that cause. Otherwise the parameters of the tunnel are
    /// asked for, and nothing is published yet.
    pub open spec fn spec_enter(shared: SharedView, retry_attempt: u32, delay_ms: u64) -> (
        EventConsequence,
        SharedView,
    ) {
        if shared.is_offline {
            BlockedState::spec_enter(shared, ErrorStateCause::IsOffline)
        } else {
            (
                EventConsequence::SameState(
                    TunnelStateWrapper::Connecting(
                        ConnectingState {
                            retry_attempt,
                            delay_ms,
                            phase: ConnectingPhase::GeneratingParameters,
                        },
                    ),
                ),
                shared.request(ActionView::GenerateTunnelParameters { retry_attempt }),
            )
        }
    }

    /// Begins to enter the state for the attempt that follows
    /// `retry_attempt` others, with a tunnel that starts after `delay_ms`
    /// milliseconds.
    pub fn enter(
        shared_values: &mut SharedTunnelStateValues,
        retry_attempt: u32,
        delay_ms: u64,
    ) -> (consequence: EventConsequence)
        ensures
            (consequence, final(shared_values)@) == Self::spec_enter(
                old(shared_values)@,
                retry_attempt,
                delay_ms,
            ),
    {
        if shared_values.is_offline {
            BlockedState::enter(shared_values, ErrorStateCause::IsOffline)
        } else {
            shared_values.request(Action::GenerateTunnelParameters { retry_attempt });
            EventConsequence::SameState(
                TunnelStateWrapper::Connecting(
                    ConnectingState {
                        retry_attempt,
                        delay_ms,
                        phase: ConnectingPhase::GeneratingParameters,
                    },
                ),
            )
        }
    }

    /// Leaving for `Disconnecting`: the routes are removed and the tunnel is
    /// told to close.
    pub open spec fn spec_disconnect(shared: SharedView, after_disconnect: AfterDisconnect) -> (
        EventConsequence,
        SharedView,
    ) {
        DisconnectingState::spec_enter(shared.request(ActionView::ClearRoutes), after_disconnect)
    }

    fn disconnect(
        shared_values: &mut SharedTunnelStateValues,
        after_disconnect: AfterDisconnect,
    ) -> (consequence: EventConsequence)
        ensures
            (consequence, final(shared_values)@) == Self::spec_disconnect(
                old(shared_values)@,
                after_disconnect,
            ),
    {
        shared_values.request(Action::ClearRoutes);
        DisconnectingState::enter(shared_values, after_disconnect)
    }

    /// What a command leads to while the tunnel is being started.
    ///
    /// `Disconnect` and the end of the commands close the tunnel for good,
    /// `Connect` and `Reconnect` close it for a first attempt at a new one,
    /// `Block` closes it to block, and so does the news that the host is
    /// offline. The other preferences are noted.
    pub open spec fn spec_handle_commands(
        self,
        command: Option<TunnelCommand>,
        shared: SharedView,
    ) -> (EventConsequence, SharedView) {
        let same = EventConsequence::SameState(TunnelStateWrapper::Connecting(self));
        match command {
            Some(TunnelCommand::AllowLan(allow_lan)) => (same, SharedView { allow_lan, ..shared }),
            Some(TunnelCommand::BlockWhenDisconnected(block_when_disconnected)) => (
                same,
                SharedView { block_when_disconnected, ..shared },
            ),
            Some(TunnelCommand::IsOffline(is_offline)) => {
                if is_offline {
                    Self::spec_disconnect(
                        SharedView { is_offline, ..shared },
                        AfterDisconnect::Block(ErrorStateCause::IsOffline),
                    )
                } else {
                    (same, SharedView { is_offline, ..shared })
                }
            },
            Some(TunnelCommand::Connect) | Some(TunnelCommand::Reconnect) => Self::spec_disconnect(
                shared,
                AfterDisconnect::Reconnect(0),
            ),
            Some(TunnelCommand::Disconnect) | None => Self::spec_disconnect(
                shared,
                AfterDisconnect::Nothing,
            ),
            Some(TunnelCommand::Block(reason)) => Self::spec_disconnect(
                shared,
                AfterDisconnect::Block(reason),
            ),
            Some(TunnelCommand::SetExcludedApps(paths)) => (
                same,
                shared.request(ActionView::SetExcludedApps(paths_view(paths@))),
            ),
        }
    }

    fn handle_commands(
        self,
        command: Option<TunnelCommand>,
        shared_values: &mut SharedTunnelStateValues,
    ) -> (consequence: EventConsequence)
        ensures
            (consequence, final(shared_values)@) == self.spec_handle_commands(
                command,
                old(shared_values)@,
            ),
    {
        match command {
            Some(TunnelCommand::AllowLan(allow_lan)) => {
                shared_values.allow_lan = allow_lan;
                EventConsequence::SameState(TunnelStateWrapper::Connecting(self))
            },
            Some(TunnelCommand::BlockWhenDisconnected(block_when_disconnected)) => {
                shared_values.block_when_disconnected = block_when_disconnected;
                EventConsequence::SameState(TunnelStateWrapper::Connecting(self))
            },
            Some(TunnelCommand::IsOffline(is_offline)) => {
                shared_values.is_offline = is_offline;
                if is_offline {
                    Self::disconnect(
                        shared_values,
                        AfterDisconnect::Block(ErrorStateCause::IsOffline),
                    )
                } else {
                    EventConsequence::SameState(TunnelStateWrapper::Connecting(self))
                }
            },
            Some(TunnelCommand::Connect) | Some(TunnelCommand::Reconnect) => Self::disconnect(
                shared_values,
                AfterDisconnect::Reconnect(0),
            ),
            Some(TunnelCommand::Disconnect) | None => Self::disconnect(
                shared_values,
                AfterDisconnect::Nothing,
            ),
            Some(TunnelCommand::Block(reason)) => Self::disconnect(
                shared_values,
                AfterDisconnect::Block(reason),
            ),
            Some(TunnelCommand::SetExcludedApps(paths)) => {
                shared_values.request(Action::SetExcludedApps(paths));
                EventConsequence::SameState(TunnelStateWrapper::Connecting(self))
            },
        }
    }

    /// What an event of the tunnel leads to: a tunnel that is up is taken
    /// over by `Connected`, a rejected account closes the tunnel to block,
    /// and a tunnel that went down, or whose events ended, is closed for
    /// one more attempt.
    pub open spec fn spec_handle_tunnel_events(
        self,
        parameters: TunnelParameters,
        event: Option<TunnelEvent>,
        shared: SharedView,
    ) -> (EventConsequence, SharedView) {
        match event {
            Some(TunnelEvent::Up(metadata)) => ConnectedState::spec_enter(
                shared,
                ConnectedStateBootstrap { metadata, tunnel_parameters: parameters },
            ),
            Some(TunnelEvent::AuthFailed(_)) => Self::spec_disconnect(
                shared,
                AfterDisconnect::Block(ErrorStateCause::AuthFailed),
            ),
            Some(TunnelEvent::InterfaceUp(_)) => (
                EventConsequence::SameState(TunnelStateWrapper::Connecting(self)),
                shared,
            ),
            Some(TunnelEvent::Down) | None => Self::spec_disconnect(
                shared,
                AfterDisconnect::Reconnect(spec_next_retry_attempt(self.retry_attempt)),
            ),
        }
    }

    /// The count of attempts after one more; it stops at the largest number.
    fn next_retry_attempt(&self) -> (next: u32)
        ensures
            next == spec_next_retry_attempt(self.retry_attempt),
    {
        if self.retry_attempt < u32::MAX {
            self.retry_attempt + 1
        } else {
            self.retry_attempt
        }
    }

    fn handle_tunnel_events(
        self,
        parameters: TunnelParameters,
        event: Option<TunnelEvent>,
        shared_values: &mut SharedTunnelStateValues,
    ) -> (consequence: EventConsequence)
        ensures
            (consequence, final(shared_values)@) == self.spec_handle_tunnel_events(
                parameters,
                event,
                old(shared_values)@,
            ),
    {
        match event {
            Some(TunnelEvent::Up(metadata)) => ConnectedState::enter(
                shared_values,
                ConnectedStateBootstrap { metadata, tunnel_parameters: parameters },
            ),
            Some(TunnelEvent::AuthFailed(_)) => Self::disconnect(
                shared_values,
                AfterDisconnect::Block(ErrorStateCause::AuthFailed),
            ),
            Some(TunnelEvent::InterfaceUp(_)) => EventConsequence::SameState(
                TunnelStateWrapper::Connecting(self),
            ),
            Some(TunnelEvent::Down) | None => {
                let next = self.next_retry_attempt();
                Self::disconnect(shared_values, AfterDisconnect::Reconnect(next))
            },
        }
    }

    /// What the closing of the tunnel leads to: `Disconnecting`, to block
    /// where the tunnel gave a cause, and for one more attempt otherwise.
    pub open spec fn spec_handle_tunnel_close_event(
        self,
        block_reason: Option<ErrorStateCause>,
        shared: SharedView,
    ) -> (EventConsequence, SharedView) {
        match block_reason {
            Some(reason) => Self::spec_disconnect(shared, AfterDisconnect::Block(reason)),
            None => Self::spec_disconnect(
                shared,
                AfterDisconnect::Reconnect(spec_next_retry_attempt(self.retry_attempt)),
            ),
        }
    }

    fn handle_tunnel_close_event(
        self,
        block_reason: Option<ErrorStateCause>,
        shared_values: &mut SharedTunnelStateValues,
    ) -> (consequence: EventConsequence)
        ensures
            (consequence, final(shared_values)@) == self.spec_handle_tunnel_close_event(
                block_reason,
                old(shared_values)@,
            ),
    {
        match block_reason {
            Some(reason) => Self::disconnect(shared_values, AfterDisconnect::Block(reason)),
            None => {
                let next = self.next_retry_attempt();
                Self::disconnect(shared_values, AfterDisconnect::Reconnect(next))
            },
        }
    }

    /// What an event leads to.
    ///
    /// While an answer is owed, only the answer counts. Without parameters
    /// the error state is entered; with them the firewall is handed the
    /// policy that lets the peer through. Where the firewall refuses it the
    /// error state is entered; where it takes it the tunnel is started and
    /// `Connecting` is published. From then on commands, the tunnel's
    /// events, its closing and the timeout are handled: the timeout closes
    /// the tunnel for one more attempt.
    pub open spec fn spec_handle_event(self, event: Event, shared: SharedView) -> (
        EventConsequence,
        SharedView,
    ) {
        let same = EventConsequence::SameState(TunnelStateWrapper::Connecting(self));
        match self.phase {
            ConnectingPhase::GeneratingParameters => match event {
                Event::TunnelParameters(Some(parameters)) => (
                    EventConsequence::SameState(
                        self.in_phase(ConnectingPhase::ApplyingPolicy(parameters)),
                    ),
                    shared.apply_firewall_policy(Self::spec_policy(parameters)),
                ),
                Event::TunnelParameters(None) => BlockedState::spec_enter(
                    shared,
                    ErrorStateCause::TunnelParameterError,
                ),
                _ => (same, shared),
            },
            ConnectingPhase::ApplyingPolicy(parameters) => match event {
                Event::FirewallPolicyApplied(Ok(_)) => (
                    EventConsequence::NewState(
                        self.in_phase(ConnectingPhase::Running(parameters)),
                        TunnelStateTransition::Connecting(parameters.tunnel_endpoint),
                    ),
                    shared.start_tunnel(parameters, self.delay_ms, CONNECT_TIMEOUT_MS),
                ),
                Event::FirewallPolicyApplied(Err(error)) => BlockedState::spec_enter(
                    shared,
                    ErrorStateCause::SetFirewallPolicyError(error.spec_policy_error()),
                ),
                _ => (same, shared),
            },
            ConnectingPhase::Running(parameters) => match event {
                Event::Command(command) => self.spec_handle_commands(command, shared),
                Event::Tunnel(tunnel_event) => self.spec_handle_tunnel_events(
                    parameters,
                    tunnel_event,
                    shared,
                ),
                Event::TunnelClosed(close_event) => self.spec_handle_tunnel_close_event(
                    close_event.spec_block_reason(),
                    shared,
                ),
                Event::ConnectTimeout => Self::spec_disconnect(
                    shared,
                    AfterDisconnect::Reconnect(spec_next_retry_attempt(self.retry_attempt)),
                ),
                _ => (same, shared),
            },
        }
    }

    /// Handles one event.
    pub fn handle_event(
        self,
        event: Event,
        shared_values: &mut SharedTunnelStateValues,
    ) -> (consequence: EventConsequence)
        ensures
            (consequence, final(shared_values)@) == self.spec_handle_event(
                event,
                old(shared_values)@,
            ),
    {
        match self.phase {
            ConnectingPhase::GeneratingParameters => match event {
                Event::TunnelParameters(Some(parameters)) => {
                    shared_values.apply_firewall_policy(
                        FirewallPolicy::Connecting {
                            peer_endpoint: parameters.get_next_hop_endpoint(),
                        },
                    );
                    EventConsequence::SameState(
                        TunnelStateWrapper::Connecting(
                            ConnectingState {
                                retry_attempt: self.retry_attempt,
                                delay_ms: self.delay_ms,
                                phase: ConnectingPhase::ApplyingPolicy(parameters),
                            },
                        ),
                    )
                },
                Event::TunnelParameters(None) => BlockedState::enter(
                    shared_values,
                    ErrorStateCause::TunnelParameterError,
                ),
                _ => EventConsequence::SameState(TunnelStateWrapper::Connecting(self)),
            },
            ConnectingPhase::ApplyingPolicy(parameters) => match event {
                Event::FirewallPolicyApplied(Ok(_)) => {
                    shared_values.start_tunnel(parameters, self.delay_ms, CONNECT_TIMEOUT_MS);
                    EventConsequence::NewState(
                        TunnelStateWrapper::Connecting(
                            ConnectingState {
                                retry_attempt: self.retry_attempt,
                                delay_ms: self.delay_ms,
                                phase: ConnectingPhase::Running(parameters),
                            },
                        ),
                        TunnelStateTransition::Connecting(parameters.get_tunnel_endpoint()),
                    )
                },
                Event::FirewallPolicyApplied(Err(error)) => BlockedState::enter(
                    shared_values,
                    ErrorStateCause::SetFirewallPolicyError(error.policy_error()),
                ),
                _ => EventConsequence::SameState(TunnelStateWrapper::Connecting(self)),
            },
            ConnectingPhase::Running(parameters) => match event {
                Event::Command(command) => self.handle_commands(command, shared_values),
                Event::Tunnel(tunnel_event) => self.handle_tunnel_events(
                    parameters,
                    tunnel_event,
                    shared_values,
                ),
                Event::TunnelClosed(close_event) => self.handle_tunnel_close_event(
                    close_event.block_reason(),
                    shared_values,
                ),
                Event::ConnectTimeout => {
                    let next = self.next_retry_attempt();
                    Self::disconnect(shared_values, AfterDisconnect::Reconnect(next))
                },
                _ => EventConsequence::SameState(TunnelStateWrapper::Connecting(self)),
            },
        }
    }
}

} // verus!
