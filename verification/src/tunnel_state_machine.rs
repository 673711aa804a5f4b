//! The tunnel state machine: the controller that turns commands, tunnel
//! events and the answers of its collaborators into the next state and the
//! actions to carry out.
//!
//! The machine performs nothing itself. Each step hands back the actions it
//! wants carried out, in order, and the transition to publish after them.
//! An action that asks a question (a firewall policy, the DNS servers, the
//! parameters of a tunnel) is the last of its step; the caller answers it
//! with the matching [`Event`] before it hands over any other event. What
//! arrives while an answer is owed is dropped.

pub mod blocked_state;
pub mod connected_state;
pub mod connecting_state;
pub mod disconnected_state;
pub mod disconnecting_state;
pub mod laws;
pub mod shared_values;

use crate::firewall::FirewallError;
use crate::net::{Endpoint, TunnelParameters};
use crate::tunnel::{ErrorStateCause, TunnelCloseEvent, TunnelEvent};
use blocked_state::BlockedState;
use connected_state::ConnectedState;
use connecting_state::ConnectingState;
use disconnected_state::DisconnectedState;
use disconnecting_state::DisconnectingState;
use shared_values::{Action, ActionView, SharedTunnelStateValues, SharedView, actions_view};
use vstd::prelude::*;

verus! {

/// What the user, or the daemon on the user's behalf, asks of the machine.
#[derive(Debug, PartialEq, Eq)]
pub enum TunnelCommand {
    /// Bring a tunnel up.
    Connect,
    /// Take the tunnel down.
    Disconnect,
    /// Take the tunnel down and bring a new one up.
    Reconnect,
    /// Take the tunnel down and block, for the cause given.
    Block(ErrorStateCause),
    /// Let traffic to the local network pass, or stop letting it.
    AllowLan(bool),
    /// Block while no tunnel is up, or stop doing so.
    BlockWhenDisconnected(bool),
    /// The host lost its connectivity, or has it back.
    IsOffline(bool),
    /// Exclude the applications with these image paths from the tunnel.
    SetExcludedApps(Vec<Vec<u16>>),
}

/// What follows once a tunnel has closed.
#[derive(Clone, Copy, Debug, PartialEq, Eq, Structural)]
pub enum AfterDisconnect {
    /// Rest without a tunnel.
    Nothing,
    /// Block, for the cause given.
    Block(ErrorStateCause),
    /// Bring a new tunnel up; the number counts the attempts before it.
    Reconnect(u32),
}

/// A change of state, as observers see it.
#[derive(Clone, Copy, Debug, PartialEq, Eq, Structural)]
pub enum TunnelStateTransition {
    /// No tunnel.
    Disconnected,
    /// A tunnel to the endpoint is being set up.
    Connecting(Endpoint),
    /// A tunnel to the endpoint is up.
    Connected(Endpoint),
    /// The tunnel is closing.
    Disconnecting(AfterDisconnect),
    /// The machine rests for the cause given; the flag tells whether the
    /// firewall took the blocking policy.
    Error(ErrorStateCause, bool),
}

/// What the caller hands to the machine.
#[derive(Debug, PartialEq, Eq)]
pub enum Event {
    /// The next command; `None` once the command channel has closed.
    Command(Option<TunnelCommand>),
    /// The next event of the tunnel; `None` once its stream has ended.
    Tunnel(Option<TunnelEvent>),
    /// The tunnel has closed. Also what follows `Action::CloseTunnel`, at
    /// once where the tunnel had closed before.
    TunnelClosed(TunnelCloseEvent),
    /// The tunnel did not come up in the time `Action::StartTunnel` gave it.
    ConnectTimeout,
    /// The answer to `Action::GenerateTunnelParameters`.
    TunnelParameters(Option<TunnelParameters>),
    /// The answer to `Action::ApplyFirewallPolicy`.
    FirewallPolicyApplied(Result<(), FirewallError>),
    /// The answer to `Action::SetDns`: whether the servers were set.
    DnsSet(bool),
}

/// The state the machine is in, with what that state keeps.
#[derive(Debug, PartialEq, Eq)]
pub enum TunnelStateWrapper {
    Disconnected(DisconnectedState),
    Connecting(ConnectingState),
    Connected(ConnectedState),
    Disconnecting(DisconnectingState),
    Error(BlockedState),
}

/// What an event led to.
#[derive(Debug, PartialEq, Eq)]
pub enum EventConsequence {
    /// The machine is in a new state, to be published as the transition.
    NewState(TunnelStateWrapper, TunnelStateTransition),
    /// Nothing is to be published.
    SameState(TunnelStateWrapper),
    /// The machine has come to its end.
    Finished,
}

impl TunnelStateWrapper {
    /// Whether the state waits for the answer to a question: it drops every
    /// other event.
    pub open spec fn spec_awaits_answer(self) -> bool {
        match self {
            TunnelStateWrapper::Disconnected(_) => false,
            TunnelStateWrapper::Connecting(state) => !(state.phase is Running),
            TunnelStateWrapper::Connected(state) => !(state.phase is Running),
            TunnelStateWrapper::Disconnecting(_) => false,
            TunnelStateWrapper::Error(state) => state.blocking.is_none(),
        }
    }

    /// Whether the state waits for the answer to a question: it drops every
    /// other event.
    pub fn awaits_answer(&self) -> (awaits: bool)
        ensures
            awaits == self.spec_awaits_answer(),
    {
        match self {
            TunnelStateWrapper::Disconnected(_) => false,
            TunnelStateWrapper::Connecting(state) => !matches!(
                state.phase,
                connecting_state::ConnectingPhase::Running(_)
            ),
            TunnelStateWrapper::Connected(state) => !matches!(
                state.phase,
                connected_state::ConnectedPhase::Running
            ),
            TunnelStateWrapper::Disconnecting(_) => false,
            TunnelStateWrapper::Error(state) => state.blocking.is_none(),
        }
    }

    /// What an event leads to in this state.
    pub open spec fn spec_handle_event(self, event: Event, shared: SharedView) -> (
        EventConsequence,
        SharedView,
    ) {
        match self {
            TunnelStateWrapper::Disconnected(state) => state.spec_handle_event(event, shared),
            TunnelStateWrapper::Connecting(state) => state.spec_handle_event(event, shared),
            TunnelStateWrapper::Connected(state) => state.spec_handle_event(event, shared),
            TunnelStateWrapper::Disconnecting(state) => state.spec_handle_event(event, shared),
            TunnelStateWrapper::Error(state) => state.spec_handle_event(event, shared),
        }
    }

    /// Hands one event to the state.
    pub fn handle_event(
        self,
        event: Event,
        shared_values: &mut SharedTunnelStateValues,
    ) -> (consequence: EventConsequence)
        ensures
            (consequence, final(shared_values)@) == self.spec_handle_event(
                event,
                old(shared_values)@,
            ),
    {
        match self {
            TunnelStateWrapper::Disconnected(state) => state.handle_event(event, shared_values),
            TunnelStateWrapper::Connecting(state) => state.handle_event(event, shared_values),
            TunnelStateWrapper::Connected(state) => state.handle_event(event, shared_values),
            TunnelStateWrapper::Disconnecting(state) => state.handle_event(event, shared_values),
            TunnelStateWrapper::Error(state) => state.handle_event(event, shared_values),
        }
    }
}

/// What one step of the machine asks of the caller.
#[derive(Debug, PartialEq, Eq)]
pub struct Reaction {
    /// The actions to carry out, in order.
    pub actions: Vec<Action>,
    /// The transition to publish once the actions are carried out.
    pub transition: Option<TunnelStateTransition>,
    /// Whether the machine has come to its end.
    pub finished: bool,
}

/// A reaction, with its actions as a sequence of views.
pub struct ReactionView {
    pub actions: Seq<ActionView>,
    pub transition: Option<TunnelStateTransition>,
    pub finished: bool,
}

impl View for Reaction {
    type V = ReactionView;

    open spec fn view(&self) -> ReactionView {
        ReactionView {
            actions: actions_view(self.actions@),
            transition: self.transition,
            finished: self.finished,
        }
    }
}

/// The machine: the state it is in, what its states share, and what it
/// last published.
#[derive(Debug)]
pub struct TunnelStateMachine {
    current_state: TunnelStateWrapper,
    shared_values: SharedTunnelStateValues,
    last_transition: TunnelStateTransition,
    commands_closed: bool,
    finished: bool,
}

/// The machine between two steps.
pub struct MachineView {
    /// The state the machine is in.
    pub state: TunnelStateWrapper,
    /// What the states share; no action is left in it.
    pub shared: SharedView,
    /// The transition last published.
    pub last_transition: TunnelStateTransition,
    /// Whether the command channel has closed.
    pub commands_closed: bool,
    /// Whether the machine has come to its end.
    pub finished: bool,
}

/// The machine as it begins: in `Disconnected`, with the firewall set as the
/// user chose, and `Disconnected` published.
pub open spec fn spec_start(
    allow_lan: bool,
    block_when_disconnected: bool,
    is_offline: bool,
    resource_dir: String,
) -> (MachineView, ReactionView) {
    let shared = DisconnectedState::spec_set_firewall_policy(
        SharedView {
            firewall: None,
            dns_active: false,
            default_route_callback: false,
            ips_registered: false,
            tunnel_active: false,
            allow_lan,
            block_when_disconnected,
            is_offline,
            resource_dir,
            requests: Seq::empty(),
        },
    );
    (
        MachineView {
            state: TunnelStateWrapper::Disconnected(DisconnectedState {  }),
            shared: SharedView { requests: Seq::empty(), ..shared },
            last_transition: TunnelStateTransition::Disconnected,
            commands_closed: false,
            finished: false,
        },
        ReactionView {
            actions: shared.requests,
            transition: Some(TunnelStateTransition::Disconnected),
            finished: false,
        },
    )
}

/// One step of the machine.
///
/// A machine that has come to its end does nothing. Otherwise the state
/// handles the event. A new state is published unless its transition is the
/// one last published, and ends the machine where it is `Disconnected` and
/// the command channel has closed.
pub open spec fn spec_step(machine: MachineView, event: Event) -> (MachineView, ReactionView) {
    if machine.finished {
        (machine, ReactionView { actions: Seq::empty(), transition: None, finished: true })
    } else {
        let commands_closed = machine.commands_closed || event == Event::Command(None);
        let (consequence, handled) = machine.state.spec_handle_event(event, machine.shared);
        let shared = SharedView { requests: Seq::empty(), ..handled };
        match consequence {
            EventConsequence::NewState(state, transition) => {
                let finished = commands_closed && state is Disconnected;
                (
                    MachineView {
                        state,
                        shared,
                        last_transition: transition,
                        commands_closed,
                        finished,
                    },
                    ReactionView {
                        actions: handled.requests,
                        transition: if transition == machine.last_transition {
                            None
                        } else {
                            Some(transition)
                        },
                        finished,
                    },
                )
            },
            EventConsequence::SameState(state) => (
                MachineView {
                    state,
                    shared,
                    last_transition: machine.last_transition,
                    commands_closed,
                    finished: false,
                },
                ReactionView { actions: handled.requests, transition: None, finished: false },
            ),
            EventConsequence::Finished => (
                MachineView {
                    state: TunnelStateWrapper::Disconnected(DisconnectedState {  }),
                    shared,
                    last_transition: machine.last_transition,
                    commands_closed,
                    finished: true,
                },
                ReactionView { actions: handled.requests, transition: None, finished: true },
            ),
        }
    }
}

impl View for TunnelStateMachine {
    type V = MachineView;

    closed spec fn view(&self) -> MachineView {
        MachineView {
            state: self.current_state,
            shared: self.shared_values@,
            last_transition: self.last_transition,
            commands_closed: self.commands_closed,
            finished: self.finished,
        }
    }
}

impl TunnelStateMachine {
    /// Every machine is consistent, with no action left in it.
    #[verifier::type_invariant]
    spec fn is_consistent(self) -> bool {
        laws::consistent(self@)
    }

    /// Starts a machine with the user's preferences. The reaction holds
    /// what the caller has to do first.
    pub fn new(
        allow_lan: bool,
        block_when_disconnected: bool,
        is_offline: bool,
        resource_dir: String,
    ) -> (start: (TunnelStateMachine, Reaction))
        ensures
            (start.0@, start.1@) == spec_start(
                allow_lan,
                block_when_disconnected,
                is_offline,
                resource_dir,
            ),
            laws::consistent(start.0@),
    {
        let mut shared_values = SharedTunnelStateValues::new(
            allow_lan,
            block_when_disconnected,
            is_offline,
            resource_dir,
        );
        let entered = DisconnectedState::enter(&mut shared_values);
        let actions = shared_values.take_requests();
        proof {
            laws::lemma_start_consistent(
                allow_lan,
                block_when_disconnected,
                is_offline,
                resource_dir,
            );
        }
        (
            TunnelStateMachine {
                current_state: TunnelStateWrapper::Disconnected(DisconnectedState {  }),
                shared_values,
                last_transition: TunnelStateTransition::Disconnected,
                commands_closed: false,
                finished: false,
            },
            Reaction {
                actions,
                transition: Some(TunnelStateTransition::Disconnected),
                finished: false,
            },
        )
    }

    /// Hands one event to the machine, and gives back the machine after the
    /// step and what the caller has to do.
    pub fn handle_event(self, event: Event) -> (step: (TunnelStateMachine, Reaction))
        ensures
            (step.0@, step.1@) == spec_step(self@, event),
            laws::consistent(step.0@),
    {
        proof {
            use_type_invariant(&self);
            laws::lemma_step_consistent(self@, event);
        }
        if self.finished {
            let reaction = Reaction { actions: Vec::new(), transition: None, finished: true };
            assert(reaction@.actions =~= Seq::empty());
            return (self, reaction);
        }
        let TunnelStateMachine {
            current_state,
            mut shared_values,
            last_transition,
            commands_closed,
            finished: _,
        } = self;
        assert(shared_values@.requests =~= Seq::empty());
        let commands_closed = commands_closed || matches!(event, Event::Command(None));
        let consequence = current_state.handle_event(event, &mut shared_values);
        let actions = shared_values.take_requests();
        match consequence {
            EventConsequence::NewState(state, transition) => {
                let finished = commands_closed
                    && matches!(state, TunnelStateWrapper::Disconnected(_));
                let published = if transition == last_transition {
                    None
                } else {
                    Some(transition)
                };
                (
                    TunnelStateMachine {
                        current_state: state,
                        shared_values,
                        last_transition: transition,
                        commands_closed,
                        finished,
                    },
                    Reaction { actions, transition: published, finished },
                )
            },
            EventConsequence::SameState(state) => (
                TunnelStateMachine {
                    current_state: state,
                    shared_values,
                    last_transition,
                    commands_closed,
                    finished: false,
                },
                Reaction { actions, transition: None, finished: false },
            ),
            EventConsequence::Finished => (
                TunnelStateMachine {
                    current_state: TunnelStateWrapper::Disconnected(DisconnectedState {  }),
                    shared_values,
                    last_transition,
                    commands_closed,
                    finished: true,
                },
                Reaction { actions, transition: None, finished: true },
            ),
        }
    }

    /// The state the machine is in.
    pub fn current_state(&self) -> (state: &TunnelStateWrapper)
        ensures
            *state == self@.state,
    {
        &self.current_state
    }

    /// What the states share.
    pub fn shared_values(&self) -> (shared_values: &SharedTunnelStateValues)
        ensures
            shared_values@ == self@.shared,
    {
        &self.shared_values
    }

    /// The transition last published.
    pub fn last_transition(&self) -> (transition: TunnelStateTransition)
        ensures
            transition == self@.last_transition,
    {
        self.last_transition
    }

    /// Whether the machine has come to its end.
    pub fn is_finished(&self) -> (finished: bool)
        ensures
            finished == self@.finished,
    {
        self.finished
    }
}

} // verus!
