use talpid_core::firewall::{FirewallError, FirewallPolicy};
use talpid_core::net::{Endpoint, IpAddress, Ipv4Address, TransportProtocol, TunnelParameters};
use talpid_core::tunnel::{
    ErrorStateCause, FirewallPolicyError, TunnelCloseEvent, TunnelEvent, TunnelMetadata,
};
use talpid_core::tunnel_state_machine::connected_state::ConnectedPhase;
use talpid_core::tunnel_state_machine::connecting_state::ConnectingPhase;
use talpid_core::tunnel_state_machine::shared_values::Action;
use talpid_core::tunnel_state_machine::{
    Event, Reaction, TunnelCommand, TunnelStateMachine, TunnelStateTransition, TunnelStateWrapper,
};

/// A small generator of numbers that gives the same run for the same seed.
struct Dice(u64);

impl Dice {
    fn roll(&mut self, sides: u64) -> u64 {
        self.0 = self.0.wrapping_mul(6364136223846793005).wrapping_add(1442695040888963407);
        (self.0 >> 33) % sides
    }
}

fn parameters(dice: &mut Dice) -> TunnelParameters {
    let endpoint = |last: u8| Endpoint {
        address: IpAddress::V4(Ipv4Address::new(185, 213, 154, last)),
        port: 1194,
        protocol: TransportProtocol::Udp,
    };
    TunnelParameters {
        tunnel_endpoint: endpoint(dice.roll(3) as u8),
        next_hop_endpoint: endpoint(10 + dice.roll(3) as u8),
        proxy_endpoint: None,
    }
}

fn metadata(dice: &mut Dice) -> TunnelMetadata {
    TunnelMetadata {
        interface: format!("utun{}", dice.roll(3)),
        ips: vec![IpAddress::V4(Ipv4Address::new(10, 0, 0, 7))],
        ipv4_gateway: Ipv4Address::new(10, 0, 0, 1),
        ipv6_gateway: None,
    }
}

fn any_event(dice: &mut Dice) -> Event {
    match dice.roll(16) {
        0 | 1 | 2 => Event::Command(Some(TunnelCommand::Connect)),
        3 => Event::Command(Some(TunnelCommand::Disconnect)),
        4 => Event::Command(Some(TunnelCommand::Reconnect)),
        5 => Event::Command(Some(TunnelCommand::Block(ErrorStateCause::Ipv6Unavailable))),
        6 => Event::Command(Some(TunnelCommand::AllowLan(dice.roll(2) == 0))),
        7 => Event::Command(Some(TunnelCommand::BlockWhenDisconnected(dice.roll(2) == 0))),
        8 => Event::Command(Some(TunnelCommand::IsOffline(dice.roll(3) == 0))),
        9 => Event::Command(Some(TunnelCommand::SetExcludedApps(vec![vec![0x61, 0x62]]))),
        10 | 11 | 12 => Event::Tunnel(Some(TunnelEvent::Up(metadata(dice)))),
        13 => Event::Tunnel(Some(TunnelEvent::Down)),
        14 => Event::Tunnel(Some(TunnelEvent::AuthFailed(String::from("bad creds")))),
        _ => Event::ConnectTimeout,
    }
}

/// The answer that the last action of a reaction asks for, if it asks.
fn answer(reaction: &Reaction, dice: &mut Dice) -> Option<Event> {
    let failed = dice.roll(5) == 0;
    match reaction.actions.last()? {
        Action::ApplyFirewallPolicy(_) if failed => Some(Event::FirewallPolicyApplied(Err(
            FirewallError::ApplyingConnectedPolicy(FirewallPolicyError::LockedByAnotherApplication),
        ))),
        Action::ApplyFirewallPolicy(_) => Some(Event::FirewallPolicyApplied(Ok(()))),
        Action::SetDns { .. } => Some(Event::DnsSet(!failed)),
        Action::GenerateTunnelParameters { .. } if failed => Some(Event::TunnelParameters(None)),
        Action::GenerateTunnelParameters { .. } => {
            Some(Event::TunnelParameters(Some(parameters(dice))))
        }
        Action::CloseTunnel => Some(Event::TunnelClosed(TunnelCloseEvent::Exited(None))),
        _ => None,
    }
}

fn edge(from: TunnelStateTransition, to: TunnelStateTransition) -> bool {
    type T = TunnelStateTransition;
    match (from, to) {
        (T::Disconnected, T::Connecting(_)) | (T::Disconnected, T::Error(..)) => true,
        (T::Connecting(_), T::Connected(_)) | (T::Connecting(_), T::Disconnecting(_)) => true,
        (T::Connected(_), T::Disconnecting(_)) => true,
        (T::Disconnecting(_), T::Disconnected) => true,
        (T::Disconnecting(_), T::Connecting(_)) | (T::Disconnecting(_), T::Error(..)) => true,
        (T::Error(..), T::Disconnected) | (T::Error(..), T::Connecting(_)) => true,
        (T::Error(..), T::Error(..)) => from != to,
        _ => false,
    }
}

/// What the firewall should have been handed last when `transition` is
/// published.
fn policy_fits(machine: &TunnelStateMachine, transition: TunnelStateTransition) -> bool {
    let shared = machine.shared_values();
    let policy = &shared.firewall.policy;
    match (transition, machine.current_state()) {
        (TunnelStateTransition::Disconnected, TunnelStateWrapper::Disconnected(_)) => {
            if shared.block_when_disconnected {
                *policy == Some(FirewallPolicy::Blocked { allow_lan: shared.allow_lan })
            } else {
                policy.is_none()
            }
        }
        (TunnelStateTransition::Connecting(endpoint), TunnelStateWrapper::Connecting(state)) => {
            match state.phase {
                ConnectingPhase::Running(parameters) => {
                    parameters.tunnel_endpoint == endpoint
                        && *policy
                            == Some(FirewallPolicy::Connecting {
                                peer_endpoint: parameters.next_hop_endpoint,
                            })
                }
                _ => false,
            }
        }
        (TunnelStateTransition::Connected(endpoint), TunnelStateWrapper::Connected(state)) => {
            state.phase == ConnectedPhase::Running
                && state.tunnel_parameters.tunnel_endpoint == endpoint
                && *policy
                    == Some(FirewallPolicy::Connected {
                        peer_endpoint: state.tunnel_parameters.next_hop_endpoint,
                        tunnel_interface: state.metadata.interface.clone(),
                        allow_lan: shared.allow_lan,
                    })
        }
        (TunnelStateTransition::Disconnecting(after), TunnelStateWrapper::Disconnecting(state)) => {
            state.after_disconnect == after
                && matches!(
                    policy,
                    Some(FirewallPolicy::Connecting { .. }) | Some(FirewallPolicy::Connected { .. })
                )
        }
        (TunnelStateTransition::Error(cause, blocking), TunnelStateWrapper::Error(state)) => {
            state.block_reason == cause
                && state.blocking == Some(blocking)
                && *policy == Some(FirewallPolicy::Blocked { allow_lan: shared.allow_lan })
        }
        _ => false,
    }
}

/// Runs the machine on events that the seed picks, and looks at it after
/// every step.
fn run(seed: u64, steps: usize) -> Vec<TunnelStateTransition> {
    let mut dice = Dice(seed);
    let (mut machine, mut reaction) = TunnelStateMachine::new(
        dice.roll(2) == 0,
        dice.roll(2) == 0,
        dice.roll(4) == 0,
        String::from("/opt/vpn"),
    );
    let mut published = vec![TunnelStateTransition::Disconnected];
    let mut connected_without_reset = false;
    for _ in 0..steps {
        let event = answer(&reaction, &mut dice).unwrap_or_else(|| any_event(&mut dice));
        let was_offline = machine.shared_values().is_offline;
        let step = machine.handle_event(event);
        machine = step.0;
        reaction = step.1;

        let shared = machine.shared_values();
        if reaction.actions.contains(&Action::ResetDns) {
            connected_without_reset = false;
        }
        if let Some(transition) = reaction.transition {
            let last = *published.last().unwrap();
            assert!(edge(last, transition), "{:?} -> {:?}", last, transition);
            assert!(policy_fits(&machine, transition), "{:?}: {:?}", transition, shared);
            let connects = matches!(
                transition,
                TunnelStateTransition::Connecting(_) | TunnelStateTransition::Connected(_)
            );
            assert!(!(connects && (was_offline || shared.is_offline)));
            if let TunnelStateTransition::Connected(_) = transition {
                connected_without_reset = true;
            }
            published.push(transition);
        }
        assert_eq!(machine.last_transition(), *published.last().unwrap());
        let state = machine.current_state();
        let connected = matches!(state, TunnelStateWrapper::Connected(_));
        if shared.is_offline {
            assert!(!connected && !matches!(state, TunnelStateWrapper::Connecting(_)));
        }
        if let TunnelStateWrapper::Disconnected(_) = state {
            assert!(policy_fits(&machine, TunnelStateTransition::Disconnected));
            assert!(!connected_without_reset);
        }
        if machine.last_transition() != TunnelStateTransition::Disconnected {
            assert!(shared.firewall.policy.is_some());
        }
        assert!(connected || !shared.dns_monitor.active);
        assert!(connected || !shared.route_manager.default_route_callback);
        assert!(connected || !shared.split_tunnel.ips_registered);
        assert_eq!(shared.dns_monitor.active, connected_without_reset);
        assert!(shared.requests.is_empty());
        let asking = reaction.actions.iter().filter(|action| action.asks()).count();
        assert!(asking <= 1);
        assert!(asking == 0 || reaction.actions.last().unwrap().asks());
        assert!(asking == 1 || !state.awaits_answer());
        assert!(!reaction.finished);
    }
    published
}

#[test]
fn runs_keep_the_machine_consistent() {
    let mut reached = [false; 5];
    for seed in 0..400 {
        for transition in run(seed, 300) {
            let kind = match transition {
                TunnelStateTransition::Disconnected => 0,
                TunnelStateTransition::Connecting(_) => 1,
                TunnelStateTransition::Connected(_) => 2,
                TunnelStateTransition::Disconnecting(_) => 3,
                TunnelStateTransition::Error(..) => 4,
            };
            reached[kind] = true;
        }
    }
    assert_eq!(reached, [true; 5]);
}

#[test]
fn same_seed_gives_the_same_run() {
    assert_eq!(run(7, 200), run(7, 200));
    assert!(run(7, 200).len() > 10);
}
