use talpid_core::firewall::{FirewallError, FirewallPolicy};
use talpid_core::net::{
    Endpoint, IpAddress, Ipv4Address, Ipv6Address, TransportProtocol, TunnelParameters,
};
use talpid_core::tunnel::{
    ErrorStateCause, FirewallPolicyError, TunnelCloseEvent, TunnelEvent, TunnelMetadata,
};
use talpid_core::tunnel_state_machine::blocked_state::BlockedState;
use talpid_core::tunnel_state_machine::connected_state::{ConnectedPhase, ConnectedState};
use talpid_core::tunnel_state_machine::connecting_state::{
    backoff_delay_ms, ConnectingPhase, ConnectingState, CONNECT_TIMEOUT_MS,
};
use talpid_core::tunnel_state_machine::disconnected_state::DisconnectedState;
use talpid_core::tunnel_state_machine::disconnecting_state::DisconnectingState;
use talpid_core::tunnel_state_machine::shared_values::Action;
use talpid_core::tunnel_state_machine::{
    AfterDisconnect, Event, Reaction, TunnelCommand, TunnelStateMachine, TunnelStateTransition,
    TunnelStateWrapper,
};

fn relay() -> Endpoint {
    Endpoint {
        address: IpAddress::V4(Ipv4Address::new(185, 213, 154, 68)),
        port: 1194,
        protocol: TransportProtocol::Udp,
    }
}

fn bridge() -> Endpoint {
    Endpoint {
        address: IpAddress::V4(Ipv4Address::new(193, 138, 218, 71)),
        port: 443,
        protocol: TransportProtocol::Tcp,
    }
}

fn parameters() -> TunnelParameters {
    TunnelParameters {
        tunnel_endpoint: relay(),
        next_hop_endpoint: bridge(),
        proxy_endpoint: Some(bridge()),
    }
}

fn metadata() -> TunnelMetadata {
    TunnelMetadata {
        interface: String::from("utun0"),
        ips: vec![IpAddress::V4(Ipv4Address::new(10, 0, 0, 7))],
        ipv4_gateway: Ipv4Address::new(10, 0, 0, 1),
        ipv6_gateway: None,
    }
}

fn connecting_policy() -> FirewallPolicy {
    FirewallPolicy::Connecting { peer_endpoint: bridge() }
}

fn connected_policy(allow_lan: bool) -> FirewallPolicy {
    FirewallPolicy::Connected {
        peer_endpoint: bridge(),
        tunnel_interface: String::from("utun0"),
        allow_lan,
    }
}

fn start_tunnel(delay_ms: u64) -> Action {
    Action::StartTunnel {
        parameters: parameters(),
        resource_dir: String::from("/opt/vpn"),
        delay_ms,
        timeout_ms: 120_000,
    }
}

fn command(command: TunnelCommand) -> Event {
    Event::Command(Some(command))
}

/// Hands the events to the machine one by one and collects what it asks for.
fn feed(
    mut machine: TunnelStateMachine,
    events: Vec<Event>,
) -> (TunnelStateMachine, Vec<Action>, Vec<TunnelStateTransition>) {
    let mut actions = Vec::new();
    let mut transitions = Vec::new();
    for event in events {
        let (next, reaction) = machine.handle_event(event);
        machine = next;
        actions.extend(reaction.actions);
        transitions.extend(reaction.transition);
    }
    (machine, actions, transitions)
}

fn start(block_when_disconnected: bool) -> TunnelStateMachine {
    TunnelStateMachine::new(false, block_when_disconnected, false, String::from("/opt/vpn")).0
}

fn events_to_connecting() -> Vec<Event> {
    vec![
        command(TunnelCommand::Connect),
        Event::TunnelParameters(Some(parameters())),
        Event::FirewallPolicyApplied(Ok(())),
    ]
}

fn events_to_connected() -> Vec<Event> {
    let mut events = events_to_connecting();
    events.push(Event::Tunnel(Some(TunnelEvent::Up(metadata()))));
    events.push(Event::FirewallPolicyApplied(Ok(())));
    events.push(Event::DnsSet(true));
    events
}

#[test]
fn machine_starts_disconnected_without_policy() {
    let (machine, reaction) = TunnelStateMachine::new(true, false, false, String::from("/opt/vpn"));
    assert_eq!(
        reaction,
        Reaction {
            actions: vec![Action::ResetFirewall],
            transition: Some(TunnelStateTransition::Disconnected),
            finished: false,
        }
    );
    assert_eq!(
        machine.current_state(),
        &TunnelStateWrapper::Disconnected(DisconnectedState {})
    );
    assert_eq!(machine.shared_values().firewall.policy, None);
    assert_eq!(machine.shared_values().resource_dir, "/opt/vpn");
    assert!(machine.shared_values().allow_lan);
    assert!(!machine.is_finished());
    assert_eq!(machine.last_transition(), TunnelStateTransition::Disconnected);
}

#[test]
fn machine_starts_blocking_when_asked_to() {
    let (machine, reaction) = TunnelStateMachine::new(true, true, false, String::new());
    assert_eq!(
        reaction.actions,
        vec![Action::ApplyFirewallPolicy(FirewallPolicy::Blocked { allow_lan: true })]
    );
    assert_eq!(
        machine.shared_values().firewall.policy,
        Some(FirewallPolicy::Blocked { allow_lan: true })
    );
}

#[test]
fn happy_path() {
    let (machine, actions, transitions) = feed(start(false), events_to_connected());
    assert_eq!(
        transitions,
        vec![
            TunnelStateTransition::Connecting(relay()),
            TunnelStateTransition::Connected(relay()),
        ]
    );
    assert_eq!(
        actions,
        vec![
            Action::GenerateTunnelParameters { retry_attempt: 0 },
            Action::ApplyFirewallPolicy(connecting_policy()),
            Action::StartTunnel {
                parameters: parameters(),
                resource_dir: String::from("/opt/vpn"),
                delay_ms: 0,
                timeout_ms: CONNECT_TIMEOUT_MS,
            },
            Action::ApplyFirewallPolicy(connected_policy(false)),
            Action::SetDns {
                interface: String::from("utun0"),
                servers: vec![IpAddress::V4(Ipv4Address::new(10, 0, 0, 1))],
            },
            Action::RegisterIps { tunnel_ipv4: Ipv4Address::new(10, 0, 0, 7), tunnel_ipv6: None },
            Action::AddDefaultRouteCallback,
        ]
    );
    assert_eq!(machine.shared_values().firewall.policy, Some(connected_policy(false)));
    assert!(machine.shared_values().dns_monitor.active);
    assert_eq!(
        machine.current_state(),
        &TunnelStateWrapper::Connected(ConnectedState {
            metadata: metadata(),
            tunnel_parameters: parameters(),
            phase: ConnectedPhase::Running,
        })
    );
}

#[test]
fn nothing_is_published_while_an_entry_waits_for_answers() {
    let (machine, reaction) = start(false).handle_event(command(TunnelCommand::Connect));
    assert_eq!(reaction.transition, None);
    assert_eq!(
        machine.current_state(),
        &TunnelStateWrapper::Connecting(ConnectingState {
            retry_attempt: 0,
            delay_ms: 0,
            phase: ConnectingPhase::GeneratingParameters,
        })
    );
    let (machine, reaction) = machine.handle_event(Event::TunnelParameters(Some(parameters())));
    assert_eq!(reaction.transition, None);
    assert_eq!(machine.last_transition(), TunnelStateTransition::Disconnected);
    assert_eq!(
        machine.current_state(),
        &TunnelStateWrapper::Connecting(ConnectingState {
            retry_attempt: 0,
            delay_ms: 0,
            phase: ConnectingPhase::ApplyingPolicy(parameters()),
        })
    );
}

#[test]
fn states_wait_for_answers_while_they_are_entered() {
    let mut machine = start(false);
    let mut waits = vec![machine.current_state().awaits_answer()];
    let mut events = events_to_connected();
    events.push(command(TunnelCommand::AllowLan(true)));
    events.push(Event::FirewallPolicyApplied(Ok(())));
    events.push(command(TunnelCommand::Block(ErrorStateCause::AuthFailed)));
    events.push(Event::TunnelClosed(TunnelCloseEvent::Exited(None)));
    events.push(Event::FirewallPolicyApplied(Ok(())));
    for event in events {
        machine = machine.handle_event(event).0;
        waits.push(machine.current_state().awaits_answer());
    }
    assert_eq!(
        waits,
        [false, true, true, false, true, true, false, true, false, false, true, false]
    );
}

#[test]
fn events_are_dropped_while_an_answer_is_owed() {
    let (machine, _) = start(false).handle_event(command(TunnelCommand::Connect));
    let (machine, actions, transitions) = feed(
        machine,
        vec![
            command(TunnelCommand::Disconnect),
            command(TunnelCommand::IsOffline(true)),
            Event::Tunnel(Some(TunnelEvent::Down)),
            Event::DnsSet(true),
        ],
    );
    assert!(actions.is_empty());
    assert!(transitions.is_empty());
    assert!(!machine.shared_values().is_offline);
    assert!(matches!(machine.current_state(), TunnelStateWrapper::Connecting(_)));
}

#[test]
fn auth_failure() {
    let mut events = events_to_connecting();
    events.push(Event::Tunnel(Some(TunnelEvent::AuthFailed(String::from("bad creds")))));
    events.push(Event::TunnelClosed(TunnelCloseEvent::Exited(None)));
    events.push(Event::FirewallPolicyApplied(Ok(())));
    let (machine, actions, transitions) = feed(start(false), events);
    assert_eq!(
        transitions,
        vec![
            TunnelStateTransition::Connecting(relay()),
            TunnelStateTransition::Disconnecting(AfterDisconnect::Block(
                ErrorStateCause::AuthFailed
            )),
            TunnelStateTransition::Error(ErrorStateCause::AuthFailed, true),
        ]
    );
    assert_eq!(
        actions[3..],
        [
            Action::ClearRoutes,
            Action::CloseTunnel,
            Action::ApplyFirewallPolicy(FirewallPolicy::Blocked { allow_lan: false }),
        ]
    );
    assert_eq!(
        machine.current_state(),
        &TunnelStateWrapper::Error(BlockedState {
            block_reason: ErrorStateCause::AuthFailed,
            blocking: Some(true),
        })
    );
}

#[test]
fn offline_during_connect() {
    let mut events = events_to_connecting();
    events.push(command(TunnelCommand::IsOffline(true)));
    events.push(Event::TunnelClosed(TunnelCloseEvent::Exited(None)));
    events.push(Event::FirewallPolicyApplied(Ok(())));
    let (machine, _, transitions) = feed(start(false), events);
    assert_eq!(
        transitions,
        vec![
            TunnelStateTransition::Connecting(relay()),
            TunnelStateTransition::Disconnecting(AfterDisconnect::Block(
                ErrorStateCause::IsOffline
            )),
            TunnelStateTransition::Error(ErrorStateCause::IsOffline, true),
        ]
    );

    let (machine, actions, transitions) = feed(
        machine,
        vec![command(TunnelCommand::IsOffline(false)), Event::FirewallPolicyApplied(Ok(()))],
    );
    assert!(transitions.is_empty());
    assert_eq!(
        actions,
        vec![Action::ApplyFirewallPolicy(FirewallPolicy::Blocked { allow_lan: false })]
    );
    assert_eq!(
        machine.current_state(),
        &TunnelStateWrapper::Error(BlockedState {
            block_reason: ErrorStateCause::IsOffline,
            blocking: Some(true),
        })
    );
    assert!(!machine.shared_values().is_offline);

    let (_, _, transitions) = feed(machine, events_to_connecting());
    assert_eq!(transitions, vec![TunnelStateTransition::Connecting(relay())]);
}

#[test]
fn reconnect_on_tunnel_down() {
    let (machine, _, _) = feed(start(false), events_to_connected());
    let (machine, actions, transitions) = feed(
        machine,
        vec![
            Event::Tunnel(Some(TunnelEvent::Down)),
            Event::TunnelClosed(TunnelCloseEvent::Exited(None)),
            Event::TunnelParameters(Some(parameters())),
            Event::FirewallPolicyApplied(Ok(())),
            Event::Tunnel(Some(TunnelEvent::Up(metadata()))),
            Event::FirewallPolicyApplied(Ok(())),
            Event::DnsSet(true),
        ],
    );
    assert_eq!(
        transitions,
        vec![
            TunnelStateTransition::Disconnecting(AfterDisconnect::Reconnect(0)),
            TunnelStateTransition::Connecting(relay()),
            TunnelStateTransition::Connected(relay()),
        ]
    );
    assert_eq!(
        actions[..7],
        [
            Action::ResetDns,
            Action::ClearDefaultRouteCallbacks,
            Action::ClearRoutes,
            Action::UnregisterIps,
            Action::CloseTunnel,
            Action::GenerateTunnelParameters { retry_attempt: 0 },
            Action::ApplyFirewallPolicy(connecting_policy()),
        ]
    );
    assert_eq!(
        actions[7],
        start_tunnel(50)
    );
    let reset = actions.iter().position(|action| *action == Action::ResetDns);
    let set = actions.iter().position(|action| matches!(action, Action::SetDns { .. }));
    assert!(reset < set);
    assert!(machine.shared_values().dns_monitor.active);
}

#[test]
fn allow_lan_toggle_while_connected() {
    let (machine, _, _) = feed(start(false), events_to_connected());
    let (machine, reaction) = machine.handle_event(command(TunnelCommand::AllowLan(true)));
    assert_eq!(reaction.transition, None);
    assert_eq!(reaction.actions, vec![Action::ApplyFirewallPolicy(connected_policy(true))]);
    let (machine, reaction) = machine.handle_event(Event::FirewallPolicyApplied(Ok(())));
    assert_eq!(reaction, Reaction { actions: vec![], transition: None, finished: false });
    assert_eq!(machine.last_transition(), TunnelStateTransition::Connected(relay()));
    assert_eq!(machine.shared_values().firewall.policy, Some(connected_policy(true)));
    assert_eq!(
        machine.current_state(),
        &TunnelStateWrapper::Connected(ConnectedState {
            metadata: metadata(),
            tunnel_parameters: parameters(),
            phase: ConnectedPhase::Running,
        })
    );
}

#[test]
fn allow_lan_toggle_refused_by_a_locked_firewall() {
    let (machine, _, _) = feed(start(false), events_to_connected());
    let (machine, _) = machine.handle_event(command(TunnelCommand::AllowLan(true)));
    let (machine, reaction) = machine.handle_event(Event::FirewallPolicyApplied(Err(
        FirewallError::ApplyingConnectedPolicy(FirewallPolicyError::LockedByAnotherApplication),
    )));
    let after = AfterDisconnect::Block(ErrorStateCause::SetFirewallPolicyError(
        FirewallPolicyError::LockedByAnotherApplication,
    ));
    assert_eq!(reaction.transition, Some(TunnelStateTransition::Disconnecting(after)));
    assert_eq!(
        reaction.actions,
        vec![
            Action::ResetDns,
            Action::ClearDefaultRouteCallbacks,
            Action::ClearRoutes,
            Action::UnregisterIps,
            Action::CloseTunnel,
        ]
    );
    assert_eq!(
        machine.current_state(),
        &TunnelStateWrapper::Disconnecting(DisconnectingState { after_disconnect: after })
    );
    assert!(!machine.shared_values().dns_monitor.active);
}

#[test]
fn refused_policy_on_entering_connected_blocks_without_resets() {
    let mut events = events_to_connecting();
    events.push(Event::Tunnel(Some(TunnelEvent::Up(metadata()))));
    let (machine, _, _) = feed(start(false), events);
    let (_, reaction) = machine
        .handle_event(Event::FirewallPolicyApplied(Err(FirewallError::ApplyingBlockedPolicy)));
    assert_eq!(reaction.actions, vec![Action::CloseTunnel]);
    assert_eq!(
        reaction.transition,
        Some(TunnelStateTransition::Disconnecting(AfterDisconnect::Block(
            ErrorStateCause::SetFirewallPolicyError(FirewallPolicyError::Generic)
        )))
    );
}

#[test]
fn dns_failure_on_entering_connected_blocks() {
    let mut events = events_to_connecting();
    events.push(Event::Tunnel(Some(TunnelEvent::Up(metadata()))));
    events.push(Event::FirewallPolicyApplied(Ok(())));
    let (machine, _, _) = feed(start(false), events);
    let (machine, reaction) = machine.handle_event(Event::DnsSet(false));
    assert_eq!(reaction.actions, vec![Action::CloseTunnel]);
    assert_eq!(
        reaction.transition,
        Some(TunnelStateTransition::Disconnecting(AfterDisconnect::Block(
            ErrorStateCause::SetDnsError
        )))
    );
    assert!(!machine.shared_values().dns_monitor.active);
}

#[test]
fn missing_parameters_lead_to_the_error_state() {
    let (machine, actions, transitions) = feed(
        start(false),
        vec![
            command(TunnelCommand::Connect),
            Event::TunnelParameters(None),
            Event::FirewallPolicyApplied(Ok(())),
        ],
    );
    assert_eq!(
        transitions,
        vec![TunnelStateTransition::Error(ErrorStateCause::TunnelParameterError, true)]
    );
    assert_eq!(
        actions,
        vec![
            Action::GenerateTunnelParameters { retry_attempt: 0 },
            Action::ApplyFirewallPolicy(FirewallPolicy::Blocked { allow_lan: false }),
        ]
    );
    assert!(matches!(machine.current_state(), TunnelStateWrapper::Error(_)));
}

#[test]
fn refused_connecting_policy_leads_to_the_error_state() {
    let (_, _, transitions) = feed(
        start(false),
        vec![
            command(TunnelCommand::Connect),
            Event::TunnelParameters(Some(parameters())),
            Event::FirewallPolicyApplied(Err(FirewallError::ApplyingConnectingPolicy)),
            Event::FirewallPolicyApplied(Err(FirewallError::ApplyingBlockedPolicy)),
        ],
    );
    assert_eq!(
        transitions,
        vec![TunnelStateTransition::Error(
            ErrorStateCause::SetFirewallPolicyError(FirewallPolicyError::Generic),
            false,
        )]
    );
}

#[test]
fn connect_while_offline_rests_in_the_error_state() {
    let machine = TunnelStateMachine::new(false, false, true, String::new()).0;
    let (machine, actions, transitions) = feed(
        machine,
        vec![command(TunnelCommand::Connect), Event::FirewallPolicyApplied(Ok(()))],
    );
    assert_eq!(
        actions,
        vec![Action::ApplyFirewallPolicy(FirewallPolicy::Blocked { allow_lan: false })]
    );
    assert_eq!(transitions, vec![TunnelStateTransition::Error(ErrorStateCause::IsOffline, true)]);

    let (_, _, transitions) = feed(
        machine,
        vec![command(TunnelCommand::Connect), Event::FirewallPolicyApplied(Ok(()))],
    );
    assert!(transitions.is_empty());
}

#[test]
fn going_offline_while_connected_closes_the_tunnel() {
    let (machine, _, _) = feed(start(false), events_to_connected());
    let (machine, _, transitions) = feed(
        machine,
        vec![
            command(TunnelCommand::IsOffline(true)),
            command(TunnelCommand::Connect),
            Event::TunnelClosed(TunnelCloseEvent::MonitorStopped),
            Event::FirewallPolicyApplied(Ok(())),
        ],
    );
    assert_eq!(
        transitions,
        vec![
            TunnelStateTransition::Disconnecting(AfterDisconnect::Block(
                ErrorStateCause::IsOffline
            )),
            TunnelStateTransition::Error(ErrorStateCause::IsOffline, true),
        ]
    );
    assert!(machine.shared_values().is_offline);
}

#[test]
fn block_when_disconnected_keeps_the_blocking_policy() {
    let machine = start(true);
    let blocked = |allow_lan| Some(FirewallPolicy::Blocked { allow_lan });
    assert_eq!(machine.shared_values().firewall.policy, blocked(false));

    let (machine, reaction) = machine.handle_event(command(TunnelCommand::AllowLan(true)));
    assert_eq!(
        reaction.actions,
        vec![Action::ApplyFirewallPolicy(FirewallPolicy::Blocked { allow_lan: true })]
    );
    assert_eq!(machine.shared_values().firewall.policy, blocked(true));

    let (machine, reaction) = machine.handle_event(command(TunnelCommand::AllowLan(true)));
    assert!(reaction.actions.is_empty());

    let (machine, reaction) =
        machine.handle_event(command(TunnelCommand::BlockWhenDisconnected(false)));
    assert_eq!(reaction.actions, vec![Action::ResetFirewall]);
    assert_eq!(machine.shared_values().firewall.policy, None);

    let (machine, reaction) = machine.handle_event(command(TunnelCommand::AllowLan(false)));
    assert!(reaction.actions.is_empty());
    assert!(!machine.shared_values().allow_lan);

    let (machine, reaction) =
        machine.handle_event(command(TunnelCommand::BlockWhenDisconnected(true)));
    assert_eq!(
        reaction.actions,
        vec![Action::ApplyFirewallPolicy(FirewallPolicy::Blocked { allow_lan: false })]
    );
    assert_eq!(machine.shared_values().firewall.policy, blocked(false));
}

#[test]
fn disconnecting_from_connected_with_blocking_ends_blocked() {
    let (machine, _, _) = feed(start(false), events_to_connected());
    let (machine, actions, transitions) = feed(
        machine,
        vec![
            command(TunnelCommand::BlockWhenDisconnected(true)),
            command(TunnelCommand::Disconnect),
            Event::TunnelClosed(TunnelCloseEvent::Exited(None)),
        ],
    );
    assert_eq!(
        transitions,
        vec![
            TunnelStateTransition::Disconnecting(AfterDisconnect::Nothing),
            TunnelStateTransition::Disconnected,
        ]
    );
    assert_eq!(
        actions.last(),
        Some(&Action::ApplyFirewallPolicy(FirewallPolicy::Blocked { allow_lan: false }))
    );
    assert_eq!(
        machine.shared_values().firewall.policy,
        Some(FirewallPolicy::Blocked { allow_lan: false })
    );
    assert!(!machine.shared_values().dns_monitor.active);
}

#[test]
fn commands_only_change_what_follows_a_closing_tunnel() {
    let (machine, _, _) = feed(start(false), events_to_connected());
    let (machine, _) = machine.handle_event(command(TunnelCommand::Disconnect));
    let after = |machine: &TunnelStateMachine| match machine.current_state() {
        TunnelStateWrapper::Disconnecting(state) => state.after_disconnect,
        other => panic!("not closing: {:?}", other),
    };
    assert_eq!(after(&machine), AfterDisconnect::Nothing);

    let (machine, reaction) = machine.handle_event(command(TunnelCommand::Reconnect));
    assert_eq!(reaction, Reaction { actions: vec![], transition: None, finished: false });
    assert_eq!(after(&machine), AfterDisconnect::Reconnect(0));

    let (machine, _) =
        machine.handle_event(command(TunnelCommand::Block(ErrorStateCause::Ipv6Unavailable)));
    assert_eq!(after(&machine), AfterDisconnect::Block(ErrorStateCause::Ipv6Unavailable));

    let (machine, _) = machine.handle_event(command(TunnelCommand::Connect));
    assert_eq!(after(&machine), AfterDisconnect::Block(ErrorStateCause::Ipv6Unavailable));

    let (machine, _) = machine.handle_event(command(TunnelCommand::Disconnect));
    assert_eq!(after(&machine), AfterDisconnect::Nothing);

    let (machine, _) = machine.handle_event(command(TunnelCommand::Connect));
    assert_eq!(after(&machine), AfterDisconnect::Reconnect(0));
    assert_eq!(
        machine.last_transition(),
        TunnelStateTransition::Disconnecting(AfterDisconnect::Nothing)
    );
}

#[test]
fn tunnel_that_closes_with_a_cause_blocks() {
    let (machine, _, _) = feed(start(false), events_to_connected());
    let (_, _, transitions) = feed(
        machine,
        vec![
            Event::TunnelClosed(TunnelCloseEvent::Exited(Some(
                ErrorStateCause::VpnPermissionDenied,
            ))),
            Event::TunnelClosed(TunnelCloseEvent::Exited(None)),
            Event::FirewallPolicyApplied(Ok(())),
        ],
    );
    assert_eq!(
        transitions,
        vec![
            TunnelStateTransition::Disconnecting(AfterDisconnect::Block(
                ErrorStateCause::VpnPermissionDenied
            )),
            TunnelStateTransition::Error(ErrorStateCause::VpnPermissionDenied, true),
        ]
    );
}

#[test]
fn tunnel_that_cannot_be_started_blocks() {
    let mut events = events_to_connecting();
    events.push(Event::TunnelClosed(TunnelCloseEvent::Exited(Some(
        ErrorStateCause::StartTunnelError,
    ))));
    events.push(Event::TunnelClosed(TunnelCloseEvent::Exited(None)));
    events.push(Event::FirewallPolicyApplied(Ok(())));
    let (_, _, transitions) = feed(start(false), events);
    assert_eq!(
        transitions,
        vec![
            TunnelStateTransition::Connecting(relay()),
            TunnelStateTransition::Disconnecting(AfterDisconnect::Block(
                ErrorStateCause::StartTunnelError
            )),
            TunnelStateTransition::Error(ErrorStateCause::StartTunnelError, true),
        ]
    );
}

#[test]
fn failed_attempts_are_counted_and_delayed() {
    let (machine, _, _) = feed(start(false), events_to_connecting());
    let mut events = vec![
        Event::ConnectTimeout,
        Event::TunnelClosed(TunnelCloseEvent::Exited(None)),
        Event::TunnelParameters(Some(parameters())),
        Event::FirewallPolicyApplied(Ok(())),
        Event::TunnelClosed(TunnelCloseEvent::MonitorStopped),
        Event::TunnelClosed(TunnelCloseEvent::MonitorStopped),
    ];
    events.push(Event::TunnelParameters(Some(parameters())));
    events.push(Event::FirewallPolicyApplied(Ok(())));
    let (_, actions, transitions) = feed(machine, events);
    assert_eq!(
        transitions,
        vec![
            TunnelStateTransition::Disconnecting(AfterDisconnect::Reconnect(1)),
            TunnelStateTransition::Connecting(relay()),
            TunnelStateTransition::Disconnecting(AfterDisconnect::Reconnect(2)),
            TunnelStateTransition::Connecting(relay()),
        ]
    );
    let starts: Vec<&Action> =
        actions.iter().filter(|action| matches!(action, Action::StartTunnel { .. })).collect();
    assert_eq!(
        starts,
        vec![
            &start_tunnel(100),
            &start_tunnel(200),
        ]
    );
    assert!(actions.contains(&Action::GenerateTunnelParameters { retry_attempt: 2 }));
}

#[test]
fn backoff_doubles_up_to_its_limit() {
    assert_eq!(backoff_delay_ms(0), 50);
    assert_eq!(backoff_delay_ms(1), 100);
    assert_eq!(backoff_delay_ms(2), 200);
    assert_eq!(backoff_delay_ms(6), 3200);
    assert_eq!(backoff_delay_ms(7), 6400);
    assert_eq!(backoff_delay_ms(8), 8000);
    assert_eq!(backoff_delay_ms(9), 8000);
    assert_eq!(backoff_delay_ms(64), 8000);
    assert_eq!(backoff_delay_ms(u32::MAX), 8000);
}

#[test]
fn retry_count_stops_at_its_largest_value() {
    let mut shared_values = talpid_core::tunnel_state_machine::shared_values::SharedTunnelStateValues::new(
        false,
        false,
        false,
        String::new(),
    );
    let state = ConnectingState {
        retry_attempt: u32::MAX,
        delay_ms: 0,
        phase: ConnectingPhase::Running(parameters()),
    };
    let consequence = state.handle_event(Event::ConnectTimeout, &mut shared_values);
    assert_eq!(
        consequence,
        talpid_core::tunnel_state_machine::EventConsequence::NewState(
            TunnelStateWrapper::Disconnecting(DisconnectingState {
                after_disconnect: AfterDisconnect::Reconnect(u32::MAX),
            }),
            TunnelStateTransition::Disconnecting(AfterDisconnect::Reconnect(u32::MAX)),
        )
    );
    assert_eq!(shared_values.requests, vec![Action::ClearRoutes, Action::CloseTunnel]);
}

#[test]
fn closed_commands_end_the_machine_once_disconnected() {
    let (machine, reaction) = start(false).handle_event(Event::Command(None));
    assert_eq!(reaction, Reaction { actions: vec![], transition: None, finished: true });
    assert!(machine.is_finished());
    let (machine, reaction) = machine.handle_event(command(TunnelCommand::Connect));
    assert_eq!(reaction, Reaction { actions: vec![], transition: None, finished: true });
    assert!(machine.is_finished());

    let (machine, _, _) = feed(start(false), events_to_connected());
    let (machine, reaction) = machine.handle_event(Event::Command(None));
    assert_eq!(
        reaction.transition,
        Some(TunnelStateTransition::Disconnecting(AfterDisconnect::Nothing))
    );
    assert!(!reaction.finished);
    let (machine, reaction) =
        machine.handle_event(Event::TunnelClosed(TunnelCloseEvent::Exited(None)));
    assert_eq!(reaction.transition, Some(TunnelStateTransition::Disconnected));
    assert!(reaction.finished);
    assert!(machine.is_finished());
}

#[test]
fn error_state_leaves_on_connect_reconnect_and_disconnect_only() {
    let blocked = || {
        feed(
            start(false),
            vec![
                command(TunnelCommand::Block(ErrorStateCause::SplitTunnelError)),
                Event::FirewallPolicyApplied(Err(FirewallError::ApplyingBlockedPolicy)),
            ],
        )
    };
    let (machine, _, transitions) = blocked();
    assert_eq!(
        transitions,
        vec![TunnelStateTransition::Error(ErrorStateCause::SplitTunnelError, false)]
    );

    let (machine, actions, transitions) = feed(
        machine,
        vec![
            command(TunnelCommand::Block(ErrorStateCause::AuthFailed)),
            Event::Tunnel(Some(TunnelEvent::Down)),
            Event::TunnelClosed(TunnelCloseEvent::Exited(None)),
            Event::ConnectTimeout,
            Event::DnsSet(true),
        ],
    );
    assert!(actions.is_empty());
    assert!(transitions.is_empty());

    let (_, actions, transitions) = feed(machine, vec![command(TunnelCommand::Disconnect)]);
    assert_eq!(actions, vec![Action::ResetFirewall]);
    assert_eq!(transitions, vec![TunnelStateTransition::Disconnected]);

    let (machine, _, _) = blocked();
    let (_, _, transitions) = feed(machine, events_to_connecting());
    assert_eq!(transitions, vec![TunnelStateTransition::Connecting(relay())]);

    let (machine, _, _) = blocked();
    let mut events = events_to_connecting();
    events[0] = command(TunnelCommand::Reconnect);
    let (_, actions, transitions) = feed(machine, events);
    assert_eq!(transitions, vec![TunnelStateTransition::Connecting(relay())]);
    assert_eq!(
        actions.last(),
        Some(&start_tunnel(0))
    );
}

#[test]
fn reconnect_changes_nothing_without_a_tunnel() {
    let (machine, reaction) = start(false).handle_event(command(TunnelCommand::Reconnect));
    assert_eq!(reaction, Reaction { actions: vec![], transition: None, finished: false });
    assert_eq!(
        machine.current_state(),
        &TunnelStateWrapper::Disconnected(DisconnectedState {})
    );
    let (_, reaction) = machine.handle_event(command(TunnelCommand::Disconnect));
    assert_eq!(reaction, Reaction { actions: vec![], transition: None, finished: false });
}

#[test]
fn collaborators_are_in_use_only_while_connected() {
    let (machine, _, _) = feed(start(false), events_to_connecting());
    let shared = machine.shared_values();
    assert!(shared.tunnel_monitor.active);
    assert!(!shared.dns_monitor.active);
    assert!(!shared.route_manager.default_route_callback);
    assert!(!shared.split_tunnel.ips_registered);

    let (machine, _, _) = feed(start(false), events_to_connected());
    let shared = machine.shared_values();
    assert!(shared.tunnel_monitor.active);
    assert!(shared.dns_monitor.active);
    assert!(shared.route_manager.default_route_callback);
    assert!(shared.split_tunnel.ips_registered);

    let (machine, _) = machine.handle_event(command(TunnelCommand::Disconnect));
    let shared = machine.shared_values();
    assert!(shared.tunnel_monitor.active);
    assert!(!shared.dns_monitor.active);
    assert!(!shared.route_manager.default_route_callback);
    assert!(!shared.split_tunnel.ips_registered);

    let (machine, _) = machine.handle_event(Event::TunnelClosed(TunnelCloseEvent::Exited(None)));
    assert!(!machine.shared_values().tunnel_monitor.active);
}

#[test]
fn excluded_apps_are_handed_on_in_every_state() {
    let paths = || vec![vec![0x43u16, 0x3a, 0x5c, 0x61]];
    let (machine, reaction) =
        start(false).handle_event(command(TunnelCommand::SetExcludedApps(paths())));
    assert_eq!(reaction.actions, vec![Action::SetExcludedApps(paths())]);
    assert_eq!(reaction.transition, None);

    let (machine, _, _) = feed(machine, events_to_connected());
    let (machine, reaction) =
        machine.handle_event(command(TunnelCommand::SetExcludedApps(paths())));
    assert_eq!(reaction.actions, vec![Action::SetExcludedApps(paths())]);

    let (machine, _) = machine.handle_event(command(TunnelCommand::Disconnect));
    let (_, reaction) = machine.handle_event(command(TunnelCommand::SetExcludedApps(paths())));
    assert_eq!(reaction.actions, vec![Action::SetExcludedApps(paths())]);
}

#[test]
fn metadata_gives_gateways_and_tunnel_addresses() {
    let metadata = TunnelMetadata {
        interface: String::from("wg0"),
        ips: vec![
            IpAddress::V6(Ipv6Address { bits: 0xfc00_bbbb_bbbb_bb01_0000_0000_0000_0001 }),
            IpAddress::V4(Ipv4Address::new(10, 64, 0, 2)),
            IpAddress::V4(Ipv4Address::new(10, 64, 0, 3)),
        ],
        ipv4_gateway: Ipv4Address::new(10, 64, 0, 1),
        ipv6_gateway: Some(Ipv6Address { bits: 0xfc00_bbbb_bbbb_bb01_0000_0000_0000_0000 }),
    };
    assert_eq!(
        metadata.dns_servers(),
        vec![
            IpAddress::V4(Ipv4Address::new(10, 64, 0, 1)),
            IpAddress::V6(Ipv6Address { bits: 0xfc00_bbbb_bbbb_bb01_0000_0000_0000_0000 }),
        ]
    );
    assert_eq!(metadata.tunnel_ipv4(), Ipv4Address::new(10, 64, 0, 2));
    assert_eq!(
        metadata.tunnel_ipv6(),
        Some(Ipv6Address { bits: 0xfc00_bbbb_bbbb_bb01_0000_0000_0000_0001 })
    );

    let bare = TunnelMetadata {
        interface: String::from("wg0"),
        ips: vec![],
        ipv4_gateway: Ipv4Address::new(10, 64, 0, 1),
        ipv6_gateway: None,
    };
    assert_eq!(bare.tunnel_ipv4(), Ipv4Address { bits: 0 });
    assert_eq!(bare.tunnel_ipv6(), None);
}

#[test]
fn addresses_and_parameters_read_back() {
    assert_eq!(Ipv4Address::new(10, 0, 0, 1).bits, 0x0a00_0001);
    assert_eq!(Ipv4Address::new(255, 255, 255, 255).bits, u32::MAX);
    assert_eq!(Ipv4Address::zero(), Ipv4Address::new(0, 0, 0, 0));
    assert_eq!(parameters().get_tunnel_endpoint(), relay());
    assert_eq!(parameters().get_next_hop_endpoint(), bridge());
    assert_eq!(parameters().get_proxy_endpoint(), Some(bridge()));
    assert_eq!(
        FirewallError::ApplyingConnectedPolicy(FirewallPolicyError::LockedByAnotherApplication)
            .policy_error(),
        FirewallPolicyError::LockedByAnotherApplication
    );
    assert_eq!(FirewallError::ResettingPolicy.policy_error(), FirewallPolicyError::Generic);
    assert_eq!(connected_policy(true).duplicate(), connected_policy(true));
    assert_eq!(
        TunnelCloseEvent::Exited(Some(ErrorStateCause::AuthFailed)).block_reason(),
        Some(ErrorStateCause::AuthFailed)
    );
    assert_eq!(TunnelCloseEvent::MonitorStopped.block_reason(), None);
}

#[test]
fn questions_are_the_actions_that_want_an_answer() {
    assert!(Action::ApplyFirewallPolicy(connecting_policy()).asks());
    assert!(Action::SetDns { interface: String::from("utun0"), servers: vec![] }.asks());
    assert!(Action::GenerateTunnelParameters { retry_attempt: 3 }.asks());
    assert!(!Action::CloseTunnel.asks());
    assert!(!Action::ResetFirewall.asks());
    assert!(!Action::ResetDns.asks());
    assert!(!Action::ClearRoutes.asks());
    assert!(!Action::AddDefaultRouteCallback.asks());
    assert!(!Action::ClearDefaultRouteCallbacks.asks());
    assert!(!Action::RegisterIps { tunnel_ipv4: Ipv4Address::zero(), tunnel_ipv6: None }.asks());
    assert!(!Action::UnregisterIps.asks());
    assert!(!Action::SetExcludedApps(vec![]).asks());
    assert!(!start_tunnel(0).asks());
}
