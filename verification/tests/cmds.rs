use talpid_core::cmds::{exit_code, Connect, Disconnect, NextStep, Progress, Reconnect};
use talpid_core::net::{Endpoint, IpAddress, Ipv4Address, TransportProtocol};
use talpid_core::tunnel::ErrorStateCause;
use talpid_core::tunnel_state_machine::{AfterDisconnect, TunnelCommand, TunnelStateTransition};

fn states() -> Vec<TunnelStateTransition> {
    let relay = Endpoint {
        address: IpAddress::V4(Ipv4Address::new(185, 213, 154, 68)),
        port: 1194,
        protocol: TransportProtocol::Udp,
    };
    vec![
        TunnelStateTransition::Disconnected,
        TunnelStateTransition::Connecting(relay),
        TunnelStateTransition::Connected(relay),
        TunnelStateTransition::Disconnecting(AfterDisconnect::Nothing),
        TunnelStateTransition::Error(ErrorStateCause::AuthFailed, true),
        TunnelStateTransition::Error(ErrorStateCause::IsOffline, false),
    ]
}

#[test]
fn commands_have_their_names() {
    assert_eq!(Connect.name(), "connect");
    assert_eq!(Disconnect.name(), "disconnect");
    assert_eq!(Reconnect.name(), "reconnect");
}

#[test]
fn connect_waits_for_a_tunnel_or_an_error() {
    let listens: Vec<bool> = states().into_iter().map(|s| Connect.listens(true, s)).collect();
    assert_eq!(listens, [true, true, false, true, true, true]);
    let goes_on: Vec<bool> = states().into_iter().map(|s| Connect.continue_condition(s)).collect();
    assert_eq!(goes_on, [true, true, false, true, false, false]);
}

#[test]
fn disconnect_waits_for_the_tunnel_to_be_gone() {
    let listens: Vec<bool> = states().into_iter().map(|s| Disconnect.listens(true, s)).collect();
    assert_eq!(listens, [false, true, true, true, true, true]);
    let goes_on: Vec<bool> =
        states().into_iter().map(|s| Disconnect.continue_condition(s)).collect();
    assert_eq!(goes_on, [false, true, true, true, true, true]);
}

#[test]
fn reconnect_waits_unless_nothing_would_change() {
    let listens: Vec<bool> = states().into_iter().map(|s| Reconnect.listens(true, s)).collect();
    assert_eq!(listens, [false, true, true, true, true, false]);
    let goes_on: Vec<bool> =
        states().into_iter().map(|s| Reconnect.continue_condition(s)).collect();
    assert_eq!(goes_on, [true, true, false, true, false, false]);
}

#[test]
fn nothing_is_followed_without_wait() {
    for state in states() {
        assert!(!Connect.listens(false, state));
        assert!(!Disconnect.listens(false, state));
        assert!(!Reconnect.listens(false, state));
    }
}

#[test]
fn exit_code_is_zero_on_success_only() {
    assert_eq!(exit_code(true), 0);
    assert_eq!(exit_code(false), 1);
}

#[test]
fn commands_send_their_requests() {
    assert_eq!(Connect.request(), TunnelCommand::Connect);
    assert_eq!(Disconnect.request(), TunnelCommand::Disconnect);
    assert_eq!(Reconnect.request(), TunnelCommand::Reconnect);
}

#[test]
fn command_without_wait_sends_and_ends() {
    assert_eq!(Connect.run(false, Progress::Reached), NextStep::Send);
    assert_eq!(Connect.run(false, Progress::Delivered { listening: false }), NextStep::Exit(0));
    assert_eq!(Disconnect.run(false, Progress::Reached), NextStep::Send);
    assert_eq!(Reconnect.run(false, Progress::Reached), NextStep::Send);
    for state in states() {
        assert_eq!(Connect.run(false, Progress::State(state)), NextStep::Send);
    }
}

#[test]
fn command_with_wait_follows_the_state_around_its_request() {
    let connecting = states()[1];
    assert_eq!(Connect.run(true, Progress::Reached), NextStep::GetState);
    assert_eq!(Connect.run(true, Progress::State(connecting)), NextStep::Listen);
    assert_eq!(Connect.run(true, Progress::Listening), NextStep::Send);
    assert_eq!(Connect.run(true, Progress::Delivered { listening: true }), NextStep::Wait);
    assert_eq!(Connect.run(true, Progress::Settled), NextStep::Exit(0));
}

#[test]
fn command_with_wait_skips_what_has_come_already() {
    let steps = |run: &dyn Fn(Progress) -> NextStep| -> Vec<NextStep> {
        states().into_iter().map(|state| run(Progress::State(state))).collect()
    };
    let (listen, send) = (NextStep::Listen, NextStep::Send);
    assert_eq!(
        steps(&|progress| Connect.run(true, progress)),
        [listen, listen, send, listen, listen, listen]
    );
    assert_eq!(
        steps(&|progress| Disconnect.run(true, progress)),
        [send, listen, listen, listen, listen, listen]
    );
    assert_eq!(
        steps(&|progress| Reconnect.run(true, progress)),
        [send, listen, listen, listen, listen, send]
    );
    assert_eq!(Disconnect.run(true, Progress::Delivered { listening: false }), NextStep::Exit(0));
}

#[test]
fn command_fails_when_the_daemon_fails_it() {
    for wait in [false, true] {
        assert_eq!(Connect.run(wait, Progress::Failed), NextStep::Exit(1));
        assert_eq!(Disconnect.run(wait, Progress::Failed), NextStep::Exit(1));
        assert_eq!(Reconnect.run(wait, Progress::Failed), NextStep::Exit(1));
    }
}
