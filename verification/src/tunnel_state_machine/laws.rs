//! What holds of every run of the machine.

use super::blocked_state::BlockedState;
use super::connecting_state::{ConnectingPhase, ConnectingState};
use super::shared_values::{ActionView, SharedView};
use super::{
    spec_start, spec_step, Event, MachineView, ReactionView, TunnelCommand, TunnelStateTransition,
    TunnelStateWrapper,
};
use crate::firewall::FirewallPolicy;
use crate::tunnel::ErrorStateCause;
use vstd::prelude::*;

verus! {

/// Whether the firewall was last handed the policy that belongs to the
/// state.
///
/// In `Disconnected` that is the blocking policy where the user chose to
/// block, and no policy otherwise. While a tunnel is set up it is the policy
/// that lets the tunnel's peer through, and while it is up the policy that
/// lets the peer and the tunnel through, with the user's choice for the
/// local network. While a tunnel closes, the policy of the state before
/// stays. In the error state it is the blocking policy.
pub open spec fn policy_matches(state: TunnelStateWrapper, shared: SharedView) -> bool {
    match state {
        TunnelStateWrapper::Disconnected(_) => shared.firewall == if shared.block_when_disconnected {
            Some(FirewallPolicy::Blocked { allow_lan: shared.allow_lan })
        } else {
            None
        },
        TunnelStateWrapper::Connecting(connecting) => match connecting.phase {
            ConnectingPhase::GeneratingParameters => true,
            ConnectingPhase::ApplyingPolicy(parameters) | ConnectingPhase::Running(parameters) => {
                shared.firewall == Some(ConnectingState::spec_policy(parameters))
            },
        },
        TunnelStateWrapper::Connected(connected) => shared.firewall == Some(
            connected.spec_get_firewall_policy(shared),
        ),
        TunnelStateWrapper::Disconnecting(_) => shared.firewall matches Some(policy)
            && !(policy is Blocked),
        TunnelStateWrapper::Error(_) => shared.firewall == Some(BlockedState::spec_policy(shared)),
    }
}

/// Whether the state has been entered: no answer that its entry waits for
/// is owed.
pub open spec fn is_entered(state: TunnelStateWrapper) -> bool {
    match state {
        TunnelStateWrapper::Disconnected(_) => true,
        TunnelStateWrapper::Connecting(connecting) => connecting.phase is Running,
        TunnelStateWrapper::Connected(connected) => connected.phase is Running
            || connected.phase is UpdatingPolicy,
        TunnelStateWrapper::Disconnecting(_) => true,
        TunnelStateWrapper::Error(blocked) => blocked.blocking.is_some(),
    }
}

/// Whether `transition` is what observers were told last while the machine
/// is in `state`: the state itself once it has been entered, and the one
/// that it is entered from before that.
pub open spec fn published_as(
    state: TunnelStateWrapper,
    transition: TunnelStateTransition,
) -> bool {
    match state {
        TunnelStateWrapper::Disconnected(_) => transition == TunnelStateTransition::Disconnected,
        TunnelStateWrapper::Connecting(connecting) => match connecting.phase {
            ConnectingPhase::Running(parameters) => transition == TunnelStateTransition::Connecting(
                parameters.tunnel_endpoint,
            ),
            _ => transition is Disconnected || transition is Disconnecting || transition is Error,
        },
        TunnelStateWrapper::Connected(connected) => if is_entered(state) {
            transition == TunnelStateTransition::Connected(
                connected.tunnel_parameters.tunnel_endpoint,
            )
        } else {
            transition == TunnelStateTransition::Connecting(
                connected.tunnel_parameters.tunnel_endpoint,
            )
        },
        TunnelStateWrapper::Disconnecting(_) => transition is Disconnecting,
        TunnelStateWrapper::Error(blocked) => match blocked.blocking {
            Some(blocking) => transition == TunnelStateTransition::Error(
                blocked.block_reason,
                blocking,
            ),
            None => transition is Disconnected || transition is Disconnecting || transition is Error,
        },
    }
}

/// Whether the state has a tunnel: it has started one, or took one over, or
/// waits for one to close.
pub open spec fn has_tunnel(state: TunnelStateWrapper) -> bool {
    match state {
        TunnelStateWrapper::Connecting(connecting) => connecting.phase is Running,
        TunnelStateWrapper::Connected(_) => true,
        TunnelStateWrapper::Disconnecting(_) => true,
        _ => false,
    }
}

/// Whether the state machine's graph has an edge from `from` to `to`.
pub open spec fn valid_edge(from: TunnelStateTransition, to: TunnelStateTransition) -> bool {
    match from {
        TunnelStateTransition::Disconnected => to is Connecting || to is Error,
        TunnelStateTransition::Connecting(_) => to is Connected || to is Disconnecting,
        TunnelStateTransition::Connected(_) => to is Disconnecting,
        TunnelStateTransition::Disconnecting(_) => to is Disconnected || to is Connecting
            || to is Error,
        TunnelStateTransition::Error(_, _) => to is Disconnected || to is Connecting || (to is Error
            && to != from),
    }
}

/// What holds of the machine between any two steps.
pub open spec fn consistent(machine: MachineView) -> bool {
    &&& machine.shared.requests.len() == 0
    &&& policy_matches(machine.state, machine.shared)
    &&& published_as(machine.state, machine.last_transition)
    &&& machine.shared.dns_active || machine.shared.default_route_callback
        || machine.shared.ips_registered ==> machine.state is Connected && is_entered(
        machine.state,
    )
    &&& machine.shared.tunnel_active == has_tunnel(machine.state)
    &&& !(machine.last_transition is Disconnected) ==> machine.shared.firewall.is_some()
    &&& machine.shared.is_offline ==> !(machine.state is Connecting)
        && !(machine.state is Connected)
    &&& machine.finished ==> machine.state is Disconnected
}

/// The machine after the events, handled one by one.
pub open spec fn run(start: MachineView, events: Seq<Event>) -> MachineView
    decreases events.len(),
{
    if events.len() == 0 {
        start
    } else {
        spec_step(run(start, events.drop_last()), events.last()).0
    }
}

/// The reaction to the event with index `index`.
pub open spec fn reaction_at(start: MachineView, events: Seq<Event>, index: int) -> ReactionView {
    spec_step(run(start, events.take(index)), events[index]).1
}

/// A machine that begins is consistent.
pub proof fn lemma_start_consistent(
    allow_lan: bool,
    block_when_disconnected: bool,
    is_offline: bool,
    resource_dir: String,
)
    ensures
        consistent(spec_start(allow_lan, block_when_disconnected, is_offline, resource_dir).0),
{
}

/// A step from `Disconnected` keeps the machine consistent.
proof fn lemma_disconnected_step_consistent(machine: MachineView, event: Event)
    requires
        consistent(machine),
        machine.state is Disconnected,
    ensures
        consistent(spec_step(machine, event).0),
{
}

/// A step from `Connecting` keeps the machine consistent.
proof fn lemma_connecting_step_consistent(machine: MachineView, event: Event)
    requires
        consistent(machine),
        machine.state is Connecting,
    ensures
        consistent(spec_step(machine, event).0),
{
}

/// A step from `Connected` keeps the machine consistent.
proof fn lemma_connected_step_consistent(machine: MachineView, event: Event)
    requires
        consistent(machine),
        machine.state is Connected,
    ensures
        consistent(spec_step(machine, event).0),
{
}

/// A step from `Disconnecting` keeps the machine consistent.
proof fn lemma_disconnecting_step_consistent(machine: MachineView, event: Event)
    requires
        consistent(machine),
        machine.state is Disconnecting,
    ensures
        consistent(spec_step(machine, event).0),
{
}

/// A step from the error state keeps the machine consistent.
proof fn lemma_blocked_step_consistent(machine: MachineView, event: Event)
    requires
        consistent(machine),
        machine.state is Error,
    ensures
        consistent(spec_step(machine, event).0),
{
}

/// A step keeps the machine consistent.
pub proof fn lemma_step_consistent(machine: MachineView, event: Event)
    requires
        consistent(machine),
    ensures
        consistent(spec_step(machine, event).0),
{
    match machine.state {
        TunnelStateWrapper::Disconnected(_) => lemma_disconnected_step_consistent(machine, event),
        TunnelStateWrapper::Connecting(_) => lemma_connecting_step_consistent(machine, event),
        TunnelStateWrapper::Connected(_) => lemma_connected_step_consistent(machine, event),
        TunnelStateWrapper::Disconnecting(_) => lemma_disconnecting_step_consistent(machine, event),
        TunnelStateWrapper::Error(_) => lemma_blocked_step_consistent(machine, event),
    }
}

/// Every run keeps the machine consistent.
pub proof fn lemma_run_consistent(start: MachineView, events: Seq<Event>)
    requires
        consistent(start),
    ensures
        consistent(run(start, events)),
    decreases events.len(),
{
    if events.len() > 0 {
        lemma_run_consistent(start, events.drop_last());
        lemma_step_consistent(run(start, events.drop_last()), events.last());
    }
}

/// The machine after one more event is the machine after the events
/// before, one step on.
pub proof fn lemma_run_unfold(start: MachineView, events: Seq<Event>, index: int)
    requires
        0 <= index < events.len(),
    ensures
        run(start, events.take(index + 1)) == spec_step(
            run(start, events.take(index)),
            events[index],
        ).0,
{
    assert(events.take(index + 1).drop_last() == events.take(index));
}

/// What a step that publishes a transition has done: it follows an edge of
/// the graph from the transition published before, the machine is in the
/// state that the transition names and has entered it, and the firewall was
/// last handed that state's policy.
pub proof fn lemma_step_publishes(machine: MachineView, event: Event)
    requires
        consistent(machine),
    ensures
        ({
            let (after, reaction) = spec_step(machine, event);
            match reaction.transition {
                Some(transition) => {
                    &&& valid_edge(machine.last_transition, transition)
                    &&& after.last_transition == transition
                    &&& is_entered(after.state)
                    &&& published_as(after.state, transition)
                    &&& policy_matches(after.state, after.shared)
                    &&& transition is Connecting || transition is Connected ==> !machine.shared.is_offline
                        && !after.shared.is_offline
                    &&& transition is Connected ==> after.shared.dns_active
                },
                None => after.last_transition == machine.last_transition,
            }
        }),
{
    lemma_step_consistent(machine, event);
}

/// The DNS servers of a tunnel leave force only by an action that restores
/// the host's own: it is then the first action of the step.
pub proof fn lemma_step_resets_dns(machine: MachineView, event: Event)
    requires
        consistent(machine),
        machine.shared.dns_active,
        !spec_step(machine, event).0.shared.dns_active,
    ensures
        spec_step(machine, event).1.actions.len() > 0,
        spec_step(machine, event).1.actions[0] == ActionView::ResetDns,
{
}

/// A step asks at most one question, with its last action.
pub proof fn law_questions_come_last(machine: MachineView, event: Event)
    requires
        consistent(machine),
    ensures
        ({
            let actions = spec_step(machine, event).1.actions;
            forall|i: int| 0 <= i < actions.len() - 1 ==> !(#[trigger] actions[i]).asks()
        }),
{
}

/// The machine waits for no answer that it has not asked for: a step that
/// leaves it in a state that waits for an answer either changes nothing and
/// asks nothing, or ends with the question.
pub proof fn law_waits_for_what_it_asked(machine: MachineView, event: Event)
    requires
        consistent(machine),
        spec_step(machine, event).0.state.spec_awaits_answer(),
    ensures
        ({
            let (after, reaction) = spec_step(machine, event);
            if after.state == machine.state {
                &&& reaction.actions.len() == 0
                &&& reaction.transition.is_none()
                &&& after.shared == machine.shared
            } else {
                reaction.actions.len() > 0 && reaction.actions.last().asks()
            }
        }),
{
    let (after, reaction) = spec_step(machine, event);
    if after.state == machine.state {
        assert(after.shared.requests =~= machine.shared.requests);
    }
}

/// At most one tunnel exists: a machine that has a tunnel starts no other,
/// and the machine has a tunnel exactly while it is in `Connecting` with
/// the tunnel started, in `Connected`, or in `Disconnecting`.
pub proof fn law_single_tunnel(machine: MachineView, event: Event)
    requires
        consistent(machine),
    ensures
        ({
            let (after, reaction) = spec_step(machine, event);
            &&& machine.shared.tunnel_active == has_tunnel(machine.state)
    &&& !(machine.last_transition is Disconnected) ==> machine.shared.firewall.is_some()
            &&& after.shared.tunnel_active == has_tunnel(after.state)
            &&& machine.shared.tunnel_active ==> forall|i: int|
                0 <= i < reaction.actions.len() ==> !(#[trigger] reaction.actions[i] is StartTunnel)
        }),
{
    lemma_step_consistent(machine, event);
}

/// Leaving `Connected` restores the host's DNS servers, removes the
/// reactions to the default route and the tunnel's routes, leaves no address
/// registered with the split-tunnel driver and tells the tunnel to close, in
/// this order; and the state after it is `Disconnecting`.
pub proof fn law_leaving_connected(machine: MachineView, event: Event)
    requires
        consistent(machine),
        machine.state is Connected,
        is_entered(machine.state),
        !(spec_step(machine, event).0.state is Connected),
    ensures
        spec_step(machine, event).0.state is Disconnecting,
        !spec_step(machine, event).0.shared.dns_active,
        !spec_step(machine, event).0.shared.default_route_callback,
        !spec_step(machine, event).0.shared.ips_registered,
        spec_step(machine, event).1.actions == seq![
            ActionView::ResetDns,
            ActionView::ClearDefaultRouteCallbacks,
            ActionView::ClearRoutes,
            ActionView::UnregisterIps,
            ActionView::CloseTunnel,
        ],
{
    let actions = spec_step(machine, event).1.actions;
    assert(actions =~= seq![
        ActionView::ResetDns,
        ActionView::ClearDefaultRouteCallbacks,
        ActionView::ClearRoutes,
        ActionView::UnregisterIps,
        ActionView::CloseTunnel,
    ]);
}

/// Leaving `Connecting` for anything but `Connected` removes the tunnel's
/// routes and tells the tunnel to close; the state after it is
/// `Disconnecting`.
pub proof fn law_leaving_connecting(machine: MachineView, event: Event)
    requires
        consistent(machine),
        machine.state is Connecting,
        is_entered(machine.state),
        !(spec_step(machine, event).0.state is Connecting),
        !(spec_step(machine, event).0.state is Connected),
    ensures
        spec_step(machine, event).0.state is Disconnecting,
        spec_step(machine, event).1.actions == seq![
            ActionView::ClearRoutes,
            ActionView::CloseTunnel,
        ],
{
    let actions = spec_step(machine, event).1.actions;
    assert(actions =~= seq![ActionView::ClearRoutes, ActionView::CloseTunnel]);
}

/// Whatever the events, when the machine publishes a transition, the
/// firewall was last handed the policy of the state that the transition
/// names, and the machine has entered that state.
pub proof fn law_policy_matches_transition(
    allow_lan: bool,
    block_when_disconnected: bool,
    is_offline: bool,
    resource_dir: String,
    events: Seq<Event>,
    index: int,
)
    requires
        0 <= index < events.len(),
    ensures
        ({
            let start = spec_start(allow_lan, block_when_disconnected, is_offline, resource_dir).0;
            let after = run(start, events.take(index + 1));
            reaction_at(start, events, index).transition matches Some(transition) ==> {
                &&& published_as(after.state, transition)
                &&& is_entered(after.state)
                &&& policy_matches(after.state, after.shared)
            }
        }),
{
    let start = spec_start(allow_lan, block_when_disconnected, is_offline, resource_dir).0;
    lemma_start_consistent(allow_lan, block_when_disconnected, is_offline, resource_dir);
    lemma_run_consistent(start, events.take(index));
    lemma_run_unfold(start, events, index);
    lemma_step_publishes(run(start, events.take(index)), events[index]);
}

/// Whatever the events, between any two steps the firewall was last handed
/// the policy of the state the machine is in, unless that state still waits
/// for the parameters of its tunnel.
pub proof fn law_policy_matches_state(
    allow_lan: bool,
    block_when_disconnected: bool,
    is_offline: bool,
    resource_dir: String,
    events: Seq<Event>,
)
    ensures
        ({
            let start = spec_start(allow_lan, block_when_disconnected, is_offline, resource_dir).0;
            let machine = run(start, events);
            policy_matches(machine.state, machine.shared)
        }),
{
    let start = spec_start(allow_lan, block_when_disconnected, is_offline, resource_dir).0;
    lemma_start_consistent(allow_lan, block_when_disconnected, is_offline, resource_dir);
    lemma_run_consistent(start, events);
}

/// Between a machine whose tunnel's DNS servers are in force and a later
/// one where they are not, some step restores the host's own.
proof fn lemma_find_dns_reset(start: MachineView, events: Seq<Event>, from: int) -> (found: int)
    requires
        consistent(start),
        0 <= from <= events.len(),
        run(start, events.take(from)).shared.dns_active,
        !run(start, events).shared.dns_active,
    ensures
        from <= found < events.len(),
        reaction_at(start, events, found).actions.contains(ActionView::ResetDns),
    decreases events.len() - from,
{
    if from == events.len() {
        assert(events.take(from) == events);
        arbitrary()
    } else {
        let before = run(start, events.take(from));
        lemma_run_consistent(start, events.take(from));
        lemma_run_unfold(start, events, from);
        if spec_step(before, events[from]).0.shared.dns_active {
            lemma_find_dns_reset(start, events, from + 1)
        } else {
            lemma_step_resets_dns(before, events[from]);
            assert(reaction_at(start, events, from).actions[0] == ActionView::ResetDns);
            from
        }
    }
}

/// In every run that ends in `Disconnected`, each entry into `Connected` is
/// followed by a step that restores the host's DNS servers.
pub proof fn law_dns_reset_after_connected(
    allow_lan: bool,
    block_when_disconnected: bool,
    is_offline: bool,
    resource_dir: String,
    events: Seq<Event>,
    entry: int,
)
    requires
        0 <= entry < events.len(),
        reaction_at(
            spec_start(allow_lan, block_when_disconnected, is_offline, resource_dir).0,
            events,
            entry,
        ).transition matches Some(transition) && transition is Connected,
        run(
            spec_start(allow_lan, block_when_disconnected, is_offline, resource_dir).0,
            events,
        ).state is Disconnected,
    ensures
        exists|reset: int|
            entry < reset < events.len() && #[trigger] reaction_at(
                spec_start(allow_lan, block_when_disconnected, is_offline, resource_dir).0,
                events,
                reset,
            ).actions.contains(ActionView::ResetDns),
{
    let start = spec_start(allow_lan, block_when_disconnected, is_offline, resource_dir).0;
    lemma_start_consistent(allow_lan, block_when_disconnected, is_offline, resource_dir);
    lemma_run_consistent(start, events.take(entry));
    lemma_run_consistent(start, events);
    lemma_run_unfold(start, events, entry);
    lemma_step_publishes(run(start, events.take(entry)), events[entry]);
    let reset = lemma_find_dns_reset(start, events, entry + 1);
    assert(reaction_at(start, events, reset).actions.contains(ActionView::ResetDns));
}

/// The transitions that a run publishes form a walk of the state machine's
/// graph: each one follows an edge from the one published before it, the
/// first from `Disconnected`, which a machine publishes as it begins.
pub proof fn law_transitions_form_walk(
    allow_lan: bool,
    block_when_disconnected: bool,
    is_offline: bool,
    resource_dir: String,
    events: Seq<Event>,
    index: int,
)
    requires
        0 <= index < events.len(),
    ensures
        ({
            let (start, first) = spec_start(
                allow_lan,
                block_when_disconnected,
                is_offline,
                resource_dir,
            );
            let before = run(start, events.take(index));
            let after = run(start, events.take(index + 1));
            &&& first.transition == Some(TunnelStateTransition::Disconnected)
            &&& start.last_transition == TunnelStateTransition::Disconnected
            &&& match reaction_at(start, events, index).transition {
                Some(transition) => valid_edge(before.last_transition, transition)
                    && after.last_transition == transition,
                None => after.last_transition == before.last_transition,
            }
        }),
{
    let start = spec_start(allow_lan, block_when_disconnected, is_offline, resource_dir).0;
    lemma_start_consistent(allow_lan, block_when_disconnected, is_offline, resource_dir);
    lemma_run_consistent(start, events.take(index));
    lemma_run_unfold(start, events, index);
    lemma_step_publishes(run(start, events.take(index)), events[index]);
}

/// Whatever the events, unless the transition last published is
/// `Disconnected`, the firewall was last handed a policy, and each policy
/// keeps traffic from leaving the host outside a tunnel.
pub proof fn law_no_leak(
    allow_lan: bool,
    block_when_disconnected: bool,
    is_offline: bool,
    resource_dir: String,
    events: Seq<Event>,
)
    ensures
        ({
            let start = spec_start(allow_lan, block_when_disconnected, is_offline, resource_dir).0;
            let machine = run(start, events);
            !(machine.last_transition is Disconnected) ==> machine.shared.firewall.is_some()
        }),
{
    let start = spec_start(allow_lan, block_when_disconnected, is_offline, resource_dir).0;
    lemma_start_consistent(allow_lan, block_when_disconnected, is_offline, resource_dir);
    lemma_run_consistent(start, events);
}

/// Whatever the events, while the machine is in `Disconnected` the
/// firewall was last handed the blocking policy where the user chose to
/// block, and was last told to remove its policy where the user did not.
pub proof fn law_block_when_disconnected(
    allow_lan: bool,
    block_when_disconnected: bool,
    is_offline: bool,
    resource_dir: String,
    events: Seq<Event>,
)
    ensures
        ({
            let start = spec_start(allow_lan, block_when_disconnected, is_offline, resource_dir).0;
            let machine = run(start, events);
            machine.state is Disconnected ==> machine.shared.firewall == if machine.shared.block_when_disconnected {
                Some(FirewallPolicy::Blocked { allow_lan: machine.shared.allow_lan })
            } else {
                None
            }
        }),
{
    let start = spec_start(allow_lan, block_when_disconnected, is_offline, resource_dir).0;
    lemma_start_consistent(allow_lan, block_when_disconnected, is_offline, resource_dir);
    lemma_run_consistent(start, events);
}

/// Whatever the events, a machine whose host is offline is neither in
/// `Connecting` nor in `Connected`, and no step that begins or ends with
/// the host offline publishes either.
pub proof fn law_offline_never_connects(
    allow_lan: bool,
    block_when_disconnected: bool,
    is_offline: bool,
    resource_dir: String,
    events: Seq<Event>,
    index: int,
)
    requires
        0 <= index < events.len(),
    ensures
        ({
            let start = spec_start(allow_lan, block_when_disconnected, is_offline, resource_dir).0;
            let before = run(start, events.take(index));
            let after = run(start, events.take(index + 1));
            &&& after.shared.is_offline ==> !(after.state is Connecting)
                && !(after.state is Connected)
            &&& before.shared.is_offline || after.shared.is_offline ==> !(reaction_at(
                start,
                events,
                index,
            ).transition matches Some(transition) && (transition is Connecting
                || transition is Connected))
        }),
{
    let start = spec_start(allow_lan, block_when_disconnected, is_offline, resource_dir).0;
    lemma_start_consistent(allow_lan, block_when_disconnected, is_offline, resource_dir);
    lemma_run_consistent(start, events.take(index));
    lemma_run_consistent(start, events.take(index + 1));
    lemma_run_unfold(start, events, index);
    lemma_step_publishes(run(start, events.take(index)), events[index]);
}

/// While the host is offline, `Connect` ends in the error state for that
/// cause: from `Disconnected` and from the error state it asks the firewall
/// to block, and the firewall's answer has `Error(IsOffline, ..)` as the
/// transition last published.
pub proof fn law_offline_connect_blocks(
    machine: MachineView,
    answer: Result<(), crate::firewall::FirewallError>,
)
    requires
        consistent(machine),
        !machine.finished,
        machine.shared.is_offline,
        machine.state is Disconnected || (machine.state is Error && is_entered(machine.state)),
    ensures
        ({
            let (asked, asking) = spec_step(machine, Event::Command(Some(TunnelCommand::Connect)));
            let (answered, _) = spec_step(asked, Event::FirewallPolicyApplied(answer));
            &&& asking.actions == seq![
                ActionView::ApplyFirewallPolicy(BlockedState::spec_policy(machine.shared)),
            ]
            &&& answered.state == TunnelStateWrapper::Error(
                BlockedState {
                    block_reason: ErrorStateCause::IsOffline,
                    blocking: Some(answer.is_ok()),
                },
            )
            &&& answered.last_transition == TunnelStateTransition::Error(
                ErrorStateCause::IsOffline,
                answer.is_ok(),
            )
            &&& answered.shared.is_offline
        }),
{
    let asking = spec_step(machine, Event::Command(Some(TunnelCommand::Connect))).1;
    assert(asking.actions =~= seq![
        ActionView::ApplyFirewallPolicy(BlockedState::spec_policy(machine.shared)),
    ]);
}

} // verus!
