//! The rules of the command-line front-end: what each command is called,
//! what it does step by step, and which states it waits for when asked to
//! wait.
//!
//! A command reaches the daemon, sends its request and ends. When asked to
//! wait it first asks for the tunnel's state, and unless the state is
//! already what it waits for, it follows the state's changes from before
//! the request is sent until that state has come. The front-end does the
//! talking; `run` tells it what comes next.

use crate::tunnel_state_machine::{TunnelCommand, TunnelStateTransition};
use vstd::prelude::*;

verus! {

/// The exit code of a command whose request was delivered.
pub const EXIT_SUCCESS: i32 = 0;

/// The exit code of a command whose request could not be delivered.
pub const EXIT_FAILURE: i32 = 1;

/// The exit code of a command: zero where its request was delivered.
pub fn exit_code(delivered: bool) -> (code: i32)
    ensures
        code == if delivered {
            EXIT_SUCCESS
        } else {
            EXIT_FAILURE
        },
        (code == 0) == delivered,
{
    if delivered {
        EXIT_SUCCESS
    } else {
        EXIT_FAILURE
    }
}

/// How far the run of a command has come.
#[derive(Clone, Copy, Debug, PartialEq, Eq, Structural)]
pub enum Progress {
    /// The daemon has been reached.
    Reached,
    /// The daemon has told the state of the tunnel.
    State(TunnelStateTransition),
    /// The state's changes are being followed.
    Listening,
    /// The daemon has taken the request; `listening` tells whether the
    /// state's changes are being followed.
    Delivered { listening: bool },
    /// The state's changes have been followed to their end.
    Settled,
    /// The daemon could not be reached, or did not answer.
    Failed,
}

/// What a command does next.
#[derive(Clone, Copy, Debug, PartialEq, Eq, Structural)]
pub enum NextStep {
    /// Ask the daemon for the state of the tunnel, and print it.
    GetState,
    /// Follow the state's changes and print each, for as long as the
    /// command's `continue_condition` holds.
    Listen,
    /// Send the command's request.
    Send,
    /// Wait until the changes have been followed to their end.
    Wait,
    /// End, with the exit code.
    Exit(i32),
}

/// What comes next in the run of a command, where `listens` tells whether
/// the command follows the changes of the state it was told.
///
/// Once the daemon is reached the command asks for the state if it is to
/// wait, and sends its request otherwise. Told the state, it follows the
/// changes if it has to, and then sends its request. With the request
/// delivered it waits for the changes to end if it follows them. It ends
/// with success after that, and with failure as soon as the daemon fails it.
pub open spec fn spec_next_step(wait: bool, listens: bool, progress: Progress) -> NextStep {
    match progress {
        Progress::Reached => if wait {
            NextStep::GetState
        } else {
            NextStep::Send
        },
        Progress::State(_) => if listens {
            NextStep::Listen
        } else {
            NextStep::Send
        },
        Progress::Listening => NextStep::Send,
        Progress::Delivered { listening } => if listening {
            NextStep::Wait
        } else {
            NextStep::Exit(EXIT_SUCCESS)
        },
        Progress::Settled => NextStep::Exit(EXIT_SUCCESS),
        Progress::Failed => NextStep::Exit(EXIT_FAILURE),
    }
}

/// What comes next in the run of a command.
fn next_step(wait: bool, listens: bool, progress: Progress) -> (step: NextStep)
    ensures
        step == spec_next_step(wait, listens, progress),
{
    match progress {
        Progress::Reached => if wait {
            NextStep::GetState
        } else {
            NextStep::Send
        },
        Progress::State(_) => if listens {
            NextStep::Listen
        } else {
            NextStep::Send
        },
        Progress::Listening => NextStep::Send,
        Progress::Delivered { listening } => if listening {
            NextStep::Wait
        } else {
            NextStep::Exit(exit_code(true))
        },
        Progress::Settled => NextStep::Exit(exit_code(true)),
        Progress::Failed => NextStep::Exit(exit_code(false)),
    }
}

/// Whether a tunnel attempt has come to rest: the tunnel is up, or the
/// machine is in its error state.
pub open spec fn attempt_settled(state: TunnelStateTransition) -> bool {
    state is Connected || state is Error
}

/// `connect`: commands the client to start establishing a tunnel.
#[derive(Clone, Copy, Debug, PartialEq, Eq, Structural)]
pub struct Connect;

impl Connect {
    /// The name of the command.
    pub fn name(&self) -> (name: &'static str)
        ensures
            name@ == "connect"@,
    {
        "connect"
    }

    /// Whether the command follows the state's changes before it sends its
    /// request: when asked to wait, unless the tunnel is up already.
    pub fn listens(&self, wait: bool, state: TunnelStateTransition) -> (listens: bool)
        ensures
            listens == (wait && !(state is Connected)),
    {
        wait && !matches!(state, TunnelStateTransition::Connected(_))
    }

    /// The request that the command sends.
    pub fn request(&self) -> (request: TunnelCommand)
        ensures
            request == TunnelCommand::Connect,
    {
        TunnelCommand::Connect
    }

    /// What the command does next, when asked to wait or not and having
    /// come as far as `progress`.
    pub fn run(&self, wait: bool, progress: Progress) -> (step: NextStep)
        ensures
            step == spec_next_step(
                wait,
                progress matches Progress::State(state) && wait && !(state is Connected),
                progress,
            ),
    {
        let listens = match progress {
            Progress::State(state) => self.listens(wait, state),
            _ => false,
        };
        next_step(wait, listens, progress)
    }

    /// Whether the command goes on following after it has seen `state`:
    /// until the tunnel is up or the machine is in its error state.
    pub fn continue_condition(&self, state: TunnelStateTransition) -> (goes_on: bool)
        ensures
            goes_on == !attempt_settled(state),
    {
        match state {
            TunnelStateTransition::Connected(_) => false,
            TunnelStateTransition::Error(_, _) => false,
            _ => true,
        }
    }
}

/// `disconnect`: commands the client to disconnect the tunnel.
#[derive(Clone, Copy, Debug, PartialEq, Eq, Structural)]
pub struct Disconnect;

impl Disconnect {
    /// The name of the command.
    pub fn name(&self) -> (name: &'static str)
        ensures
            name@ == "disconnect"@,
    {
        "disconnect"
    }

    /// Whether the command follows the state's changes before it sends its
    /// request: when asked to wait, unless there is no tunnel already.
    pub fn listens(&self, wait: bool, state: TunnelStateTransition) -> (listens: bool)
        ensures
            listens == (wait && !(state is Disconnected)),
    {
        wait && !matches!(state, TunnelStateTransition::Disconnected)
    }

    /// The request that the command sends.
    pub fn request(&self) -> (request: TunnelCommand)
        ensures
            request == TunnelCommand::Disconnect,
    {
        TunnelCommand::Disconnect
    }

    /// What the command does next, when asked to wait or not and having
    /// come as far as `progress`.
    pub fn run(&self, wait: bool, progress: Progress) -> (step: NextStep)
        ensures
            step == spec_next_step(
                wait,
                progress matches Progress::State(state) && wait && !(state is Disconnected),
                progress,
            ),
    {
        let listens = match progress {
            Progress::State(state) => self.listens(wait, state),
            _ => false,
        };
        next_step(wait, listens, progress)
    }

    /// Whether the command goes on following after it has seen `state`:
    /// until there is no tunnel.
    pub fn continue_condition(&self, state: TunnelStateTransition) -> (goes_on: bool)
        ensures
            goes_on == !(state is Disconnected),
    {
        match state {
            TunnelStateTransition::Disconnected => false,
            _ => true,
        }
    }
}

/// `reconnect`: commands the client to reconnect.
#[derive(Clone, Copy, Debug, PartialEq, Eq, Structural)]
pub struct Reconnect;

impl Reconnect {
    /// The name of the command.
    pub fn name(&self) -> (name: &'static str)
        ensures
            name@ == "reconnect"@,
    {
        "reconnect"
    }

    /// Whether a reconnect changes nothing in `state`: there is no tunnel,
    /// or the machine is in its error state and the firewall did not take
    /// the blocking policy.
    pub open spec fn spec_is_idle(state: TunnelStateTransition) -> bool {
        state is Disconnected || (state matches TunnelStateTransition::Error(_, blocking)
            && !blocking)
    }

    /// Whether the command follows the state's changes before it sends its
    /// request: when asked to wait, unless a reconnect changes nothing in
    /// the state.
    pub fn listens(&self, wait: bool, state: TunnelStateTransition) -> (listens: bool)
        ensures
            listens == (wait && !Self::spec_is_idle(state)),
    {
        if !wait {
            return false;
        }
        match state {
            TunnelStateTransition::Disconnected => false,
            TunnelStateTransition::Error(_, false) => false,
            _ => true,
        }
    }

    /// The request that the command sends.
    pub fn request(&self) -> (request: TunnelCommand)
        ensures
            request == TunnelCommand::Reconnect,
    {
        TunnelCommand::Reconnect
    }

    /// What the command does next, when asked to wait or not and having
    /// come as far as `progress`.
    pub fn run(&self, wait: bool, progress: Progress) -> (step: NextStep)
        ensures
            step == spec_next_step(
                wait,
                progress matches Progress::State(state) && wait && !Self::spec_is_idle(state),
                progress,
            ),
    {
        let listens = match progress {
            Progress::State(state) => self.listens(wait, state),
            _ => false,
        };
        next_step(wait, listens, progress)
    }

    /// Whether the command goes on following after it has seen `state`:
    /// until the tunnel is up or the machine is in its error state.
    pub fn continue_condition(&self, state: TunnelStateTransition) -> (goes_on: bool)
        ensures
            goes_on == !attempt_settled(state),
    {
        match state {
            TunnelStateTransition::Connected(_) => false,
            TunnelStateTransition::Error(_, _) => false,
            _ => true,
        }
    }
}

} // verus!
