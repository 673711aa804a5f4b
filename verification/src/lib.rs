//! The controller of a VPN client: the tunnel state machine, the split-tunnel
//! driver protocol it drives, and the rules of the command-line front-end.
//!
//! Nothing in this crate performs I/O. The state machine turns events into
//! the next state and a list of actions for the caller to carry out, and the
//! driver protocol turns requests into the bytes to hand to the device.

pub mod cmds;
pub mod firewall;
pub mod net;
pub mod split_tunnel;
pub mod tunnel;
pub mod tunnel_state_machine;
