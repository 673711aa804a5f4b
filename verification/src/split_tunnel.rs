//! Excluding applications from the tunnel through the split-tunnel driver.
//!
//! Nothing here touches the device. A session turns what the caller wants
//! into the requests to send, and the caller sends them.

pub mod config;
pub mod driver;

use crate::net::{Ipv4Address, Ipv6Address};
use config::{encodable, paths_view, process_config};
use driver::{
    address_registration, deserialize_buffer, spec_deserialize_buffer, DeviceHandle,
    DriverIoctlCode, DriverState, IoError, IoctlRequest,
};
use vstd::prelude::*;

verus! {

/// Errors that may occur in [`SplitTunnel`].
#[derive(Clone, Copy, Debug, PartialEq, Eq, Structural)]
pub enum Error {
    /// Failed to identify or initialize the driver.
    InitializationFailed(IoError),
    /// Failed to set paths to excluded applications.
    SetConfiguration(IoError),
    /// Failed to register interface IP addresses.
    RegisterIps(IoError),
}

impl Error {
    /// What went wrong, in words.
    pub fn message(&self) -> (message: &'static str)
        ensures
            message@ == match *self {
                Error::InitializationFailed(_) => "Failed to initialize split tunneling"@,
                Error::SetConfiguration(_) => "Failed to set list of excluded applications"@,
                Error::RegisterIps(_) => "Failed to register IP addresses for exclusions"@,
            },
    {
        match self {
            Error::InitializationFailed(_) => "Failed to initialize split tunneling",
            Error::SetConfiguration(_) => "Failed to set list of excluded applications",
            Error::RegisterIps(_) => "Failed to register IP addresses for exclusions",
        }
    }

    /// What the failure goes back to.
    pub fn source(&self) -> (source: IoError)
        ensures
            source == match *self {
                Error::InitializationFailed(source) => source,
                Error::SetConfiguration(source) => source,
                Error::RegisterIps(source) => source,
            },
    {
        match self {
            Error::InitializationFailed(source) => *source,
            Error::SetConfiguration(source) => *source,
            Error::RegisterIps(source) => *source,
        }
    }
}

/// Manages applications whose traffic to exclude from the tunnel.
#[derive(Debug, PartialEq, Eq)]
pub struct SplitTunnel(DeviceHandle);

impl SplitTunnel {
    /// The driver's state when the session began, after initialization.
    pub closed spec fn spec_state(self) -> DriverState {
        self.0.spec_state()
    }

    /// The driver's state when the session began, after initialization.
    pub fn state(&self) -> (state: DriverState)
        ensures
            state == self.spec_state(),
    {
        self.0.state()
    }

    /// Begins a session with the driver from its reply to
    /// [`DeviceHandle::get_driver_state`]. The request that comes with the
    /// session, if any, initializes the driver and is to be sent first.
    ///
    /// Fails where the reply names no state.
    pub fn new(
        state_reply: &Vec<u8>,
    ) -> (session: Result<(SplitTunnel, Option<IoctlRequest>), Error>)
        ensures
            match spec_deserialize_buffer(state_reply@) {
                Some(found) => {
                    &&& session matches Ok((split_tunnel, request))
                    &&& split_tunnel.spec_state() == DeviceHandle::initial_state(found)
                    &&& request.is_some() == (found == DriverState::Started)
                    &&& request matches Some(r) ==> r.is_plain(DriverIoctlCode::Initialize, 0)
                },
                None => session == Err::<(SplitTunnel, Option<IoctlRequest>), Error>(
                    Error::InitializationFailed(IoError::InvalidData),
                ),
            },
    {
        match deserialize_buffer(state_reply) {
            Some(found) => {
                let (device, request) = DeviceHandle::new(found);
                Ok((SplitTunnel(device), request))
            },
            None => Err(Error::InitializationFailed(IoError::InvalidData)),
        }
    }

    /// The request that sets the applications to exclude from the tunnel,
    /// given by their device paths as UTF-16 code units.
    ///
    /// Fails where a path is too long for the driver or the paths together
    /// are too long for the host.
    pub fn set_paths(&mut self, paths: &Vec<Vec<u16>>) -> (request: Result<IoctlRequest, Error>)
        ensures
            *final(self) == *old(self),
            request.is_ok() == encodable(paths_view(paths@)),
            request matches Ok(r) ==> r.carries(
                DriverIoctlCode::SetConfiguration,
                process_config(paths_view(paths@)),
            ),
            request matches Err(e) ==> e == Error::SetConfiguration(IoError::InvalidInput),
    {
        match self.0.set_config(paths) {
            Ok(request) => Ok(request),
            Err(error) => Err(Error::SetConfiguration(error)),
        }
    }

    /// The address to register for the route to the internet: that of the
    /// default route, and `0.0.0.0` where the host has no default route.
    pub fn internet_ipv4(default_route: Option<Ipv4Address>) -> (address: Ipv4Address)
        ensures
            address == match default_route {
                Some(address) => address,
                None => Ipv4Address::unspecified(),
            },
    {
        match default_route {
            Some(address) => address,
            None => Ipv4Address::zero(),
        }
    }

    /// The request that configures the IP addresses used for socket
    /// rebinding.
    pub fn register_ips(
        &self,
        tunnel_ipv4: Ipv4Address,
        tunnel_ipv6: Option<Ipv6Address>,
        internet_ipv4: Ipv4Address,
        internet_ipv6: Option<Ipv6Address>,
    ) -> (request: IoctlRequest)
        ensures
            request.carries(
                DriverIoctlCode::RegisterIpAddresses,
                address_registration(tunnel_ipv4, tunnel_ipv6, internet_ipv4, internet_ipv6),
            ),
    {
        self.0.register_ips(tunnel_ipv4, tunnel_ipv6, internet_ipv4, internet_ipv6)
    }

    /// The request that registers no addresses: every address zero.
    pub fn unregister_ips(&self) -> (request: IoctlRequest)
        ensures
            request.carries(
                DriverIoctlCode::RegisterIpAddresses,
                address_registration(
                    Ipv4Address::unspecified(),
                    None,
                    Ipv4Address::unspecified(),
                    None,
                ),
            ),
    {
        self.0.register_ips(Ipv4Address::zero(), None, Ipv4Address::zero(), None)
    }
}

} // verus!
