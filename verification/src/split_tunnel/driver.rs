//! The control protocol of the split-tunnel driver: its control codes, its
//! states, and the requests a session sends to the device.

use super::config::{
    checked_total_string_size, encodable, make_process_config, paths_view, process_config, word_at,
};
use crate::net::{Ipv4Address, Ipv6Address};
use vstd::bytes::u64_from_le_bytes;
use vstd::prelude::*;
use vstd::slice::slice_subrange;

verus! {

/// The name under which the driver's device is opened.
pub const DRIVER_SYMBOLIC_NAME: &'static str = "\\\\.\\MULLVADSPLITTUNNEL";

/// The device type of the driver's control codes.
pub const ST_DEVICE_TYPE: u32 = 0x8000;

/// Transfer method: the system copies the buffers.
pub const METHOD_BUFFERED: u32 = 0;

/// Transfer method: the driver gets the caller's buffers as they are.
pub const METHOD_NEITHER: u32 = 3;

/// Access: the request needs no particular right on the device.
pub const FILE_ANY_ACCESS: u32 = 0;

/// Size in bytes of the reply to a state request.
pub const STATE_REPLY_SIZE: u32 = 8;

/// A control code: the device type from bit 16, the access from bit 14, the
/// function from bit 2, and the method in the two lowest bits.
pub open spec fn spec_ctl_code(device_type: u32, function: u32, method: u32, access: u32) -> u32 {
    device_type << 16 | access << 14 | function << 2 | method
}

/// Composes a control code from its four fields.
pub fn ctl_code(device_type: u32, function: u32, method: u32, access: u32) -> (code: u32)
    ensures
        code == spec_ctl_code(device_type, function, method, access),
{
    device_type << 16 | access << 14 | function << 2 | method
}

/// The requests the driver understands.
#[derive(Clone, Copy, Debug, PartialEq, Eq, Structural)]
pub enum DriverIoctlCode {
    Initialize,
    DequeEvent,
    RegisterProcesses,
    RegisterIpAddresses,
    GetIpAddresses,
    SetConfiguration,
    GetConfiguration,
    ClearConfiguration,
    GetState,
    QueryProcess,
}

impl DriverIoctlCode {
    /// The request's function number.
    pub open spec fn function(self) -> u32 {
        match self {
            DriverIoctlCode::Initialize => 1,
            DriverIoctlCode::DequeEvent => 2,
            DriverIoctlCode::RegisterProcesses => 3,
            DriverIoctlCode::RegisterIpAddresses => 4,
            DriverIoctlCode::GetIpAddresses => 5,
            DriverIoctlCode::SetConfiguration => 6,
            DriverIoctlCode::GetConfiguration => 7,
            DriverIoctlCode::ClearConfiguration => 8,
            DriverIoctlCode::GetState => 9,
            DriverIoctlCode::QueryProcess => 10,
        }
    }

    /// The request's transfer method.
    pub open spec fn method(self) -> u32 {
        match self {
            DriverIoctlCode::Initialize | DriverIoctlCode::ClearConfiguration => METHOD_NEITHER,
            _ => METHOD_BUFFERED,
        }
    }

    /// The request's control code.
    pub open spec fn spec_code(self) -> u32 {
        spec_ctl_code(ST_DEVICE_TYPE, self.function(), self.method(), FILE_ANY_ACCESS)
    }

    /// The request's control code, as a number.
    pub open spec fn number(self) -> u32 {
        match self {
            DriverIoctlCode::Initialize => 0x8000_0007,
            DriverIoctlCode::DequeEvent => 0x8000_0008,
            DriverIoctlCode::RegisterProcesses => 0x8000_000c,
            DriverIoctlCode::RegisterIpAddresses => 0x8000_0010,
            DriverIoctlCode::GetIpAddresses => 0x8000_0014,
            DriverIoctlCode::SetConfiguration => 0x8000_0018,
            DriverIoctlCode::GetConfiguration => 0x8000_001c,
            DriverIoctlCode::ClearConfiguration => 0x8000_0023,
            DriverIoctlCode::GetState => 0x8000_0024,
            DriverIoctlCode::QueryProcess => 0x8000_0028,
        }
    }

    /// The request's control code, as the device takes it.
    pub fn code(self) -> (code: u32)
        ensures
            code == self.spec_code(),
            code == self.number(),
    {
        proof {
            lemma_control_codes();
            assert(self.spec_code() == self.number());
        }
        match self {
            DriverIoctlCode::Initialize => ctl_code(
                ST_DEVICE_TYPE,
                1,
                METHOD_NEITHER,
                FILE_ANY_ACCESS,
            ),
            DriverIoctlCode::DequeEvent => ctl_code(
                ST_DEVICE_TYPE,
                2,
                METHOD_BUFFERED,
                FILE_ANY_ACCESS,
            ),
            DriverIoctlCode::RegisterProcesses => ctl_code(
                ST_DEVICE_TYPE,
                3,
                METHOD_BUFFERED,
                FILE_ANY_ACCESS,
            ),
            DriverIoctlCode::RegisterIpAddresses => ctl_code(
                ST_DEVICE_TYPE,
                4,
                METHOD_BUFFERED,
                FILE_ANY_ACCESS,
            ),
            DriverIoctlCode::GetIpAddresses => ctl_code(
                ST_DEVICE_TYPE,
                5,
                METHOD_BUFFERED,
                FILE_ANY_ACCESS,
            ),
            DriverIoctlCode::SetConfiguration => ctl_code(
                ST_DEVICE_TYPE,
                6,
                METHOD_BUFFERED,
                FILE_ANY_ACCESS,
            ),
            DriverIoctlCode::GetConfiguration => ctl_code(
                ST_DEVICE_TYPE,
                7,
                METHOD_BUFFERED,
                FILE_ANY_ACCESS,
            ),
            DriverIoctlCode::ClearConfiguration => ctl_code(
                ST_DEVICE_TYPE,
                8,
                METHOD_NEITHER,
                FILE_ANY_ACCESS,
            ),
            DriverIoctlCode::GetState => ctl_code(
                ST_DEVICE_TYPE,
                9,
                METHOD_BUFFERED,
                FILE_ANY_ACCESS,
            ),
            DriverIoctlCode::QueryProcess => ctl_code(
                ST_DEVICE_TYPE,
                10,
                METHOD_BUFFERED,
                FILE_ANY_ACCESS,
            ),
        }
    }
}

/// Composing each request's control code from its fields gives its number.
pub proof fn lemma_control_codes()
    ensures
        forall|code: DriverIoctlCode| #[trigger] code.spec_code() == code.number(),
{
    assert(0x8000u32 << 16 | 0u32 << 14 | 1u32 << 2 | 3u32 == 0x8000_0007u32) by (bit_vector);
    assert(0x8000u32 << 16 | 0u32 << 14 | 2u32 << 2 | 0u32 == 0x8000_0008u32) by (bit_vector);
    assert(0x8000u32 << 16 | 0u32 << 14 | 3u32 << 2 | 0u32 == 0x8000_000cu32) by (bit_vector);
    assert(0x8000u32 << 16 | 0u32 << 14 | 4u32 << 2 | 0u32 == 0x8000_0010u32) by (bit_vector);
    assert(0x8000u32 << 16 | 0u32 << 14 | 5u32 << 2 | 0u32 == 0x8000_0014u32) by (bit_vector);
    assert(0x8000u32 << 16 | 0u32 << 14 | 6u32 << 2 | 0u32 == 0x8000_0018u32) by (bit_vector);
    assert(0x8000u32 << 16 | 0u32 << 14 | 7u32 << 2 | 0u32 == 0x8000_001cu32) by (bit_vector);
    assert(0x8000u32 << 16 | 0u32 << 14 | 8u32 << 2 | 3u32 == 0x8000_0023u32) by (bit_vector);
    assert(0x8000u32 << 16 | 0u32 << 14 | 9u32 << 2 | 0u32 == 0x8000_0024u32) by (bit_vector);
    assert(0x8000u32 << 16 | 0u32 << 14 | 10u32 << 2 | 0u32 == 0x8000_0028u32) by (bit_vector);
}

/// The states of the driver, in the order it passes through them.
#[derive(Clone, Copy, Debug, PartialEq, Eq, Structural)]
pub enum DriverState {
    /// Default state after being loaded.
    Loaded,
    /// The driver's entry point has completed; only the driver and device
    /// objects exist.
    Started,
    /// All subsystems are initialized.
    Initialized,
    /// User mode has registered all processes in the system.
    Ready,
    /// IP addresses and a valid configuration are registered.
    Engaged,
    /// The driver is unloading.
    Terminating,
}

impl DriverState {
    /// The number the driver reports for this state.
    pub open spec fn number(self) -> u64 {
        match self {
            DriverState::Loaded => 0,
            DriverState::Started => 1,
            DriverState::Initialized => 2,
            DriverState::Ready => 3,
            DriverState::Engaged => 4,
            DriverState::Terminating => 5,
        }
    }

    /// The state that the driver reports as `number`, if there is one.
    pub open spec fn spec_from_number(number: u64) -> Option<DriverState> {
        if number == 0 {
            Some(DriverState::Loaded)
        } else if number == 1 {
            Some(DriverState::Started)
        } else if number == 2 {
            Some(DriverState::Initialized)
        } else if number == 3 {
            Some(DriverState::Ready)
        } else if number == 4 {
            Some(DriverState::Engaged)
        } else if number == 5 {
            Some(DriverState::Terminating)
        } else {
            None
        }
    }

    /// The state that the driver reports as `number`; `None` for a number
    /// that stands for no state.
    pub fn from_number(number: u64) -> (state: Option<DriverState>)
        ensures
            state == Self::spec_from_number(number),
            state matches Some(s) ==> s.number() == number,
    {
        match number {
            0 => Some(DriverState::Loaded),
            1 => Some(DriverState::Started),
            2 => Some(DriverState::Initialized),
            3 => Some(DriverState::Ready),
            4 => Some(DriverState::Engaged),
            5 => Some(DriverState::Terminating),
            _ => None,
        }
    }

    /// The number the driver reports for this state.
    pub fn to_number(self) -> (number: u64)
        ensures
            number == self.number(),
            Self::spec_from_number(number) == Some(self),
    {
        match self {
            DriverState::Loaded => 0,
            DriverState::Started => 1,
            DriverState::Initialized => 2,
            DriverState::Ready => 3,
            DriverState::Engaged => 4,
            DriverState::Terminating => 5,
        }
    }

    /// Whether the driver takes a configuration in this state: from
    /// `Initialized` on.
    pub fn accepts_configuration(self) -> (accepted: bool)
        ensures
            accepted == (self.number() >= DriverState::Initialized.number()),
    {
        self.to_number() >= 2
    }

    /// Whether the driver takes IP addresses in this state: from `Ready` on.
    pub fn accepts_ip_addresses(self) -> (accepted: bool)
        ensures
            accepted == (self.number() >= DriverState::Ready.number()),
    {
        self.to_number() >= 3
    }
}

/// The state that a reply to a state request reports: its first eight
/// bytes, read as a little-endian number.
pub open spec fn spec_deserialize_buffer(buffer: Seq<u8>) -> Option<DriverState> {
    if buffer.len() >= STATE_REPLY_SIZE {
        DriverState::spec_from_number(word_at(buffer, 0))
    } else {
        None
    }
}

/// Reads the driver's state out of the reply to a state request. Returns
/// `None` where the reply is shorter than a state or holds a number that
/// stands for no state.
pub fn deserialize_buffer(buffer: &Vec<u8>) -> (state: Option<DriverState>)
    ensures
        state == spec_deserialize_buffer(buffer@),
{
    if buffer.len() < 8 {
        return None;
    }
    DriverState::from_number(u64_from_le_bytes(slice_subrange(buffer.as_slice(), 0, 8)))
}

/// One request to the device: the control code, the bytes that go in, and
/// how many bytes the reply may have.
#[derive(Debug, PartialEq, Eq)]
pub struct IoctlRequest {
    pub ioctl_code: u32,
    pub input: Option<Vec<u8>>,
    pub output_size: u32,
}

impl IoctlRequest {
    /// Whether this is the request `code` with no input and a reply of at
    /// most `output_size` bytes.
    pub open spec fn is_plain(self, code: DriverIoctlCode, output_size: u32) -> bool {
        &&& self.ioctl_code == code.spec_code()
        &&& self.input.is_none()
        &&& self.output_size == output_size
    }

    /// Whether this is the request `code` with the input `input` and no
    /// reply.
    pub open spec fn carries(self, code: DriverIoctlCode, input: Seq<u8>) -> bool {
        &&& self.ioctl_code == code.spec_code()
        &&& self.input matches Some(bytes) && bytes@ == input
        &&& self.output_size == 0
    }
}

/// Why a request could not be made, or what the device answered.
#[derive(Clone, Copy, Debug, PartialEq, Eq, Structural)]
pub enum IoError {
    /// The operating system's error code for a failed request.
    Os(i32),
    /// A reply that cannot be read.
    InvalidData,
    /// Input that has no wire image.
    InvalidInput,
}

/// A session with the driver's device.
#[derive(Debug, PartialEq, Eq)]
pub struct DeviceHandle {
    state: DriverState,
}

impl DeviceHandle {
    /// The driver's state when the session began, after initialization.
    pub closed spec fn spec_state(self) -> DriverState {
        self.state
    }

    /// The state in which a session begins that found the driver in
    /// `found`: a driver that has only started is initialized first.
    pub open spec fn initial_state(found: DriverState) -> DriverState {
        if found == DriverState::Started {
            DriverState::Initialized
        } else {
            found
        }
    }

    /// The request that asks the driver for its state. The reply is read
    /// with [`deserialize_buffer`].
    pub fn get_driver_state() -> (request: IoctlRequest)
        ensures
            request.is_plain(DriverIoctlCode::GetState, STATE_REPLY_SIZE),
    {
        IoctlRequest {
            ioctl_code: DriverIoctlCode::GetState.code(),
            input: None,
            output_size: STATE_REPLY_SIZE,
        }
    }

    /// Begins a session with a driver found in state `found`. Where the
    /// driver has only started, the session's first request initializes it;
    /// in every other state there is nothing to send.
    pub fn new(found: DriverState) -> (session: (DeviceHandle, Option<IoctlRequest>))
        ensures
            session.0.spec_state() == Self::initial_state(found),
            session.1.is_some() == (found == DriverState::Started),
            session.1 matches Some(request) ==> request.is_plain(DriverIoctlCode::Initialize, 0),
    {
        if found == DriverState::Started {
            let device = DeviceHandle { state: DriverState::Initialized };
            let request = device.initialize();
            (device, Some(request))
        } else {
            (DeviceHandle { state: found }, None)
        }
    }

    /// The request that initializes the driver.
    fn initialize(&self) -> (request: IoctlRequest)
        ensures
            request.is_plain(DriverIoctlCode::Initialize, 0),
    {
        IoctlRequest { ioctl_code: DriverIoctlCode::Initialize.code(), input: None, output_size: 0 }
    }

    /// The driver's state when the session began, after initialization.
    pub fn state(&self) -> (state: DriverState)
        ensures
            state == self.spec_state(),
    {
        self.state
    }

    /// The request that hands the driver the applications to exclude, given
    /// by their device paths as UTF-16 code units. Fails with `InvalidInput`
    /// where the paths have no image.
    pub fn set_config(&self, apps: &Vec<Vec<u16>>) -> (request: Result<IoctlRequest, IoError>)
        ensures
            request.is_ok() == encodable(paths_view(apps@)),
            request matches Ok(r) ==> r.carries(
                DriverIoctlCode::SetConfiguration,
                process_config(paths_view(apps@)),
            ),
            request matches Err(e) ==> e == IoError::InvalidInput,
    {
        if checked_total_string_size(apps).is_none() {
            return Err(IoError::InvalidInput);
        }
        let config = make_process_config(apps);
        Ok(
            IoctlRequest {
                ioctl_code: DriverIoctlCode::SetConfiguration.code(),
                input: Some(config),
                output_size: 0,
            },
        )
    }
}

/// Size in bytes of the record that registers addresses.
pub const ADDRESSES_SIZE: usize = 40;

/// The `width` lowest octets of `value`, the highest first.
pub open spec fn network_order(value: nat, width: nat) -> Seq<u8>
    decreases width,
{
    if width == 0 {
        Seq::empty()
    } else {
        network_order(value / 256, (width - 1) as nat).push((value % 256) as u8)
    }
}

/// The number an IPv6 address is registered as: zero where there is none.
pub open spec fn ipv6_or_zero(address: Option<Ipv6Address>) -> nat {
    match address {
        Some(address) => address.bits as nat,
        None => 0,
    }
}

/// The record that registers addresses: the tunnel's IPv4 address, the
/// IPv4 address of the route to the internet, then the two IPv6 addresses,
/// each in network order and all zero where there is none.
pub open spec fn address_registration(
    tunnel_ipv4: Ipv4Address,
    tunnel_ipv6: Option<Ipv6Address>,
    internet_ipv4: Ipv4Address,
    internet_ipv6: Option<Ipv6Address>,
) -> Seq<u8> {
    network_order(tunnel_ipv4.bits as nat, 4) + network_order(internet_ipv4.bits as nat, 4)
        + network_order(ipv6_or_zero(tunnel_ipv6), 16) + network_order(
        ipv6_or_zero(internet_ipv6),
        16,
    )
}

/// `width` octets are `width` bytes.
proof fn lemma_network_order_len(value: nat, width: nat)
    ensures
        network_order(value, width).len() == width,
    decreases width,
{
    if width > 0 {
        lemma_network_order_len(value / 256, (width - 1) as nat);
    }
}

/// Appends the `width` lowest octets of `value`, the highest first.
fn push_network_order(buffer: &mut Vec<u8>, value: u128, width: usize)
    ensures
        final(buffer)@ == old(buffer)@ + network_order(value as nat, width as nat),
    decreases width,
{
    if width > 0 {
        push_network_order(buffer, value / 256, width - 1);
        buffer.push((value % 256) as u8);
    }
}

/// Appends the sixteen octets of an address, or sixteen zero bytes.
fn push_ipv6(buffer: &mut Vec<u8>, address: Option<Ipv6Address>)
    ensures
        final(buffer)@ == old(buffer)@ + network_order(ipv6_or_zero(address), 16),
{
    match address {
        Some(address) => push_network_order(buffer, address.bits, 16),
        None => push_network_order(buffer, 0, 16),
    }
}

impl DeviceHandle {
    /// The request that registers the addresses used to rebind the sockets
    /// of excluded applications.
    pub fn register_ips(
        &self,
        tunnel_ipv4: Ipv4Address,
        tunnel_ipv6: Option<Ipv6Address>,
        internet_ipv4: Ipv4Address,
        internet_ipv6: Option<Ipv6Address>,
    ) -> (request: IoctlRequest)
        ensures
            request.carries(
                DriverIoctlCode::RegisterIpAddresses,
                address_registration(tunnel_ipv4, tunnel_ipv6, internet_ipv4, internet_ipv6),
            ),
            request.input matches Some(bytes) && bytes@.len() == ADDRESSES_SIZE,
    {
        let mut addresses: Vec<u8> = Vec::with_capacity(ADDRESSES_SIZE);
        push_network_order(&mut addresses, tunnel_ipv4.bits as u128, 4);
        push_network_order(&mut addresses, internet_ipv4.bits as u128, 4);
        push_ipv6(&mut addresses, tunnel_ipv6);
        push_ipv6(&mut addresses, internet_ipv6);
        proof {
            lemma_network_order_len(tunnel_ipv4.bits as nat, 4);
            lemma_network_order_len(internet_ipv4.bits as nat, 4);
            lemma_network_order_len(ipv6_or_zero(tunnel_ipv6), 16);
            lemma_network_order_len(ipv6_or_zero(internet_ipv6), 16);
        }
        IoctlRequest {
            ioctl_code: DriverIoctlCode::RegisterIpAddresses.code(),
            input: Some(addresses),
            output_size: 0,
        }
    }
}

} // verus!
