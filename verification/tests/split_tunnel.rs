use talpid_core::net::{Ipv4Address, Ipv6Address};
use talpid_core::split_tunnel::config::{
    checked_total_string_size, make_process_config, parse_process_config, ENTRY_SIZE, HEADER_SIZE,
};
use talpid_core::split_tunnel::driver::{
    ctl_code, deserialize_buffer, DeviceHandle, DriverIoctlCode, DriverState, IoError,
    IoctlRequest, DRIVER_SYMBOLIC_NAME, FILE_ANY_ACCESS, METHOD_BUFFERED, METHOD_NEITHER,
    ST_DEVICE_TYPE,
};
use talpid_core::split_tunnel::{Error, SplitTunnel};

fn wide(path: &str) -> Vec<u16> {
    path.encode_utf16().collect()
}

fn word(buffer: &[u8], offset: usize) -> u64 {
    let mut bytes = [0u8; 8];
    bytes.copy_from_slice(&buffer[offset..offset + 8]);
    u64::from_le_bytes(bytes)
}

fn session(state: u64) -> (SplitTunnel, Option<IoctlRequest>) {
    SplitTunnel::new(&state.to_le_bytes().to_vec()).unwrap()
}

#[test]
fn split_tunnel_configuration_encoding() {
    let paths = vec![wide("C:\\a.exe"), wide("C:\\dir\\b.exe")];
    let buffer = make_process_config(&paths);

    assert_eq!(buffer.len(), 88);
    assert_eq!(word(&buffer, 0), 2);
    assert_eq!(word(&buffer, 8), 48 + 16 + 24);

    assert_eq!(word(&buffer, 16), 0);
    assert_eq!(buffer[24..26], [16, 0]);
    assert_eq!(buffer[26..32], [0; 6]);
    assert_eq!(word(&buffer, 32), 16);
    assert_eq!(buffer[40..42], [24, 0]);
    assert_eq!(buffer[42..48], [0; 6]);

    let mut strings = Vec::new();
    for unit in "C:\\a.exeC:\\dir\\b.exe".encode_utf16() {
        strings.extend_from_slice(&unit.to_le_bytes());
    }
    assert_eq!(buffer[48..], strings[..]);
    assert_eq!(buffer[48..52], [b'C', 0, b':', 0]);
    assert_eq!(parse_process_config(&buffer), Some(paths));
}

#[test]
fn configuration_without_paths_is_a_bare_header() {
    let buffer = make_process_config(&vec![]);
    let mut expected = vec![0u8; 16];
    expected[8] = 16;
    assert_eq!(buffer, expected);
    assert_eq!(parse_process_config(&buffer), Some(vec![]));
}

#[test]
fn configuration_round_trips_beyond_the_basic_plane() {
    let paths = vec![
        wide("\\Device\\HarddiskVolume2\\Program Files\\\u{00e5}\u{4e2d}\u{1f600}.exe"),
        vec![],
        vec![0xffff, 0x0100, 0x00ff, 0xd800],
    ];
    let buffer = make_process_config(&paths);
    assert_eq!(
        buffer.len(),
        HEADER_SIZE + 3 * ENTRY_SIZE + 2 * (paths[0].len() + paths[2].len())
    );
    assert_eq!(word(&buffer, 8) as usize, buffer.len());
    assert_eq!(word(&buffer, 16 + 16), 2 * paths[0].len() as u64);
    assert_eq!(buffer[16 + 16 + 8..16 + 16 + 10], [0, 0]);
    assert_eq!(buffer[buffer.len() - 8..], [0xff, 0xff, 0x00, 0x01, 0xff, 0x00, 0x00, 0xd8]);
    assert_eq!(parse_process_config(&buffer), Some(paths));
}

#[test]
fn name_length_counts_bytes_and_fills_its_field() {
    let paths = vec![vec![0x61u16; 32767]];
    assert_eq!(checked_total_string_size(&paths), Some(65534));
    let buffer = make_process_config(&paths);
    assert_eq!(buffer[24..26], [0xfe, 0xff]);
    assert_eq!(parse_process_config(&buffer), Some(paths));
}

#[test]
fn overlong_path_has_no_configuration() {
    let paths = vec![wide("C:\\a.exe"), vec![0x61u16; 32768]];
    assert_eq!(checked_total_string_size(&paths), None);
    let mut split_tunnel = session(2).0;
    assert_eq!(
        split_tunnel.set_paths(&paths),
        Err(Error::SetConfiguration(IoError::InvalidInput))
    );
    assert_eq!(DeviceHandle::new(DriverState::Ready).0.set_config(&paths), Err(IoError::InvalidInput));
}

#[test]
fn malformed_configurations_are_rejected() {
    let good = make_process_config(&vec![wide("C:\\a.exe"), wide("D:\\b")]);
    assert!(parse_process_config(&good).is_some());

    assert_eq!(parse_process_config(&vec![]), None);
    assert_eq!(parse_process_config(&good[..15].to_vec()), None);

    let mut truncated = good.clone();
    truncated.pop();
    assert_eq!(parse_process_config(&truncated), None);

    let mut wrong_total = good.clone();
    wrong_total[8] += 1;
    assert_eq!(parse_process_config(&wrong_total), None);

    let mut too_many = good.clone();
    too_many[0] = 200;
    assert_eq!(parse_process_config(&too_many), None);

    let mut huge_count = good.clone();
    huge_count[7] = 0xff;
    assert_eq!(parse_process_config(&huge_count), None);

    let mut odd_length = good.clone();
    odd_length[24] = 15;
    assert_eq!(parse_process_config(&odd_length), None);

    let mut beyond = good.clone();
    beyond[32 + 8] = 10;
    assert_eq!(parse_process_config(&beyond), None);

    let mut far_offset = good.clone();
    far_offset[32 + 7] = 0x80;
    assert_eq!(parse_process_config(&far_offset), None);
}

#[test]
fn parser_takes_entries_in_any_layout() {
    let mut image = make_process_config(&vec![wide("ab"), wide("cd")]);
    image[16] = 2;
    image[24] = 4;
    image[32] = 0;
    image[40] = 2;
    assert_eq!(parse_process_config(&image), Some(vec![wide("bc"), wide("a")]));
}

#[test]
fn control_codes() {
    assert_eq!(ctl_code(ST_DEVICE_TYPE, 1, METHOD_NEITHER, FILE_ANY_ACCESS), 0x8000_0007);
    assert_eq!(ctl_code(0x22, 0x801, 2, 3), 0x0022_e006);
    assert_eq!(ctl_code(1, 1, 1, 1), 0x0001_4005);
    assert_eq!(ctl_code(0xffff_8000, 0, 0, 0), 0x8000_0000);
    assert_eq!((METHOD_BUFFERED, METHOD_NEITHER, FILE_ANY_ACCESS), (0, 3, 0));

    assert_eq!(DriverIoctlCode::Initialize.code(), 0x8000_0007);
    assert_eq!(DriverIoctlCode::DequeEvent.code(), 0x8000_0008);
    assert_eq!(DriverIoctlCode::RegisterProcesses.code(), 0x8000_000c);
    assert_eq!(DriverIoctlCode::RegisterIpAddresses.code(), 0x8000_0010);
    assert_eq!(DriverIoctlCode::GetIpAddresses.code(), 0x8000_0014);
    assert_eq!(DriverIoctlCode::SetConfiguration.code(), 0x8000_0018);
    assert_eq!(DriverIoctlCode::GetConfiguration.code(), 0x8000_001c);
    assert_eq!(DriverIoctlCode::ClearConfiguration.code(), 0x8000_0023);
    assert_eq!(DriverIoctlCode::GetState.code(), 0x8000_0024);
    assert_eq!(DriverIoctlCode::QueryProcess.code(), 0x8000_0028);
    assert_eq!(DRIVER_SYMBOLIC_NAME, r"\\.\MULLVADSPLITTUNNEL");
}

#[test]
fn driver_states_are_numbered_in_order() {
    let states = [
        DriverState::Loaded,
        DriverState::Started,
        DriverState::Initialized,
        DriverState::Ready,
        DriverState::Engaged,
        DriverState::Terminating,
    ];
    for (number, state) in states.iter().enumerate() {
        assert_eq!(state.to_number(), number as u64);
        assert_eq!(DriverState::from_number(number as u64), Some(*state));
        assert_eq!(state.accepts_configuration(), number >= 2);
        assert_eq!(state.accepts_ip_addresses(), number >= 3);
    }
    assert_eq!(DriverState::from_number(6), None);
    assert_eq!(DriverState::from_number(u64::MAX), None);
}

#[test]
fn state_reply_is_read_as_a_little_endian_word() {
    assert_eq!(deserialize_buffer(&vec![3, 0, 0, 0, 0, 0, 0, 0]), Some(DriverState::Ready));
    assert_eq!(deserialize_buffer(&vec![1, 0, 0, 0, 0, 0, 0, 0, 9]), Some(DriverState::Started));
    assert_eq!(deserialize_buffer(&vec![0, 0, 0, 0, 0, 0, 0, 1]), None);
    assert_eq!(deserialize_buffer(&vec![0, 1, 0, 0, 0, 0, 0, 0]), None);
    assert_eq!(deserialize_buffer(&vec![6, 0, 0, 0, 0, 0, 0, 0]), None);
    assert_eq!(deserialize_buffer(&vec![1, 0, 0, 0, 0, 0, 0]), None);
    assert_eq!(deserialize_buffer(&vec![]), None);
}

#[test]
fn session_initializes_a_driver_that_has_only_started() {
    assert_eq!(
        DeviceHandle::get_driver_state(),
        IoctlRequest { ioctl_code: 0x8000_0024, input: None, output_size: 8 }
    );

    let (split_tunnel, request) = session(1);
    assert_eq!(
        request,
        Some(IoctlRequest { ioctl_code: 0x8000_0007, input: None, output_size: 0 })
    );
    assert_eq!(split_tunnel.state(), DriverState::Initialized);

    for (number, state) in
        [(0, DriverState::Loaded), (2, DriverState::Initialized), (4, DriverState::Engaged)]
    {
        let (split_tunnel, request) = session(number);
        assert_eq!(request, None);
        assert_eq!(split_tunnel.state(), state);
    }
}

#[test]
fn session_fails_on_a_reply_that_names_no_state() {
    assert_eq!(
        SplitTunnel::new(&vec![7, 0, 0, 0, 0, 0, 0, 0]),
        Err(Error::InitializationFailed(IoError::InvalidData))
    );
    assert_eq!(
        SplitTunnel::new(&vec![1, 0, 0]),
        Err(Error::InitializationFailed(IoError::InvalidData))
    );
}

#[test]
fn set_paths_sends_the_configuration() {
    let paths = vec![wide("C:\\a.exe"), wide("C:\\dir\\b.exe")];
    let mut split_tunnel = session(3).0;
    let request = split_tunnel.set_paths(&paths).unwrap();
    assert_eq!(request.ioctl_code, 0x8000_0018);
    assert_eq!(request.output_size, 0);
    assert_eq!(request.input, Some(make_process_config(&paths)));
    assert_eq!(split_tunnel.state(), DriverState::Ready);
}

#[test]
fn addresses_are_registered_in_network_order() {
    let split_tunnel = session(3).0;
    let request = split_tunnel.register_ips(
        Ipv4Address::new(10, 64, 0, 2),
        Some(Ipv6Address { bits: 0xfc00_bbbb_bbbb_bb01_0000_0000_0000_0102 }),
        Ipv4Address::new(192, 168, 1, 20),
        None,
    );
    let mut expected = vec![10, 64, 0, 2, 192, 168, 1, 20];
    expected.extend_from_slice(&[0xfc, 0x00, 0xbb, 0xbb, 0xbb, 0xbb, 0xbb, 0x01]);
    expected.extend_from_slice(&[0, 0, 0, 0, 0, 0, 0x01, 0x02]);
    expected.extend_from_slice(&[0; 16]);
    assert_eq!(
        request,
        IoctlRequest { ioctl_code: 0x8000_0010, input: Some(expected), output_size: 0 }
    );

    assert_eq!(
        split_tunnel.unregister_ips(),
        IoctlRequest { ioctl_code: 0x8000_0010, input: Some(vec![0; 40]), output_size: 0 }
    );
}

#[test]
fn missing_default_route_registers_the_zero_address() {
    assert_eq!(SplitTunnel::internet_ipv4(None), Ipv4Address { bits: 0 });
    assert_eq!(
        SplitTunnel::internet_ipv4(Some(Ipv4Address::new(192, 168, 1, 20))),
        Ipv4Address::new(192, 168, 1, 20)
    );
}

#[test]
fn errors_say_what_failed() {
    let error = Error::InitializationFailed(IoError::Os(2));
    assert_eq!(error.message(), "Failed to initialize split tunneling");
    assert_eq!(error.source(), IoError::Os(2));
    let error = Error::SetConfiguration(IoError::InvalidInput);
    assert_eq!(error.message(), "Failed to set list of excluded applications");
    assert_eq!(error.source(), IoError::InvalidInput);
    let error = Error::RegisterIps(IoError::Os(5));
    assert_eq!(error.message(), "Failed to register IP addresses for exclusions");
    assert_eq!(error.source(), IoError::Os(5));
}
