use openscq30::modules::DualConnectionsDevicePacketHandler;
use openscq30::packet::inbound::{DualBatteryCharging, DualConnectionsDevicePacket};
use openscq30::packet::{Command, Inbound, ParseError};
use openscq30::structures::{DualConnections, DualConnectionsDevice, IsBatteryCharging, MacAddress};

#[test]
fn it_parses_a_manually_crafted_packet() {
    let input: &[u8] = &[
        0x09, 0xff, 0x00, 0x00, 0x01, 0x01, 0x04, 0x0c, 0x00, 0x01, 0x00, 0x1b,
    ];
    // The body sits between the nine header bytes (prefix, command, length) and the
    // trailing checksum byte.
    let body = &input[9..input.len() - 1];
    let packet = DualBatteryCharging::take(body).unwrap().1;

    assert_eq!(IsBatteryCharging::Yes, packet.left);
    assert_eq!(IsBatteryCharging::No, packet.right);
}

#[test]
fn battery_charging_rejects_short_and_long_bodies() {
    assert_eq!(DualBatteryCharging::take(&[0x01]), Err(ParseError::UnexpectedEnd));
    assert_eq!(DualBatteryCharging::take(&[]), Err(ParseError::UnexpectedEnd));
    assert_eq!(
        DualBatteryCharging::take(&[0x01, 0x01, 0x00]),
        Err(ParseError::TrailingBytes)
    );
    let (_, packet) = DualBatteryCharging::take(&[0x02, 0x01]).unwrap();
    assert_eq!(packet.left, IsBatteryCharging::No);
    assert_eq!(packet.right, IsBatteryCharging::Yes);
}

#[test]
fn empty_list() {
    // `[0]` marks an empty device list / end of list.
    let initial = [0x00];
    let (remaining, parsed) = DualConnectionsDevicePacket::take(&initial).unwrap();
    assert_eq!(remaining.len(), 0);
    assert!(parsed.devices.is_empty());
}

#[test]
fn single_device() {
    // `[1, mac(6)]` — one connected device, no name field.
    let initial = [0x01, 0x27, 0x65, 0xF4, 0x18, 0xB3, 0xE4];
    let (remaining, parsed) = DualConnectionsDevicePacket::take(&initial).unwrap();
    assert_eq!(remaining.len(), 0);
    assert_eq!(parsed.devices.len(), 1);
    assert!(parsed.devices[0].is_connected);
    assert_eq!(
        parsed.devices[0].mac_address.to_string(),
        "27:65:F4:18:B3:E4"
    );
    assert_eq!(parsed.devices[0].name, "");
}

#[test]
fn multiple_devices_then_terminator() {
    // Two connected devices followed by a `[0]` terminator.
    let initial = [
        0x01, 0x27, 0x65, 0xF4, 0x18, 0xB3, 0xE4, // phone
        0x01, 0x01, 0x00, 0x00, 0x46, 0x00, 0x00, // placeholder
        0x00, // end of list
    ];
    let (remaining, parsed) = DualConnectionsDevicePacket::take(&initial).unwrap();
    assert_eq!(remaining.len(), 0);
    assert_eq!(parsed.devices.len(), 2);
    assert_eq!(
        parsed.devices[0].mac_address.to_string(),
        "27:65:F4:18:B3:E4"
    );
    assert_eq!(
        parsed.devices[1].mac_address.to_string(),
        "01:00:00:46:00:00"
    );
}

#[test]
fn truncated_record_is_an_error() {
    assert_eq!(
        DualConnectionsDevicePacket::take(&[0x01, 0x27, 0x65]),
        Err(ParseError::UnexpectedEnd)
    );
    assert_eq!(
        DualConnectionsDevicePacket::take(&[0x01, 1, 2, 3, 4, 5, 6, 0x01, 9]),
        Err(ParseError::UnexpectedEnd)
    );
}

#[test]
fn bytes_after_the_end_marker_are_ignored() {
    let (remaining, parsed) =
        DualConnectionsDevicePacket::take(&[0x01, 1, 2, 3, 4, 5, 6, 0x00, 0x01, 0x02]).unwrap();
    assert_eq!(remaining.len(), 0);
    assert_eq!(parsed.devices.len(), 1);
    assert_eq!(parsed.total_packets, 1);
    assert_eq!(parsed.current_packet_index, 1);
}

#[test]
fn a_flag_other_than_one_is_a_disconnected_device() {
    let (_, parsed) = DualConnectionsDevicePacket::take(&[0x02, 1, 2, 3, 4, 5, 6]).unwrap();
    assert_eq!(parsed.devices.len(), 1);
    assert!(!parsed.devices[0].is_connected);
}

#[test]
fn snapshot_counters_wrap_past_255() {
    let mut body = Vec::new();
    for i in 0..257u32 {
        body.push(0x01);
        body.extend_from_slice(&[0, 0, 0, 0, (i >> 8) as u8, i as u8]);
    }
    let (_, parsed) = DualConnectionsDevicePacket::take(&body).unwrap();
    assert_eq!(parsed.devices.len(), 257);
    assert_eq!(parsed.total_packets, 1);
    assert_eq!(parsed.current_packet_index, 1);
}

#[test]
fn body_reads_back_as_the_same_devices() {
    let packet = DualConnectionsDevicePacket {
        total_packets: 2,
        current_packet_index: 2,
        devices: vec![
            DualConnectionsDevice {
                is_connected: true,
                mac_address: MacAddress::new(0x27, 0x65, 0xF4, 0x18, 0xB3, 0xE4),
                name: String::new(),
            },
            DualConnectionsDevice {
                is_connected: true,
                mac_address: MacAddress::new(1, 0, 0, 0x46, 0, 0),
                name: String::new(),
            },
        ],
    };
    let body = packet.body();
    assert_eq!(
        body,
        vec![0x01, 0x27, 0x65, 0xF4, 0x18, 0xB3, 0xE4, 0x01, 0x01, 0x00, 0x00, 0x46, 0x00, 0x00]
    );
    let (_, parsed) = DualConnectionsDevicePacket::take(&body).unwrap();
    assert_eq!(parsed, packet);
    assert_eq!(packet.command(), Command([0x0b, 0x02]));
    assert_eq!(DualConnectionsDevicePacket::command_code(), Command([0x0b, 0x02]));
}

#[test]
fn device_bytes_and_take() {
    let device = DualConnectionsDevice {
        is_connected: false,
        mac_address: MacAddress::new(0xAC, 0xDE, 0x48, 0x23, 0x45, 0x67),
        name: String::new(),
    };
    let bytes = device.bytes();
    assert_eq!(bytes, vec![0x00, 0xAC, 0xDE, 0x48, 0x23, 0x45, 0x67]);
    let (rest, read) = DualConnectionsDevice::take(&bytes).unwrap();
    assert!(rest.is_empty());
    assert_eq!(read, device);
    assert_eq!(read.mac_address.to_string(), "AC:DE:48:23:45:67");
    assert_eq!(read.mac_address.into_array(), [0xAC, 0xDE, 0x48, 0x23, 0x45, 0x67]);
    assert_eq!(DualConnectionsDevice::take(&bytes[..6]), Err(ParseError::UnexpectedEnd));
}

#[test]
fn replaces_list_with_latest_snapshot() {
    let handler = DualConnectionsDevicePacketHandler;
    let mut state = DualConnections {
        is_enabled: true,
        devices: Vec::new(),
    };

    // First snapshot lists device A.
    handler
        .handle_packet(
            &mut state,
            &Inbound::new(
                DualConnectionsDevicePacket::command_code(),
                vec![0x01, 0x00, 0x00, 0x00, 0x00, 0x00, 0x01],
            ),
        )
        .unwrap();

    // A later snapshot lists devices B and C; it must replace the list.
    handler
        .handle_packet(
            &mut state,
            &Inbound::new(
                DualConnectionsDevicePacket::command_code(),
                vec![
                    0x01, 0x00, 0x00, 0x00, 0x00, 0x00, 0x02, // B
                    0x01, 0x00, 0x00, 0x00, 0x00, 0x00, 0x03, // C
                ],
            ),
        )
        .unwrap();

    assert_eq!(
        state.devices,
        vec![
            DualConnectionsDevice {
                is_connected: true,
                mac_address: MacAddress::new(0, 0, 0, 0, 0, 2),
                name: String::new(),
            },
            DualConnectionsDevice {
                is_connected: true,
                mac_address: MacAddress::new(0, 0, 0, 0, 0, 3),
                name: String::new(),
            },
        ]
    )
}

#[test]
fn empty_snapshot_clears_list() {
    let handler = DualConnectionsDevicePacketHandler;
    let mut state = DualConnections {
        is_enabled: true,
        devices: vec![DualConnectionsDevice {
            is_connected: true,
            mac_address: MacAddress::new(0, 0, 0, 0, 0, 1),
            name: String::new(),
        }],
    };

    // A `[0]` packet reports an empty list.
    handler
        .handle_packet(
            &mut state,
            &Inbound::new(DualConnectionsDevicePacket::command_code(), vec![0x00]),
        )
        .unwrap();

    assert!(state.devices.is_empty())
}

#[test]
fn unreadable_snapshot_leaves_state_unchanged() {
    let handler = DualConnectionsDevicePacketHandler;
    let before = DualConnections {
        is_enabled: false,
        devices: vec![DualConnectionsDevice {
            is_connected: true,
            mac_address: MacAddress::new(0, 0, 0, 0, 0, 1),
            name: String::new(),
        }],
    };
    let mut state = before.clone();
    let result = handler.handle_packet(
        &mut state,
        &Inbound::new(DualConnectionsDevicePacketHandler::command_code(), vec![0x01, 0x02]),
    );
    assert_eq!(result, Err(ParseError::UnexpectedEnd));
    assert_eq!(state, before);
}

#[test]
fn an_empty_snapshot_is_packet_one_of_one() {
    let (_, parsed) = DualConnectionsDevicePacket::take(&[0x00]).unwrap();
    assert_eq!(parsed.total_packets, 1);
    assert_eq!(parsed.current_packet_index, 1);
}

#[test]
fn snapshot_counters_are_the_device_count() {
    let (_, parsed) = DualConnectionsDevicePacket::take(&[
        0x01, 0x27, 0x65, 0xF4, 0x18, 0xB3, 0xE4, 0x01, 0x01, 0x00, 0x00, 0x46, 0x00, 0x00, 0x00,
    ])
    .unwrap();
    assert_eq!(parsed.total_packets, 2);
    assert_eq!(parsed.current_packet_index, 2);
}
