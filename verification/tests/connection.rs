use openscq30::connection::{
    available_devices, find_descriptor, ConnectEvent, ConnectionAction, ConnectionDescriptor,
    ConnectionPhase, ConnectionState, paired_device_to_connect, PairedDevice,
};
use openscq30::structures::MacAddress;

fn descriptors() -> Vec<ConnectionDescriptor> {
    vec![
        ConnectionDescriptor {
            name: "Phone".to_string(),
            mac_address: MacAddress::new(1, 2, 3, 4, 5, 6),
        },
        ConnectionDescriptor {
            name: "R50i NC".to_string(),
            mac_address: MacAddress::new(0xAA, 0xBB, 0xCC, 0xDD, 0xEE, 0xFF),
        },
    ]
}

#[test]
fn startup_and_connect() {
    let mut state = ConnectionState::new();
    assert_eq!(state.phase, ConnectionPhase::Disconnected);
    assert_eq!(state.status_message, "Not connected");
    assert!(matches!(state.startup(), ConnectionAction::Connect));
    assert_eq!(state.phase, ConnectionPhase::Connecting);
    assert!(state.busy);
    assert_eq!(state.status_message, "Looking for your device\u{2026}");
    assert!(matches!(state.handle_connect_event(ConnectEvent::Connected), ConnectionAction::ShowDevice));
    assert_eq!(state.phase, ConnectionPhase::Connected);
    assert_eq!(state.device_name, "Soundcore R50i NC");
    assert_eq!(state.status_message, "Connected");
    assert!(!state.busy);
    assert!(matches!(state.startup(), ConnectionAction::Idle));
    assert!(matches!(state.handle_disconnect(), ConnectionAction::ClearDevice));
    assert_eq!(state.status_message, "Device disconnected");
    assert!(matches!(state.handle_disconnect(), ConnectionAction::Idle));
}

#[test]
fn failed_and_missing_devices() {
    let mut state = ConnectionState::new();
    state.startup();
    assert!(matches!(state.handle_connect_event(ConnectEvent::Failed("timed out".to_string())), ConnectionAction::Idle));
    assert_eq!(state.status_message, "timed out");
    assert_eq!(state.phase, ConnectionPhase::Disconnected);
    assert!(!state.busy);
    assert!(matches!(state.handle_connect_event(ConnectEvent::NoDevices), ConnectionAction::ListDevices));
    assert!(state.busy);
    assert_eq!(state.status_message, "Scanning for devices\u{2026}");
    state.handle_list_devices_result(Err("no adapter".to_string()));
    assert_eq!(state.status_message, "no adapter");
    assert!(state.available_devices.is_empty());
}

#[test]
fn pairing() {
    let mut state = ConnectionState::new();
    state.list_devices();
    state.handle_list_devices_result(Ok(descriptors()));
    assert_eq!(state.status_message, "Select a device to pair");
    assert!(!state.busy);
    match state.pair_and_connect(&"AA:BB:CC:DD:EE:FF".to_string(), true) {
        ConnectionAction::PairAndConnect(device) => {
            assert_eq!(device.mac_address, MacAddress::new(0xAA, 0xBB, 0xCC, 0xDD, 0xEE, 0xFF));
            assert!(device.is_r50i);
            assert!(device.is_demo);
        }
        other => panic!("unexpected action {other:?}"),
    }
    match state.pair_and_connect(&"01:02:03:04:05:06".to_string(), false) {
        ConnectionAction::PairAndConnect(device) => assert!(!device.is_demo),
        other => panic!("unexpected action {other:?}"),
    }
    assert_eq!(state.status_message, "Pairing\u{2026}");
    assert_eq!(state.phase, ConnectionPhase::Connecting);
    assert!(matches!(state.pair_and_connect(&"00:00:00:00:00:00".to_string(), false), ConnectionAction::Idle));
    assert_eq!(
        state.status_message,
        "Device 00:00:00:00:00:00 is no longer visible; scan again"
    );
    assert!(matches!(state.disconnect(), ConnectionAction::ClearDevice));
    assert_eq!(state.status_message, "Disconnected");
}

#[test]
fn setting_changes() {
    let mut state = ConnectionState::new();
    state.begin_setting_change();
    assert!(state.busy);
    assert!(matches!(state.finish_setting_change(Err("refused".to_string())), ConnectionAction::ShowDevice));
    assert!(!state.busy);
    assert_eq!(state.status_message, "refused");
    state.finish_setting_change(Ok(()));
    assert_eq!(state.status_message, "refused");
}

#[test]
fn device_rows() {
    let rows = available_devices(&descriptors());
    assert_eq!(rows[0].name, "Phone");
    assert_eq!(rows[0].mac, "01:02:03:04:05:06");
    assert_eq!(rows[1].mac, "AA:BB:CC:DD:EE:FF");
    assert_eq!(find_descriptor(&descriptors(), &"01:02:03:04:05:06".to_string()), Some(0));
    assert_eq!(find_descriptor(&descriptors(), &"aa:bb:cc:dd:ee:ff".to_string()), None);
}

#[test]
fn startup_prefers_the_paired_r50i() {
    assert_eq!(paired_device_to_connect(&vec![false, true, true]), Some(1));
    assert_eq!(paired_device_to_connect(&vec![false, false]), Some(0));
    assert_eq!(paired_device_to_connect(&vec![true]), Some(0));
    assert_eq!(paired_device_to_connect(&vec![]), None);

    let phone = PairedDevice { mac_address: MacAddress::new(1, 2, 3, 4, 5, 6), is_r50i: false, is_demo: false };
    let earbuds = PairedDevice { mac_address: MacAddress::new(9, 9, 9, 9, 9, 9), is_r50i: true, is_demo: false };
    let mut state = ConnectionState::new();
    assert!(matches!(state.startup(), ConnectionAction::Connect));
    match state.handle_paired_devices(&vec![phone, earbuds]) {
        ConnectionAction::ConnectTo(mac) => assert_eq!(mac, earbuds.mac_address),
        _ => panic!("expected a connect"),
    }
    assert_eq!(state.phase, ConnectionPhase::Connecting);
    match state.handle_paired_devices(&vec![phone]) {
        ConnectionAction::ConnectTo(mac) => assert_eq!(mac, phone.mac_address),
        _ => panic!("expected a connect"),
    }
}

#[test]
fn startup_with_nothing_paired_scans() {
    let mut state = ConnectionState::new();
    state.startup();
    assert!(matches!(state.handle_paired_devices(&vec![]), ConnectionAction::ListDevices));
    assert_eq!(state.phase, ConnectionPhase::Disconnected);
    assert_eq!(state.status_message, "Scanning for devices\u{2026}");
    assert!(state.busy);
}
