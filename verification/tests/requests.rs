use openscq30::backend::{
    dual_connection_device_change, remove_dual_connection_device_change, setting_change,
    tray_command_action, SettingRequest, TrayAction,
};
use openscq30::gui_tray;
use std::collections::VecDeque;

use openscq30::connection::PairedDevice;
use openscq30::structures::MacAddress;

use openscq30::gui_app::{
    close_warning, initial_screen, initial_window, shown_drawer, DrawerKind, ListedDevice, language_position, push_warning, push_warning_within, screen_step,
    toggle_about, toggle_settings, ContextDrawerScreen, ScreenEvent, ScreenKind,
};
use openscq30::settings::{Equalizer, Select, Setting, SettingId, Value};
use openscq30::tray::TrayCommand;

fn strings(values: &[&str]) -> Vec<String> {
    values.iter().map(|value| value.to_string()).collect()
}

fn ambient() -> Option<Setting> {
    Some(Setting::Select {
        setting: Select {
            options: strings(&["Normal", "Transparency", "NoiseCanceling"]),
            localized_options: strings(&["Normal", "Transparency", "Noise Canceling"]),
        },
        value: "Normal".to_string(),
    })
}

#[test]
fn setting_changes_from_requests() {
    assert!(matches!(
        setting_change(true, "touchTone", &None, SettingRequest::Toggle(true)),
        Some((SettingId::TouchTone, Value::Bool(true)))
    ));
    assert!(setting_change(false, "touchTone", &None, SettingRequest::Toggle(true)).is_none());
    assert!(setting_change(true, "noSuchSetting", &None, SettingRequest::Toggle(true)).is_none());
    assert!(matches!(
        setting_change(true, "ambientSoundMode", &ambient(), SettingRequest::SelectByIndex(2)),
        Some((SettingId::AmbientSoundMode, Value::String(mode))) if mode == "NoiseCanceling"
    ));
    assert!(setting_change(true, "ambientSoundMode", &None, SettingRequest::Select("Normal".to_string())).is_none());
    assert!(matches!(
        setting_change(true, "manualNoiseCanceling", &None, SettingRequest::Range(4)),
        Some((SettingId::ManualNoiseCanceling, Value::I32(4)))
    ));
    assert!(matches!(
        setting_change(true, "resetButtonsToDefault", &Some(Setting::Action), SettingRequest::Trigger),
        Some((SettingId::ResetButtonsToDefault, Value::Bool(true)))
    ));
    let equalizer = Some(Setting::Equalizer {
        setting: Equalizer { band_hz: vec![100, 200], min: -60, max: 60 },
        read_only: false,
        value: vec![0, 0],
    });
    assert!(matches!(
        setting_change(true, "volumeAdjustments", &equalizer, SettingRequest::EqualizerBand { index: 1, value: 12 }),
        Some((SettingId::VolumeAdjustments, Value::I16Vec(values))) if values == vec![0, 12]
    ));
}

#[test]
fn dual_connection_changes() {
    let setting = Some(Setting::MultiSelectWithRemove {
        setting: Select {
            options: strings(&["A", "B"]),
            localized_options: strings(&["", ""]),
        },
        values: strings(&["A", "B"]),
    });
    assert!(matches!(
        dual_connection_device_change(true, &setting, &"A".to_string(), false),
        Some((SettingId::DualConnectionsDevices, Value::StringVec(values))) if values == strings(&["B"])
    ));
    assert!(dual_connection_device_change(false, &setting, &"A".to_string(), false).is_none());
    assert!(matches!(
        remove_dual_connection_device_change(true, &"B".to_string()),
        Some((SettingId::DualConnectionsDevices, Value::RemoveFromMultiSelect(mac))) if mac == "B"
    ));
    assert!(remove_dual_connection_device_change(false, &"B".to_string()).is_none());
}

#[test]
fn tray_commands() {
    assert!(matches!(
        tray_command_action(TrayCommand::SetAmbientSoundMode("Transparency".to_string()), true, &ambient()),
        TrayAction::ChangeSetting(SettingId::AmbientSoundMode, Value::String(mode)) if mode == "Transparency"
    ));
    assert!(matches!(
        tray_command_action(TrayCommand::SetAmbientSoundMode("Transparency".to_string()), false, &ambient()),
        TrayAction::Ignore
    ));
    assert!(matches!(
        tray_command_action(TrayCommand::SetEqualizerPreset("Acoustic".to_string()), true, &None),
        TrayAction::ChangeSetting(SettingId::PresetEqualizerProfile, Value::OptionalString(Some(preset))) if preset == "Acoustic"
    ));
    assert!(matches!(tray_command_action(TrayCommand::OpenSettings, false, &None), TrayAction::OpenSettings));
    assert!(matches!(tray_command_action(TrayCommand::Quit, true, &None), TrayAction::Quit));
}

#[test]
fn drawers_toggle() {
    assert_eq!(toggle_about(None), Some(ContextDrawerScreen::About));
    assert_eq!(toggle_about(Some(ContextDrawerScreen::About)), None);
    assert_eq!(toggle_about(Some(ContextDrawerScreen::Settings)), Some(ContextDrawerScreen::About));
    assert_eq!(toggle_settings(None), Some(ContextDrawerScreen::Settings));
    assert_eq!(toggle_settings(Some(ContextDrawerScreen::Settings)), None);
}

#[test]
fn cosmic_tray_commands() {
    assert!(matches!(
        gui_tray::tray_command_action(gui_tray::TrayCommand::SetAmbientSoundMode("Normal".to_string()), true),
        gui_tray::TrayAction::SetAmbientSoundMode(mode) if mode == "Normal"
    ));
    assert!(matches!(
        gui_tray::tray_command_action(gui_tray::TrayCommand::SetAmbientSoundMode("Normal".to_string()), false),
        gui_tray::TrayAction::Ignore
    ));
    assert!(matches!(gui_tray::tray_command_action(gui_tray::TrayCommand::OpenSettings, false), gui_tray::TrayAction::FocusWindow));
    assert!(matches!(gui_tray::tray_command_action(gui_tray::TrayCommand::Quit, false), gui_tray::TrayAction::Exit));
}

#[test]
fn warnings_keep_the_newest_within_capacity() {
    let mut warnings: VecDeque<String> = VecDeque::new();
    for i in 0..7 {
        push_warning_within(&mut warnings, 5, format!("warning {i}"));
    }
    assert_eq!(
        warnings,
        vec!["warning 2", "warning 3", "warning 4", "warning 5", "warning 6"]
    );
    close_warning(&mut warnings);
    assert_eq!(warnings, vec!["warning 3", "warning 4", "warning 5", "warning 6"]);
    push_warning_within(&mut warnings, 5, "last".to_string());
    assert_eq!(warnings.len(), 5);
    assert_eq!(warnings[0], "warning 3");
    let mut empty: VecDeque<String> = VecDeque::new();
    close_warning(&mut empty);
    assert!(empty.is_empty());
}

#[test]
fn warnings_stay_within_the_queue_room() {
    let mut warnings: VecDeque<String> = VecDeque::with_capacity(5);
    let room = warnings.capacity();
    for i in 0..20 {
        push_warning(&mut warnings, format!("warning {i}"));
        assert_eq!(warnings.back().map(String::as_str), Some(format!("warning {i}").as_str()));
    }
    assert_eq!(warnings.len(), room);
    assert_eq!(warnings.capacity(), room);
}

#[test]
fn screens_follow_connection_events() {
    assert_eq!(initial_screen(&vec![false, true]), (ScreenKind::Connecting, Some(1)));
    assert_eq!(initial_screen(&vec![false]), (ScreenKind::Connecting, Some(0)));
    assert_eq!(initial_screen(&vec![]), (ScreenKind::AddDevice, None));

    let step = screen_step(ScreenKind::Connecting, ScreenEvent::CancelConnectToDevice);
    assert_eq!(step.screen, ScreenKind::AddDevice);
    assert!(step.cancel_connect);
    let step = screen_step(ScreenKind::DeviceSettings, ScreenEvent::CancelConnectToDevice);
    assert_eq!(step.screen, ScreenKind::DeviceSettings);
    assert!(!step.cancel_connect);
    let step = screen_step(
        ScreenKind::Connecting,
        ScreenEvent::ConnectToDeviceFailed("timed out".to_string()),
    );
    assert_eq!(step.screen, ScreenKind::AddDevice);
    assert_eq!(step.warning.as_deref(), Some("timed out"));
    assert_eq!(
        screen_step(ScreenKind::AddDevice, ScreenEvent::ConnectToDevice).screen,
        ScreenKind::Connecting
    );
    assert_eq!(
        screen_step(ScreenKind::Connecting, ScreenEvent::ActivateConnectToDeviceScreen).screen,
        ScreenKind::DeviceSettings
    );
    assert_eq!(
        screen_step(ScreenKind::DeviceSettings, ScreenEvent::ShowAddDevice).screen,
        ScreenKind::AddDevice
    );
}

#[test]
fn language_dropdown_position() {
    let available = vec![None, Some("en".to_string()), Some("de".to_string()), Some("de".to_string())];
    assert_eq!(language_position(&available, &None), 0);
    assert_eq!(language_position(&available, &Some("de".to_string())), 2);
    assert_eq!(language_position(&available, &Some("fr".to_string())), 0);
    assert_eq!(language_position(&vec![None], &Some("en".to_string())), 0);
}

#[test]
fn window_opens_on_the_paired_r50i() {
    let phone = ListedDevice {
        device: PairedDevice { mac_address: MacAddress::new(1, 2, 3, 4, 5, 6), is_r50i: false, is_demo: false },
        model_name: "Other".to_string(),
    };
    let earbuds = ListedDevice {
        device: PairedDevice { mac_address: MacAddress::new(9, 9, 9, 9, 9, 9), is_r50i: true, is_demo: false },
        model_name: "Soundcore R50i NC".to_string(),
    };
    let (window, connect) = initial_window(&vec![phone.clone(), earbuds.clone()]);
    assert_eq!(window.screen, ScreenKind::Connecting);
    assert_eq!(window.connecting_name.as_deref(), Some("Soundcore R50i NC"));
    assert_eq!(connect, Some(earbuds.device.mac_address));
    assert_eq!(window.context_drawer, None);
    assert!(window.warnings.is_empty());
    assert!(window.warnings.capacity() >= 5);
    assert_eq!(window.current_device, None);

    let (window, connect) = initial_window(&vec![phone.clone()]);
    assert_eq!(window.connecting_name.as_deref(), Some("Other"));
    assert_eq!(connect, Some(phone.device.mac_address));

    let (window, connect) = initial_window(&vec![]);
    assert_eq!(window.screen, ScreenKind::AddDevice);
    assert_eq!(window.connecting_name, None);
    assert_eq!(connect, None);
}

#[test]
fn drawer_shown_for_each_screen() {
    for screen in [ScreenKind::AddDevice, ScreenKind::Connecting, ScreenKind::DeviceSettings] {
        assert_eq!(shown_drawer(Some(ContextDrawerScreen::About), screen), Some(DrawerKind::About));
        assert_eq!(shown_drawer(Some(ContextDrawerScreen::Settings), screen), Some(DrawerKind::Settings));
    }
    assert_eq!(shown_drawer(None, ScreenKind::AddDevice), None);
    assert_eq!(shown_drawer(None, ScreenKind::Connecting), None);
    assert_eq!(shown_drawer(None, ScreenKind::DeviceSettings), Some(DrawerKind::DeviceSettings));
}
