use openscq30::gui_tray;
use openscq30::tray::{
    anc_command, anc_labels, anc_mode_index, anc_modes, menu, preset_command, preset_index,
    tool_tip_description, EqualizerPresets, MenuEntry, TrayCommand, TrayDevice,
};

fn strings(values: &[&str]) -> Vec<String> {
    values.iter().map(|value| value.to_string()).collect()
}

fn presets() -> EqualizerPresets {
    EqualizerPresets {
        options: strings(&["SoundcoreSignature", "Acoustic", "BassBooster"]),
        labels: strings(&["Soundcore Signature", "Acoustic", "Bass Booster"]),
        value: Some("BassBooster".to_string()),
    }
}

#[test]
fn anc_modes_and_labels() {
    assert_eq!(anc_modes(), strings(&["Normal", "Transparency", "NoiseCanceling"]));
    assert_eq!(anc_labels(), strings(&["Normal", "Transparency", "Noise Cancelling"]));
    assert_eq!(anc_mode_index(&Some("Transparency".to_string())), 1);
    assert_eq!(anc_mode_index(&Some("NoiseCanceling".to_string())), 2);
    assert_eq!(anc_mode_index(&Some("Unknown".to_string())), 0);
    assert_eq!(anc_mode_index(&None), 0);
}

#[test]
fn anc_commands() {
    assert!(matches!(anc_command(2), Some(TrayCommand::SetAmbientSoundMode(mode)) if mode == "NoiseCanceling"));
    assert!(anc_command(3).is_none());
    assert!(matches!(gui_tray::anc_command(0), Some(gui_tray::TrayCommand::SetAmbientSoundMode(mode)) if mode == "Normal"));
    assert!(gui_tray::anc_command(7).is_none());
}

#[test]
fn preset_selection() {
    assert_eq!(preset_index(&presets()), 2);
    let mut unknown = presets();
    unknown.value = Some("Other".to_string());
    assert_eq!(preset_index(&unknown), 0);
    unknown.value = None;
    assert_eq!(preset_index(&unknown), 0);
    assert!(matches!(preset_command(&presets().options, 1), Some(TrayCommand::SetEqualizerPreset(preset)) if preset == "Acoustic"));
    assert!(preset_command(&presets().options, 3).is_none());
}

#[test]
fn tool_tip_texts() {
    assert_eq!(tool_tip_description(&None), "Not connected");
    let mut device = TrayDevice {
        battery_left: Some("50%".to_string()),
        battery_right: Some("70%".to_string()),
        ambient_sound_mode: None,
        equalizer_presets: None,
    };
    assert_eq!(tool_tip_description(&Some(device.clone())), "Left 50% \u{b7} Right 70%");
    device.battery_right = None;
    assert_eq!(tool_tip_description(&Some(device.clone())), "Battery 50%");
    device.battery_left = None;
    assert_eq!(tool_tip_description(&Some(device)), "Not connected");
}

#[test]
fn menu_without_device() {
    let items = menu(&None);
    assert_eq!(items.len(), 4);
    assert!(matches!(&items[0], MenuEntry::Informative(text) if text == "Not connected"));
    assert!(matches!(items[1], MenuEntry::Separator));
    assert!(matches!(items[2], MenuEntry::OpenSettings));
    assert!(matches!(items[3], MenuEntry::Quit));
}

#[test]
fn menu_with_device() {
    let device = TrayDevice {
        battery_left: Some("50%".to_string()),
        battery_right: None,
        ambient_sound_mode: Some("Transparency".to_string()),
        equalizer_presets: Some(presets()),
    };
    let items = menu(&Some(device));
    assert_eq!(items.len(), 8);
    assert!(matches!(&items[0], MenuEntry::Informative(text) if text == "Left battery: 50%"));
    assert!(matches!(items[1], MenuEntry::Separator));
    assert!(matches!(items[2], MenuEntry::AmbientSoundModes { selected: 1 }));
    assert!(matches!(items[3], MenuEntry::Separator));
    match &items[4] {
        MenuEntry::EqualizerPresets { selected, labels, presets: raw } => {
            assert_eq!(*selected, 2);
            assert_eq!(labels[2], "Bass Booster");
            assert_eq!(raw[0], "SoundcoreSignature");
        }
        other => panic!("unexpected entry {other:?}"),
    }
    assert!(matches!(items[5], MenuEntry::Separator));
    assert!(matches!(items[6], MenuEntry::OpenSettings));
    assert!(matches!(items[7], MenuEntry::Quit));

    let bare = TrayDevice {
        battery_left: None,
        battery_right: None,
        ambient_sound_mode: None,
        equalizer_presets: None,
    };
    let items = menu(&Some(bare));
    assert_eq!(items.len(), 4);
    assert!(matches!(items[0], MenuEntry::AmbientSoundModes { selected: 0 }));
}

#[test]
fn cosmic_tray_texts_and_menu() {
    let device = gui_tray::TrayDevice {
        battery_left: Some("5/10".to_string()),
        battery_right: Some("7/10".to_string()),
        ambient_sound_mode: Some("NoiseCanceling".to_string()),
    };
    assert_eq!(gui_tray::battery(&Some(device.clone())), Some("5/10 / 7/10".to_string()));
    assert_eq!(
        gui_tray::tool_tip_description(&Some(device.clone())),
        "Battery: 5/10 / 7/10"
    );
    assert_eq!(gui_tray::tool_tip_description(&None), "Not connected");
    let items = gui_tray::menu(&Some(device));
    assert_eq!(items.len(), 6);
    assert!(matches!(&items[0], MenuEntry::Informative(text) if text == "Battery: 5/10 / 7/10"));
    assert!(matches!(items[2], MenuEntry::AmbientSoundModes { selected: 2 }));
    let items = gui_tray::menu(&None);
    assert_eq!(items.len(), 4);
    assert!(matches!(items[0], MenuEntry::AmbientSoundModes { selected: 0 }));
}
