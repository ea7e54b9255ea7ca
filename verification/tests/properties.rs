use openscq30::backend::CategoryView;
use openscq30::properties::{device_properties, DeviceProperties, DeviceSnapshot};
use openscq30::settings::CategoryId;
use openscq30::tray::{tray_device, tray_equalizer_presets};
use openscq30::gui_tray;
use openscq30::settings::{Equalizer, Range, Select, Setting, SettingId};

fn strings(values: &[&str]) -> Vec<String> {
    values.iter().map(|value| value.to_string()).collect()
}

fn info(text: &str) -> Option<Setting> {
    Some(Setting::Information {
        value: text.to_string(),
        translated_value: text.to_string(),
    })
}

#[test]
fn properties_of_an_empty_snapshot() {
    let snapshot = DeviceSnapshot::new();
    let properties = device_properties(&snapshot);
    assert_eq!(properties.battery_left, "");
    assert!(!properties.charging_left);
    assert_eq!(properties.auto_power_off_index, -1);
    assert_eq!(properties.manual_noise_canceling, (0, 0, 0));
    assert!(properties.eq_bands.is_empty());
    assert_eq!(properties.button_values, vec![String::new(); 8]);
    assert_eq!(properties.button_value_indexes, vec![-1; 8]);
    assert!(properties.dual_connection_devices.is_empty());
}

#[test]
fn properties_of_a_device() {
    let mut snapshot = DeviceSnapshot::new();
    snapshot.set(SettingId::BatteryLevelLeft, info("4/5"));
    snapshot.set(SettingId::IsChargingRight, info("Yes"));
    snapshot.set(SettingId::GamingMode, Some(Setting::Toggle { value: true }));
    snapshot.set(
        SettingId::AmbientSoundMode,
        Some(Setting::Select {
            setting: Select {
                options: strings(&["Normal", "Transparency", "NoiseCanceling"]),
                localized_options: strings(&["Normal", "Transparency", "Noise Canceling"]),
            },
            value: "Transparency".to_string(),
        }),
    );
    snapshot.set(
        SettingId::RightLongPress,
        Some(Setting::OptionalSelect {
            setting: Select {
                options: strings(&["VolumeUp", "PlayPause"]),
                localized_options: strings(&["Volume Up", "Play/Pause"]),
            },
            value: Some("PlayPause".to_string()),
        }),
    );
    snapshot.set(
        SettingId::ManualNoiseCanceling,
        Some(Setting::I32Range { setting: Range { start: 1, end: 5, step: 1 }, value: 3 }),
    );
    snapshot.set(
        SettingId::VolumeAdjustments,
        Some(Setting::Equalizer {
            setting: Equalizer { band_hz: vec![100, 200], min: -120, max: 120 },
            read_only: false,
            value: vec![-5, 7],
        }),
    );
    let mut properties = device_properties(&snapshot);
    assert_eq!(properties.battery_left, "4/5");
    assert_eq!(properties.battery_right, "");
    assert!(properties.charging_right);
    assert!(properties.gaming_mode);
    assert_eq!(properties.anc_mode, "Transparency");
    assert_eq!(properties.button_values[7], "PlayPause");
    assert_eq!(properties.button_value_indexes[7], 1);
    assert_eq!(properties.manual_noise_canceling, (3, 1, 5));
    assert_eq!(properties.eq_bands, vec![-5, 7]);
    assert_eq!(properties.eq_band_hz, vec![100, 200]);
    assert_eq!((properties.eq_min, properties.eq_max), (-120, 120));

    properties.clear_without_device();
    assert_eq!(properties.battery_left, "");
    assert_eq!(properties.anc_mode, "");
    assert!(!properties.charging_right);
    assert!(properties.gaming_mode);
    assert_eq!(properties.eq_bands, vec![-5, 7]);
}

#[test]
fn properties_before_any_device() {
    let properties = DeviceProperties::new();
    assert_eq!(properties.auto_power_off_index, -1);
    assert_eq!(properties.eq_preset_index, -1);
    assert_eq!(properties.noise_canceling_mode_index, -1);
    assert_eq!(properties.multi_scene_noise_canceling_index, -1);
    assert_eq!(properties.battery_left, "");
    assert!(properties.eq_presets.is_empty());
    assert!(properties.button_values.is_empty());
    assert!(!properties.gaming_mode);
}

#[test]
fn categories_rebuild_and_clear() {
    let mut view = CategoryView::new();
    view.rebuild_categories(&vec![CategoryId::SoundModes, CategoryId::Equalizer]);
    assert_eq!(view.categories.len(), 2);
    assert_eq!(view.categories[0].0, "soundModes");
    assert_eq!(view.current_category, "soundModes");
    assert!(view.set_category("equalizer".to_string()));
    assert!(!view.set_category("equalizer".to_string()));
    view.rebuild_categories(&vec![CategoryId::General, CategoryId::Equalizer]);
    assert_eq!(view.current_category, "equalizer");
    assert_eq!(
        view.current_category_in(&vec![CategoryId::General, CategoryId::Equalizer]),
        Some(CategoryId::Equalizer)
    );
    view.rebuild_settings(&vec![
        (SettingId::GamingMode, Some(Setting::Toggle { value: true })),
        (SettingId::TouchTone, None),
    ]);
    assert_eq!(view.settings.len(), 1);
    assert_eq!(view.settings[0][0].0, "id");
    view.rebuild_categories(&vec![]);
    assert!(view.categories.is_empty());
    assert_eq!(view.current_category, "equalizer");
    view.clear_without_device();
    assert!(view.categories.is_empty());
    assert_eq!(view.current_category, "");
    assert!(view.settings.is_empty());
}

#[test]
fn tray_reads_only_a_plain_select_for_the_ambient_mode() {
    let select = Select {
        options: strings(&["Normal", "Transparency", "NoiseCanceling"]),
        localized_options: strings(&["Normal", "Transparency", "Noise Canceling"]),
    };
    let plain = Some(Setting::Select { setting: select.clone(), value: "Transparency".to_string() });
    let optional = Some(Setting::OptionalSelect {
        setting: select.clone(),
        value: Some("Transparency".to_string()),
    });
    let presets = Some(Setting::PresetEqualizerProfileSelect {
        select: select.clone(),
        value: Some("NoiseCanceling".to_string()),
    });
    let device = tray_device(Some("80%".to_string()), None, &plain, &presets);
    assert_eq!(device.ambient_sound_mode.as_deref(), Some("Transparency"));
    assert_eq!(device.battery_left.as_deref(), Some("80%"));
    let equalizer = device.equalizer_presets.unwrap();
    assert_eq!(equalizer.options, select.options);
    assert_eq!(equalizer.labels, select.localized_options);
    assert_eq!(equalizer.value.as_deref(), Some("NoiseCanceling"));
    let other = tray_device(None, None, &optional, &plain);
    assert_eq!(other.ambient_sound_mode, None);
    assert!(other.equalizer_presets.is_none());
    assert!(tray_equalizer_presets(&None).is_none());

    let cosmic = gui_tray::tray_device(&info("4/5"), &None, &plain);
    assert_eq!(cosmic.battery_left.as_deref(), Some("4/5"));
    assert_eq!(cosmic.battery_right, None);
    assert_eq!(cosmic.ambient_sound_mode.as_deref(), Some("Transparency"));
}
