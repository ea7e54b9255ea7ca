use openscq30::backend::{
    category_entries, current_select_value, dual_connection_devices, eq_ignore_ascii_case,
    equalizer_band_update, information_value, is_charging, range_info, rebuilt_category,
    select_index, select_options, select_value, select_value_by_index, setting_to_map,
    toggle_value, toggled_dual_connection_devices, MapValue,
};
use openscq30::settings::{
    label_for_category, label_for_setting, CategoryId, Equalizer, Range, Select, Setting,
    SettingId, Value,
};

fn strings(values: &[&str]) -> Vec<String> {
    values.iter().map(|value| value.to_string()).collect()
}

fn auto_power_off() -> Select {
    Select {
        options: strings(&["30Minutes", "60Minutes", "90Minutes"]),
        localized_options: strings(&["30 minutes", "60 minutes", "90 minutes"]),
    }
}

#[test]
fn setting_ids_parse_and_print() {
    for id in SettingId::all() {
        assert_eq!(SettingId::from_str(&id.to_string()), Some(id));
    }
    assert_eq!(SettingId::all().len(), 42);
    assert_eq!(SettingId::AmbientSoundMode.to_string(), "ambientSoundMode");
    assert_eq!(
        SettingId::from_str("dualConnectionsDevices"),
        Some(SettingId::DualConnectionsDevices)
    );
    assert_eq!(SettingId::from_str("AmbientSoundMode"), None);
    assert_eq!(SettingId::from_str(""), None);
    assert_eq!(CategoryId::SoundModes.to_string(), "soundModes");
}

#[test]
fn labels() {
    assert_eq!(label_for_setting(SettingId::AmbientSoundMode), "Sound Mode");
    assert_eq!(label_for_setting(SettingId::MultiSceneNoiseCanceling), "ANC Scene");
    assert_eq!(label_for_setting(SettingId::HostDevice), "Connected Device");
    assert_eq!(
        label_for_setting(SettingId::DualConnectionsDevices),
        "Dual Connections Devices"
    );
    assert_eq!(
        label_for_setting(SettingId::ExportCustomEqualizerProfilesOutput),
        "Export Custom Equalizer Profiles Output"
    );
    assert_eq!(label_for_category(CategoryId::ButtonConfiguration), "Controls");
    assert_eq!(
        label_for_category(CategoryId::EqualizerImportExport),
        "Equalizer Import/Export"
    );
    let rows = category_entries(&vec![CategoryId::General, CategoryId::LimitHighVolume]);
    assert_eq!(rows[0], ("general".to_string(), "General".to_string()));
    assert_eq!(rows[1], ("limitHighVolume".to_string(), "Volume Limit".to_string()));
}

#[test]
fn reading_settings() {
    let info = Some(Setting::Information {
        value: "5".to_string(),
        translated_value: "5/10".to_string(),
    });
    assert_eq!(information_value(&info), Some("5/10".to_string()));
    assert_eq!(information_value(&None), None);
    assert!(toggle_value(&Some(Setting::Toggle { value: true })));
    assert!(!toggle_value(&Some(Setting::Toggle { value: false })));
    assert!(!toggle_value(&info));
    let range = Some(Setting::I32Range {
        setting: Range { start: 0, end: 5, step: 1 },
        value: 3,
    });
    assert_eq!(range_info(&range), (3, 0, 5));
    assert_eq!(range_info(&info), (0, 0, 0));

    let select = Some(Setting::Select {
        setting: auto_power_off(),
        value: "60Minutes".to_string(),
    });
    assert_eq!(current_select_value(&select), Some("60Minutes".to_string()));
    assert_eq!(select_index(&select), 1);
    assert_eq!(select_options(&select), strings(&["30 minutes", "60 minutes", "90 minutes"]));
    let unset = Some(Setting::OptionalSelect {
        setting: auto_power_off(),
        value: None,
    });
    assert_eq!(current_select_value(&unset), None);
    assert_eq!(select_index(&unset), -1);
    let missing = Some(Setting::ModifiableSelect {
        setting: auto_power_off(),
        value: Some("Never".to_string()),
    });
    assert_eq!(select_index(&missing), -1);
    assert_eq!(select_index(&info), -1);
    assert!(select_options(&info).is_empty());
}

#[test]
fn charging_flag() {
    let yes = |text: &str| {
        Some(Setting::Information {
            value: String::new(),
            translated_value: text.to_string(),
        })
    };
    assert!(is_charging(&yes("yes")));
    assert!(is_charging(&yes("YeS")));
    assert!(!is_charging(&yes("no")));
    assert!(!is_charging(&yes("yes!")));
    assert!(!is_charging(&None));
    assert!(eq_ignore_ascii_case("ABC", "abc"));
    assert!(!eq_ignore_ascii_case("ABC", "abd"));
}

#[test]
fn select_values() {
    let select = Some(Setting::Select {
        setting: auto_power_off(),
        value: "60Minutes".to_string(),
    });
    assert!(matches!(select_value(&select, "30Minutes".to_string()), Some(Value::String(v)) if v == "30Minutes"));
    let optional = Some(Setting::PresetEqualizerProfileSelect {
        select: auto_power_off(),
        value: None,
    });
    assert!(matches!(select_value(&optional, String::new()), Some(Value::OptionalString(None))));
    assert!(matches!(select_value(&optional, "x".to_string()), Some(Value::OptionalString(Some(v))) if v == "x"));
    assert!(select_value(&Some(Setting::Action), "x".to_string()).is_none());
    assert!(matches!(select_value_by_index(&select, 2), Some(Value::String(v)) if v == "90Minutes"));
    assert!(select_value_by_index(&select, 3).is_none());
    assert!(select_value_by_index(&select, -1).is_none());
}

#[test]
fn dual_connection_picker() {
    let setting = Some(Setting::MultiSelectWithRemove {
        setting: Select {
            options: strings(&["AA:BB:CC:DD:EE:FF", "11:22:33:44:55:66"]),
            localized_options: strings(&["Phone", ""]),
        },
        values: strings(&["11:22:33:44:55:66"]),
    });
    let rows = dual_connection_devices(&setting);
    assert_eq!(rows.len(), 2);
    assert_eq!(rows[0].name, "Phone");
    assert!(!rows[0].checked);
    assert_eq!(rows[1].name, "11:22:33:44:55:66");
    assert!(rows[1].checked);
    assert!(dual_connection_devices(&None).is_empty());

    let on = toggled_dual_connection_devices(&setting, &"AA:BB:CC:DD:EE:FF".to_string(), true);
    assert!(matches!(on, Some(Value::StringVec(v)) if v == strings(&["11:22:33:44:55:66", "AA:BB:CC:DD:EE:FF"])));
    let off = toggled_dual_connection_devices(&setting, &"11:22:33:44:55:66".to_string(), false);
    assert!(matches!(off, Some(Value::StringVec(v)) if v.is_empty()));
    assert!(toggled_dual_connection_devices(&None, &"x".to_string(), true).is_none());
}

#[test]
fn equalizer_bands() {
    let setting = Some(Setting::Equalizer {
        setting: Equalizer { band_hz: vec![100, 200, 400], min: -120, max: 120 },
        read_only: false,
        value: vec![0, 10, 20],
    });
    assert!(matches!(equalizer_band_update(&setting, 1, -30), Some(Value::I16Vec(v)) if v == vec![0, -30, 20]));
    assert!(equalizer_band_update(&setting, 3, 0).is_none());
    assert!(equalizer_band_update(&setting, -1, 0).is_none());
    assert!(matches!(equalizer_band_update(&setting, 0, 65537), Some(Value::I16Vec(v)) if v == vec![1, 10, 20]));
    let map = setting_to_map(SettingId::VolumeAdjustments, setting.as_ref().unwrap());
    let keys: Vec<&str> = map.iter().map(|(key, _)| key.as_str()).collect();
    assert_eq!(keys, vec!["id", "label", "kind", "values", "min", "max", "bands", "readOnly"]);
    assert!(matches!(&map[1].1, MapValue::Str(label) if label == "Equalizer"));
    assert!(matches!(&map[3].1, MapValue::IntList(values) if *values == vec![0, 10, 20]));
    assert!(matches!(&map[6].1, MapValue::IntList(values) if *values == vec![100, 200, 400]));
}

#[test]
fn setting_maps() {
    let select = Setting::OptionalSelect {
        setting: auto_power_off(),
        value: None,
    };
    let map = setting_to_map(SettingId::AutoPowerOff, &select);
    let keys: Vec<&str> = map.iter().map(|(key, _)| key.as_str()).collect();
    assert_eq!(keys, vec!["id", "label", "kind", "value", "options", "labels", "nullable"]);
    assert!(matches!(&map[0].1, MapValue::Str(id) if id == "autoPowerOff"));
    assert!(matches!(&map[2].1, MapValue::Str(kind) if kind == "select"));
    assert!(matches!(&map[3].1, MapValue::Str(value) if value.is_empty()));
    assert!(matches!(map[6].1, MapValue::Bool(true)));

    let map = setting_to_map(SettingId::ResetButtonsToDefault, &Setting::Action);
    assert_eq!(map.len(), 3);
    assert!(matches!(&map[2].1, MapValue::Str(kind) if kind == "action"));

    let map = setting_to_map(
        SettingId::ManualNoiseCanceling,
        &Setting::I32Range { setting: Range { start: 1, end: 5, step: 1 }, value: 2 },
    );
    let keys: Vec<&str> = map.iter().map(|(key, _)| key.as_str()).collect();
    assert_eq!(keys, vec!["id", "label", "kind", "value", "min", "max", "step"]);
}

#[test]
fn category_after_rebuild() {
    let categories = vec![CategoryId::SoundModes, CategoryId::Equalizer];
    assert_eq!(rebuilt_category(&categories, &"equalizer".to_string()), None);
    assert_eq!(
        rebuilt_category(&categories, &"lights".to_string()),
        Some(CategoryId::SoundModes)
    );
    assert_eq!(rebuilt_category(&Vec::new(), &String::new()), None);
}
