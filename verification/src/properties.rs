//! The properties that the Qt settings window shows for the connected device, read
//! from a snapshot of the device's settings.
use vstd::prelude::*;

use vstd::string::StringSliceAdditionalSpecFns;
use vstd::utf8::encode_utf8;

use crate::backend::{
    spec_eq_ignore_ascii_case,
    current_select_value, dual_connection_devices, information_value, is_charging, range_info,
    select_index, select_options, spec_bands_i32, spec_current_select_value,
    spec_dual_connection_devices, spec_hz_i32, spec_information_value, spec_is_charging,
    spec_range_info, spec_select_index, spec_select_options, spec_toggle_value, toggle_value,
    DualConnectionEntry,
};
use crate::settings::{spec_setting_id_count, spec_setting_id_position, Setting, SettingId};
use crate::text::spec_strings;

verus! {

/// The text of an optional value, empty when there is none.
pub open spec fn spec_or_empty(value: Option<Seq<char>>) -> Seq<char> {
    match value {
        Some(value) => value,
        None => Seq::empty(),
    }
}

/// The text of an optional value, empty when there is none.
fn or_empty(value: Option<String>) -> (result: String)
    ensures
        result@ == spec_or_empty(match value {
            Some(value) => Some(value@),
            None => None,
        }),
{
    match value {
        Some(value) => value,
        None => String::new(),
    }
}

/// The state of every setting of the connected device, as it reports them; `None` for
/// a setting the device does not have.
pub struct DeviceSnapshot {
    settings: Vec<Option<Setting>>,
}

impl DeviceSnapshot {
    /// Every setting has its place in the snapshot.
    pub closed spec fn wf(self) -> bool {
        self.settings@.len() == spec_setting_id_count()
    }

    /// The state of a setting.
    pub closed spec fn spec_get(self, id: SettingId) -> Option<Setting> {
        self.settings@[spec_setting_id_position(id)]
    }

    /// A snapshot in which the device has no settings.
    pub fn new() -> (result: Self)
        ensures
            result.wf(),
            forall|id: SettingId| (#[trigger] result.spec_get(id)) is None,
    {
        let mut settings: Vec<Option<Setting>> = Vec::new();
        let mut i: usize = 0;
        while i < 42
            invariant
                i <= 42,
                settings@.len() == i,
                forall|j: int| 0 <= j < i ==> (#[trigger] settings@[j]) is None,
            decreases 42 - i,
        {
            settings.push(None);
            i = i + 1;
        }
        let result = DeviceSnapshot { settings };
        assert forall|id: SettingId| (#[trigger] result.spec_get(id)) is None by {
            assert(0 <= spec_setting_id_position(id) < 42);
        }
        result
    }

    /// Records the state of one setting.
    pub fn set(&mut self, id: SettingId, setting: Option<Setting>)
        requires
            old(self).wf(),
        ensures
            final(self).wf(),
            final(self).spec_get(id) == setting,
            forall|other: SettingId| other != id ==> final(self).spec_get(other) == old(self).spec_get(other),
    {
        let position = id.position();
        self.settings.set(position, setting);
        proof {
            assert forall|other: SettingId| other != id implies self.spec_get(other) == old(self).spec_get(other) by {
                lemma_positions_distinct(other, id);
            }
        }
    }

    /// The state of a setting.
    pub fn get(&self, id: SettingId) -> (result: &Option<Setting>)
        requires
            self.wf(),
        ensures
            *result == self.spec_get(id),
    {
        &self.settings[id.position()]
    }
}

/// Distinct settings have distinct positions.
proof fn lemma_positions_distinct(a: SettingId, b: SettingId)
    ensures
        spec_setting_id_position(a) == spec_setting_id_position(b) ==> a == b,
{
}

/// The properties of the settings window that come from the connected device.
#[derive(Debug)]
pub struct DeviceProperties {
    /// Battery level of the left earbud.
    pub battery_left: String,
    /// Battery level of the right earbud.
    pub battery_right: String,
    /// Whether the left earbud is charging.
    pub charging_left: bool,
    /// Whether the right earbud is charging.
    pub charging_right: bool,
    /// The ambient sound mode.
    pub anc_mode: String,
    /// Whether gaming mode is on.
    pub gaming_mode: bool,
    /// Whether dual connections are on.
    pub dual_connections: bool,
    /// Whether the touch tone is on.
    pub touch_tone: bool,
    /// Whether the low battery prompt is on.
    pub low_battery_prompt: bool,
    /// Whether wind noise suppression is on.
    pub wind_noise_suppression: bool,
    /// The auto power off option.
    pub auto_power_off: String,
    /// The labels of the auto power off options.
    pub auto_power_off_options: Vec<String>,
    /// The position of the auto power off option, or -1.
    pub auto_power_off_index: i32,
    /// The equalizer preset.
    pub eq_preset: String,
    /// The labels of the equalizer presets.
    pub eq_presets: Vec<String>,
    /// The position of the equalizer preset, or -1.
    pub eq_preset_index: i32,
    /// The noise canceling mode.
    pub noise_canceling_mode: String,
    /// The labels of the noise canceling modes.
    pub noise_canceling_mode_options: Vec<String>,
    /// The position of the noise canceling mode, or -1.
    pub noise_canceling_mode_index: i32,
    /// The noise canceling scene.
    pub multi_scene_noise_canceling: String,
    /// The labels of the noise canceling scenes.
    pub multi_scene_noise_canceling_options: Vec<String>,
    /// The position of the noise canceling scene, or -1.
    pub multi_scene_noise_canceling_index: i32,
    /// Value, minimum and maximum of the manual noise canceling level.
    pub manual_noise_canceling: (i32, i32, i32),
    /// The adaptive noise canceling state.
    pub adaptive_noise_canceling: String,
    /// Value, minimum and maximum of the noise canceling sensitivity.
    pub anc_sensitivity: (i32, i32, i32),
    /// The labels of the button actions.
    pub button_actions: Vec<String>,
    /// Whether normal mode is in the button cycle.
    pub normal_mode_in_cycle: bool,
    /// Whether transparency mode is in the button cycle.
    pub transparency_mode_in_cycle: bool,
    /// Whether noise canceling mode is in the button cycle.
    pub noise_canceling_mode_in_cycle: bool,
    /// The serial number.
    pub serial_number: String,
    /// The firmware version.
    pub firmware_version: String,
    /// The firmware version of the left earbud.
    pub firmware_version_left: String,
    /// The firmware version of the right earbud.
    pub firmware_version_right: String,
    /// The true wireless stereo status.
    pub tws_status: String,
    /// The device the earbuds play from.
    pub host_device: String,
    /// The rows of the dual connections device picker.
    pub dual_connection_devices: Vec<DualConnectionEntry>,
    /// The equalizer band values.
    pub eq_bands: Vec<i32>,
    /// The equalizer band frequencies.
    pub eq_band_hz: Vec<i32>,
    /// The lowest equalizer band value.
    pub eq_min: i32,
    /// The highest equalizer band value.
    pub eq_max: i32,
    /// The selected action of each button, in the order of [`spec_button_ids`].
    pub button_values: Vec<String>,
    /// The position of the selected action of each button, or -1.
    pub button_value_indexes: Vec<i32>,
}

impl DeviceProperties {
    /// The window's properties before any device was shown: every text and list empty,
    /// every flag off, every number 0 and every option position -1 (none selected).
    pub fn new() -> (result: Self)
        ensures
            result.battery_left@ == Seq::<char>::empty(),
            result.battery_right@ == Seq::<char>::empty(),
            !result.charging_left,
            !result.charging_right,
            result.anc_mode@ == Seq::<char>::empty(),
            !result.gaming_mode,
            !result.dual_connections,
            !result.touch_tone,
            !result.low_battery_prompt,
            !result.wind_noise_suppression,
            result.auto_power_off@ == Seq::<char>::empty(),
            result.auto_power_off_options@.len() == 0,
            result.auto_power_off_index == -1,
            result.eq_preset@ == Seq::<char>::empty(),
            result.eq_presets@.len() == 0,
            result.eq_preset_index == -1,
            result.noise_canceling_mode@ == Seq::<char>::empty(),
            result.noise_canceling_mode_options@.len() == 0,
            result.noise_canceling_mode_index == -1,
            result.multi_scene_noise_canceling@ == Seq::<char>::empty(),
            result.multi_scene_noise_canceling_options@.len() == 0,
            result.multi_scene_noise_canceling_index == -1,
            result.manual_noise_canceling == (0i32, 0i32, 0i32),
            result.adaptive_noise_canceling@ == Seq::<char>::empty(),
            result.anc_sensitivity == (0i32, 0i32, 0i32),
            result.button_actions@.len() == 0,
            !result.normal_mode_in_cycle,
            !result.transparency_mode_in_cycle,
            !result.noise_canceling_mode_in_cycle,
            result.serial_number@ == Seq::<char>::empty(),
            result.firmware_version@ == Seq::<char>::empty(),
            result.firmware_version_left@ == Seq::<char>::empty(),
            result.firmware_version_right@ == Seq::<char>::empty(),
            result.tws_status@ == Seq::<char>::empty(),
            result.host_device@ == Seq::<char>::empty(),
            result.dual_connection_devices@.len() == 0,
            result.eq_bands@.len() == 0,
            result.eq_band_hz@.len() == 0,
            result.eq_min == 0,
            result.eq_max == 0,
            result.button_values@.len() == 0,
            result.button_value_indexes@.len() == 0,
    {
        DeviceProperties {
            battery_left: String::new(),
            battery_right: String::new(),
            charging_left: false,
            charging_right: false,
            anc_mode: String::new(),
            gaming_mode: false,
            dual_connections: false,
            touch_tone: false,
            low_battery_prompt: false,
            wind_noise_suppression: false,
            auto_power_off: String::new(),
            auto_power_off_options: Vec::new(),
            auto_power_off_index: -1,
            eq_preset: String::new(),
            eq_presets: Vec::new(),
            eq_preset_index: -1,
            noise_canceling_mode: String::new(),
            noise_canceling_mode_options: Vec::new(),
            noise_canceling_mode_index: -1,
            multi_scene_noise_canceling: String::new(),
            multi_scene_noise_canceling_options: Vec::new(),
            multi_scene_noise_canceling_index: -1,
            manual_noise_canceling: (0, 0, 0),
            adaptive_noise_canceling: String::new(),
            anc_sensitivity: (0, 0, 0),
            button_actions: Vec::new(),
            normal_mode_in_cycle: false,
            transparency_mode_in_cycle: false,
            noise_canceling_mode_in_cycle: false,
            serial_number: String::new(),
            firmware_version: String::new(),
            firmware_version_left: String::new(),
            firmware_version_right: String::new(),
            tws_status: String::new(),
            host_device: String::new(),
            dual_connection_devices: Vec::new(),
            eq_bands: Vec::new(),
            eq_band_hz: Vec::new(),
            eq_min: 0,
            eq_max: 0,
            button_values: Vec::new(),
            button_value_indexes: Vec::new(),
        }
    }

    /// Without a device the window clears the battery levels, the charging flags and the
    /// ambient sound mode; every other property keeps its last value.
    pub fn clear_without_device(&mut self)
        ensures
            final(self).battery_left@ == Seq::<char>::empty(),
            final(self).battery_right@ == Seq::<char>::empty(),
            !final(self).charging_left,
            !final(self).charging_right,
            final(self).anc_mode@ == Seq::<char>::empty(),
            final(self).gaming_mode == old(self).gaming_mode,
            final(self).dual_connections == old(self).dual_connections,
            final(self).touch_tone == old(self).touch_tone,
            final(self).low_battery_prompt == old(self).low_battery_prompt,
            final(self).wind_noise_suppression == old(self).wind_noise_suppression,
            final(self).auto_power_off@ == old(self).auto_power_off@,
            final(self).auto_power_off_options@ == old(self).auto_power_off_options@,
            final(self).auto_power_off_index == old(self).auto_power_off_index,
            final(self).eq_preset@ == old(self).eq_preset@,
            final(self).eq_presets@ == old(self).eq_presets@,
            final(self).eq_preset_index == old(self).eq_preset_index,
            final(self).noise_canceling_mode@ == old(self).noise_canceling_mode@,
            final(self).noise_canceling_mode_options@ == old(self).noise_canceling_mode_options@,
            final(self).noise_canceling_mode_index == old(self).noise_canceling_mode_index,
            final(self).multi_scene_noise_canceling@ == old(self).multi_scene_noise_canceling@,
            final(self).multi_scene_noise_canceling_options@ == old(self).multi_scene_noise_canceling_options@,
            final(self).multi_scene_noise_canceling_index == old(self).multi_scene_noise_canceling_index,
            final(self).manual_noise_canceling == old(self).manual_noise_canceling,
            final(self).adaptive_noise_canceling@ == old(self).adaptive_noise_canceling@,
            final(self).anc_sensitivity == old(self).anc_sensitivity,
            final(self).button_actions@ == old(self).button_actions@,
            final(self).normal_mode_in_cycle == old(self).normal_mode_in_cycle,
            final(self).transparency_mode_in_cycle == old(self).transparency_mode_in_cycle,
            final(self).noise_canceling_mode_in_cycle == old(self).noise_canceling_mode_in_cycle,
            final(self).serial_number@ == old(self).serial_number@,
            final(self).firmware_version@ == old(self).firmware_version@,
            final(self).firmware_version_left@ == old(self).firmware_version_left@,
            final(self).firmware_version_right@ == old(self).firmware_version_right@,
            final(self).tws_status@ == old(self).tws_status@,
            final(self).host_device@ == old(self).host_device@,
            final(self).dual_connection_devices@ == old(self).dual_connection_devices@,
            final(self).eq_bands@ == old(self).eq_bands@,
            final(self).eq_band_hz@ == old(self).eq_band_hz@,
            final(self).eq_min == old(self).eq_min,
            final(self).eq_max == old(self).eq_max,
            final(self).button_values@ == old(self).button_values@,
            final(self).button_value_indexes@ == old(self).button_value_indexes@,
    {
        self.battery_left = String::new();
        self.battery_right = String::new();
        self.charging_left = false;
        self.charging_right = false;
        self.anc_mode = String::new();
    }
}

/// The charging flags read each earbud's own charging setting: the left flag is set
/// exactly when the `IsChargingLeft` setting is an information setting whose translated
/// text is "yes" in any ASCII case, and likewise the right flag with `IsChargingRight`.
pub proof fn lemma_charging_flags_read_their_own_earbud(snapshot: DeviceSnapshot, p: DeviceProperties)
    requires
        spec_device_properties(snapshot, p),
    ensures
        match snapshot.spec_get(SettingId::IsChargingLeft) {
            Some(Setting::Information { translated_value, .. }) => p.charging_left
                == spec_eq_ignore_ascii_case(encode_utf8(translated_value@), "yes".spec_bytes()),
            _ => !p.charging_left,
        },
        match snapshot.spec_get(SettingId::IsChargingRight) {
            Some(Setting::Information { translated_value, .. }) => p.charging_right
                == spec_eq_ignore_ascii_case(encode_utf8(translated_value@), "yes".spec_bytes()),
            _ => !p.charging_right,
        },
{
}

/// Each charging flag depends on its own earbud's setting alone: two snapshots that
/// agree on `IsChargingLeft` show the same left flag, whatever else differs (the right
/// earbud's setting included), and likewise for the right flag.
pub proof fn lemma_charging_flags_are_independent(
    snapshot1: DeviceSnapshot,
    p1: DeviceProperties,
    snapshot2: DeviceSnapshot,
    p2: DeviceProperties,
)
    requires
        spec_device_properties(snapshot1, p1),
        spec_device_properties(snapshot2, p2),
    ensures
        snapshot1.spec_get(SettingId::IsChargingLeft) == snapshot2.spec_get(
            SettingId::IsChargingLeft,
        ) ==> p1.charging_left == p2.charging_left,
        snapshot1.spec_get(SettingId::IsChargingRight) == snapshot2.spec_get(
            SettingId::IsChargingRight,
        ) ==> p1.charging_right == p2.charging_right,
{
}

/// The battery levels read each earbud's own level setting: the left level is the
/// translated text of the `BatteryLevelLeft` information setting (empty for any other
/// setting or none), and likewise the right level with `BatteryLevelRight`.
pub proof fn lemma_battery_levels_read_their_own_earbud(snapshot: DeviceSnapshot, p: DeviceProperties)
    requires
        spec_device_properties(snapshot, p),
    ensures
        match snapshot.spec_get(SettingId::BatteryLevelLeft) {
            Some(Setting::Information { translated_value, .. }) => p.battery_left@
                == translated_value@,
            _ => p.battery_left@.len() == 0,
        },
        match snapshot.spec_get(SettingId::BatteryLevelRight) {
            Some(Setting::Information { translated_value, .. }) => p.battery_right@
                == translated_value@,
            _ => p.battery_right@.len() == 0,
        },
{
}

/// The buttons, in the order the window lists them.
pub open spec fn spec_button_ids() -> Seq<SettingId> {
    seq![
        SettingId::LeftSinglePress,
        SettingId::RightSinglePress,
        SettingId::LeftDoublePress,
        SettingId::RightDoublePress,
        SettingId::LeftTriplePress,
        SettingId::RightTriplePress,
        SettingId::LeftLongPress,
        SettingId::RightLongPress,
    ]
}

/// The equalizer values, frequencies and bounds of the volume adjustments setting,
/// or nothing and zeroes when it is not an equalizer.
pub open spec fn spec_equalizer(setting: Option<Setting>) -> (Seq<i32>, Seq<i32>, i32, i32) {
    match setting {
        Some(Setting::Equalizer { setting, value, .. }) => (
            spec_bands_i32(value@),
            spec_hz_i32(setting.band_hz@),
            setting.min as i32,
            setting.max as i32,
        ),
        _ => (Seq::empty(), Seq::empty(), 0, 0),
    }
}

/// The properties read from a snapshot, each as the helper of its kind gives it.
pub open spec fn spec_device_properties(snapshot: DeviceSnapshot, p: DeviceProperties) -> bool {
    &&& p.battery_left@ == spec_or_empty(spec_information_value(snapshot.spec_get(SettingId::BatteryLevelLeft)))
    &&& p.battery_right@ == spec_or_empty(spec_information_value(snapshot.spec_get(SettingId::BatteryLevelRight)))
    &&& p.charging_left == spec_is_charging(snapshot.spec_get(SettingId::IsChargingLeft))
    &&& p.charging_right == spec_is_charging(snapshot.spec_get(SettingId::IsChargingRight))
    &&& p.anc_mode@ == spec_or_empty(spec_current_select_value(snapshot.spec_get(SettingId::AmbientSoundMode)))
    &&& p.gaming_mode == spec_toggle_value(snapshot.spec_get(SettingId::GamingMode))
    &&& p.dual_connections == spec_toggle_value(snapshot.spec_get(SettingId::DualConnections))
    &&& p.touch_tone == spec_toggle_value(snapshot.spec_get(SettingId::TouchTone))
    &&& p.low_battery_prompt == spec_toggle_value(snapshot.spec_get(SettingId::LowBatteryPrompt))
    &&& p.wind_noise_suppression == spec_toggle_value(snapshot.spec_get(SettingId::WindNoiseSuppression))
    &&& p.auto_power_off@ == spec_or_empty(spec_current_select_value(snapshot.spec_get(SettingId::AutoPowerOff)))
    &&& spec_strings(p.auto_power_off_options@) == spec_select_options(snapshot.spec_get(SettingId::AutoPowerOff))
    &&& spec_select_index(snapshot.spec_get(SettingId::AutoPowerOff), p.auto_power_off_index)
    &&& p.eq_preset@ == spec_or_empty(spec_current_select_value(snapshot.spec_get(SettingId::PresetEqualizerProfile)))
    &&& spec_strings(p.eq_presets@) == spec_select_options(snapshot.spec_get(SettingId::PresetEqualizerProfile))
    &&& spec_select_index(snapshot.spec_get(SettingId::PresetEqualizerProfile), p.eq_preset_index)
    &&& p.noise_canceling_mode@ == spec_or_empty(spec_current_select_value(snapshot.spec_get(SettingId::NoiseCancelingMode)))
    &&& spec_strings(p.noise_canceling_mode_options@) == spec_select_options(snapshot.spec_get(SettingId::NoiseCancelingMode))
    &&& spec_select_index(snapshot.spec_get(SettingId::NoiseCancelingMode), p.noise_canceling_mode_index)
    &&& p.multi_scene_noise_canceling@ == spec_or_empty(spec_current_select_value(snapshot.spec_get(SettingId::MultiSceneNoiseCanceling)))
    &&& spec_strings(p.multi_scene_noise_canceling_options@) == spec_select_options(snapshot.spec_get(SettingId::MultiSceneNoiseCanceling))
    &&& spec_select_index(snapshot.spec_get(SettingId::MultiSceneNoiseCanceling), p.multi_scene_noise_canceling_index)
    &&& p.manual_noise_canceling == spec_range_info(snapshot.spec_get(SettingId::ManualNoiseCanceling))
    &&& p.adaptive_noise_canceling@ == spec_or_empty(spec_information_value(snapshot.spec_get(SettingId::AdaptiveNoiseCanceling)))
    &&& p.anc_sensitivity == spec_range_info(snapshot.spec_get(SettingId::AdaptiveNoiseCancelingSensitivityLevel))
    &&& spec_strings(p.button_actions@) == spec_select_options(snapshot.spec_get(SettingId::LeftSinglePress))
    &&& p.normal_mode_in_cycle == spec_toggle_value(snapshot.spec_get(SettingId::NormalModeInCycle))
    &&& p.transparency_mode_in_cycle == spec_toggle_value(snapshot.spec_get(SettingId::TransparencyModeInCycle))
    &&& p.noise_canceling_mode_in_cycle == spec_toggle_value(snapshot.spec_get(SettingId::NoiseCancelingModeInCycle))
    &&& p.serial_number@ == spec_or_empty(spec_information_value(snapshot.spec_get(SettingId::SerialNumber)))
    &&& p.firmware_version@ == spec_or_empty(spec_information_value(snapshot.spec_get(SettingId::FirmwareVersion)))
    &&& p.firmware_version_left@ == spec_or_empty(spec_information_value(snapshot.spec_get(SettingId::FirmwareVersionLeft)))
    &&& p.firmware_version_right@ == spec_or_empty(spec_information_value(snapshot.spec_get(SettingId::FirmwareVersionRight)))
    &&& p.tws_status@ == spec_or_empty(spec_information_value(snapshot.spec_get(SettingId::TwsStatus)))
    &&& p.host_device@ == spec_or_empty(spec_information_value(snapshot.spec_get(SettingId::HostDevice)))
    &&& spec_dual_connection_devices(
        snapshot.spec_get(SettingId::DualConnectionsDevices),
        p.dual_connection_devices@,
    )
    &&& (p.eq_bands@, p.eq_band_hz@, p.eq_min, p.eq_max) == spec_equalizer(
        snapshot.spec_get(SettingId::VolumeAdjustments),
    )
    &&& p.button_values@.len() == 8
    &&& p.button_value_indexes@.len() == 8
    &&& forall|i: int|
        0 <= i < 8 ==> (#[trigger] p.button_values@[i])@ == spec_or_empty(
            spec_current_select_value(snapshot.spec_get(spec_button_ids()[i])),
        ) && spec_select_index(snapshot.spec_get(spec_button_ids()[i]), p.button_value_indexes@[i])
}

/// The equalizer values, frequencies and bounds of the volume adjustments setting.
fn equalizer(setting: &Option<Setting>) -> (result: (Vec<i32>, Vec<i32>, i32, i32))
    ensures
        (result.0@, result.1@, result.2, result.3) == spec_equalizer(*setting),
{
    match setting {
        Some(Setting::Equalizer { setting, value, .. }) => {
            let mut bands: Vec<i32> = Vec::new();
            let mut i: usize = 0;
            while i < value.len()
                invariant
                    i <= value@.len(),
                    bands@ == spec_bands_i32(value@.take(i as int)),
                decreases value@.len() - i,
            {
                bands.push(value[i] as i32);
                i = i + 1;
                assert(bands@ =~= spec_bands_i32(value@.take(i as int)));
            }
            assert(value@.take(value@.len() as int) =~= value@);
            let mut hz: Vec<i32> = Vec::new();
            let mut j: usize = 0;
            while j < setting.band_hz.len()
                invariant
                    j <= setting.band_hz@.len(),
                    hz@ == spec_hz_i32(setting.band_hz@.take(j as int)),
                decreases setting.band_hz@.len() - j,
            {
                hz.push(setting.band_hz[j] as i32);
                j = j + 1;
                assert(hz@ =~= spec_hz_i32(setting.band_hz@.take(j as int)));
            }
            assert(setting.band_hz@.take(setting.band_hz@.len() as int) =~= setting.band_hz@);
            (bands, hz, setting.min as i32, setting.max as i32)
        },
        _ => (Vec::new(), Vec::new(), 0, 0),
    }
}

/// The buttons, in the order the window lists them.
fn button_ids() -> (result: Vec<SettingId>)
    ensures
        result@ == spec_button_ids(),
{
    let mut result: Vec<SettingId> = Vec::new();
    result.push(SettingId::LeftSinglePress);
    result.push(SettingId::RightSinglePress);
    result.push(SettingId::LeftDoublePress);
    result.push(SettingId::RightDoublePress);
    result.push(SettingId::LeftTriplePress);
    result.push(SettingId::RightTriplePress);
    result.push(SettingId::LeftLongPress);
    result.push(SettingId::RightLongPress);
    assert(result@ =~= spec_button_ids());
    result
}

/// Reads every property of the settings window from a snapshot of the device.
pub fn device_properties(snapshot: &DeviceSnapshot) -> (result: DeviceProperties)
    requires
        snapshot.wf(),
    ensures
        spec_device_properties(*snapshot, result),
{
    let ids = button_ids();
    let mut button_values: Vec<String> = Vec::new();
    let mut button_value_indexes: Vec<i32> = Vec::new();
    let mut i: usize = 0;
    while i < ids.len()
        invariant
            snapshot.wf(),
            ids@ == spec_button_ids(),
            i <= 8,
            button_values@.len() == i,
            button_value_indexes@.len() == i,
            forall|j: int|
                0 <= j < i ==> (#[trigger] button_values@[j])@ == spec_or_empty(
                    spec_current_select_value(snapshot.spec_get(spec_button_ids()[j])),
                ) && spec_select_index(snapshot.spec_get(spec_button_ids()[j]), button_value_indexes@[j]),
        decreases 8 - i,
    {
        let setting = snapshot.get(ids[i]);
        button_values.push(or_empty(current_select_value(setting)));
        button_value_indexes.push(select_index(setting));
        i = i + 1;
    }
    let (eq_bands, eq_band_hz, eq_min, eq_max) = equalizer(snapshot.get(SettingId::VolumeAdjustments));
    DeviceProperties {
        battery_left: or_empty(information_value(snapshot.get(SettingId::BatteryLevelLeft))),
        battery_right: or_empty(information_value(snapshot.get(SettingId::BatteryLevelRight))),
        charging_left: is_charging(snapshot.get(SettingId::IsChargingLeft)),
        charging_right: is_charging(snapshot.get(SettingId::IsChargingRight)),
        anc_mode: or_empty(current_select_value(snapshot.get(SettingId::AmbientSoundMode))),
        gaming_mode: toggle_value(snapshot.get(SettingId::GamingMode)),
        dual_connections: toggle_value(snapshot.get(SettingId::DualConnections)),
        touch_tone: toggle_value(snapshot.get(SettingId::TouchTone)),
        low_battery_prompt: toggle_value(snapshot.get(SettingId::LowBatteryPrompt)),
        wind_noise_suppression: toggle_value(snapshot.get(SettingId::WindNoiseSuppression)),
        auto_power_off: or_empty(current_select_value(snapshot.get(SettingId::AutoPowerOff))),
        auto_power_off_options: select_options(snapshot.get(SettingId::AutoPowerOff)),
        auto_power_off_index: select_index(snapshot.get(SettingId::AutoPowerOff)),
        eq_preset: or_empty(current_select_value(snapshot.get(SettingId::PresetEqualizerProfile))),
        eq_presets: select_options(snapshot.get(SettingId::PresetEqualizerProfile)),
        eq_preset_index: select_index(snapshot.get(SettingId::PresetEqualizerProfile)),
        noise_canceling_mode: or_empty(current_select_value(snapshot.get(SettingId::NoiseCancelingMode))),
        noise_canceling_mode_options: select_options(snapshot.get(SettingId::NoiseCancelingMode)),
        noise_canceling_mode_index: select_index(snapshot.get(SettingId::NoiseCancelingMode)),
        multi_scene_noise_canceling: or_empty(current_select_value(snapshot.get(SettingId::MultiSceneNoiseCanceling))),
        multi_scene_noise_canceling_options: select_options(snapshot.get(SettingId::MultiSceneNoiseCanceling)),
        multi_scene_noise_canceling_index: select_index(snapshot.get(SettingId::MultiSceneNoiseCanceling)),
        manual_noise_canceling: range_info(snapshot.get(SettingId::ManualNoiseCanceling)),
        adaptive_noise_canceling: or_empty(information_value(snapshot.get(SettingId::AdaptiveNoiseCanceling))),
        anc_sensitivity: range_info(snapshot.get(SettingId::AdaptiveNoiseCancelingSensitivityLevel)),
        button_actions: select_options(snapshot.get(SettingId::LeftSinglePress)),
        normal_mode_in_cycle: toggle_value(snapshot.get(SettingId::NormalModeInCycle)),
        transparency_mode_in_cycle: toggle_value(snapshot.get(SettingId::TransparencyModeInCycle)),
        noise_canceling_mode_in_cycle: toggle_value(snapshot.get(SettingId::NoiseCancelingModeInCycle)),
        serial_number: or_empty(information_value(snapshot.get(SettingId::SerialNumber))),
        firmware_version: or_empty(information_value(snapshot.get(SettingId::FirmwareVersion))),
        firmware_version_left: or_empty(information_value(snapshot.get(SettingId::FirmwareVersionLeft))),
        firmware_version_right: or_empty(information_value(snapshot.get(SettingId::FirmwareVersionRight))),
        tws_status: or_empty(information_value(snapshot.get(SettingId::TwsStatus))),
        host_device: or_empty(information_value(snapshot.get(SettingId::HostDevice))),
        dual_connection_devices: dual_connection_devices(snapshot.get(SettingId::DualConnectionsDevices)),
        eq_bands,
        eq_band_hz,
        eq_min,
        eq_max,
        button_values,
        button_value_indexes,
    }
}

} // verus!
