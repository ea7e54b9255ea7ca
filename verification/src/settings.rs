use vstd::prelude::*;

use crate::text::{spec_opt_string, spec_strings};

verus! {

/// Converts text to title case with `heck::ToTitleCase`. Its algorithm (word
/// boundaries at non-alphanumeric characters and at case changes, each word
/// capitalised, words joined by spaces) is not restated here: this names the result.
pub uninterp spec fn spec_title_case(text: Seq<char>) -> Seq<char>;

/// Calls `heck::ToTitleCase::to_title_case` on `text`; the result depends on `text` alone.
#[verifier::external_body]
fn title_case(text: &str) -> (result: String)
    ensures
        result@ == spec_title_case(text@),
{
    heck::ToTitleCase::to_title_case(text)
}

/// The identifier of one setting of the device.
#[derive(Debug, Clone, Copy, PartialEq, Eq, Hash, PartialOrd, Ord)]
pub enum SettingId {
    AmbientSoundMode,
    NoiseCancelingMode,
    AdaptiveNoiseCanceling,
    ManualNoiseCanceling,
    WindNoiseSuppression,
    WindNoiseDetected,
    AdaptiveNoiseCancelingSensitivityLevel,
    MultiSceneNoiseCanceling,
    PresetEqualizerProfile,
    CustomEqualizerProfile,
    VolumeAdjustments,
    ImportCustomEqualizerProfiles,
    ExportCustomEqualizerProfiles,
    ExportCustomEqualizerProfilesOutput,
    LeftSinglePress,
    RightSinglePress,
    LeftDoublePress,
    RightDoublePress,
    LeftTriplePress,
    RightTriplePress,
    LeftLongPress,
    RightLongPress,
    NormalModeInCycle,
    TransparencyModeInCycle,
    NoiseCancelingModeInCycle,
    ResetButtonsToDefault,
    DualConnections,
    DualConnectionsDevices,
    AutoPowerOff,
    TouchTone,
    LowBatteryPrompt,
    GamingMode,
    TwsStatus,
    HostDevice,
    IsChargingLeft,
    IsChargingRight,
    BatteryLevelLeft,
    BatteryLevelRight,
    SerialNumber,
    FirmwareVersion,
    FirmwareVersionLeft,
    FirmwareVersionRight,
}

/// The identifier text of a setting, as the device API names it (camel case).
pub open spec fn spec_setting_id_name(id: SettingId) -> Seq<char> {
    match id {
        SettingId::AmbientSoundMode => "ambientSoundMode"@,
        SettingId::NoiseCancelingMode => "noiseCancelingMode"@,
        SettingId::AdaptiveNoiseCanceling => "adaptiveNoiseCanceling"@,
        SettingId::ManualNoiseCanceling => "manualNoiseCanceling"@,
        SettingId::WindNoiseSuppression => "windNoiseSuppression"@,
        SettingId::WindNoiseDetected => "windNoiseDetected"@,
        SettingId::AdaptiveNoiseCancelingSensitivityLevel => "adaptiveNoiseCancelingSensitivityLevel"@,
        SettingId::MultiSceneNoiseCanceling => "multiSceneNoiseCanceling"@,
        SettingId::PresetEqualizerProfile => "presetEqualizerProfile"@,
        SettingId::CustomEqualizerProfile => "customEqualizerProfile"@,
        SettingId::VolumeAdjustments => "volumeAdjustments"@,
        SettingId::ImportCustomEqualizerProfiles => "importCustomEqualizerProfiles"@,
        SettingId::ExportCustomEqualizerProfiles => "exportCustomEqualizerProfiles"@,
        SettingId::ExportCustomEqualizerProfilesOutput => "exportCustomEqualizerProfilesOutput"@,
        SettingId::LeftSinglePress => "leftSinglePress"@,
        SettingId::RightSinglePress => "rightSinglePress"@,
        SettingId::LeftDoublePress => "leftDoublePress"@,
        SettingId::RightDoublePress => "rightDoublePress"@,
        SettingId::LeftTriplePress => "leftTriplePress"@,
        SettingId::RightTriplePress => "rightTriplePress"@,
        SettingId::LeftLongPress => "leftLongPress"@,
        SettingId::RightLongPress => "rightLongPress"@,
        SettingId::NormalModeInCycle => "normalModeInCycle"@,
        SettingId::TransparencyModeInCycle => "transparencyModeInCycle"@,
        SettingId::NoiseCancelingModeInCycle => "noiseCancelingModeInCycle"@,
        SettingId::ResetButtonsToDefault => "resetButtonsToDefault"@,
        SettingId::DualConnections => "dualConnections"@,
        SettingId::DualConnectionsDevices => "dualConnectionsDevices"@,
        SettingId::AutoPowerOff => "autoPowerOff"@,
        SettingId::TouchTone => "touchTone"@,
        SettingId::LowBatteryPrompt => "lowBatteryPrompt"@,
        SettingId::GamingMode => "gamingMode"@,
        SettingId::TwsStatus => "twsStatus"@,
        SettingId::HostDevice => "hostDevice"@,
        SettingId::IsChargingLeft => "isChargingLeft"@,
        SettingId::IsChargingRight => "isChargingRight"@,
        SettingId::BatteryLevelLeft => "batteryLevelLeft"@,
        SettingId::BatteryLevelRight => "batteryLevelRight"@,
        SettingId::SerialNumber => "serialNumber"@,
        SettingId::FirmwareVersion => "firmwareVersion"@,
        SettingId::FirmwareVersionLeft => "firmwareVersionLeft"@,
        SettingId::FirmwareVersionRight => "firmwareVersionRight"@,
    }
}

/// The number of setting identifiers.
pub open spec fn spec_setting_id_count() -> int {
    42
}

/// The position of each setting identifier in [`SettingId::all`].
pub open spec fn spec_setting_id_position(id: SettingId) -> int {
    match id {
        SettingId::AmbientSoundMode => 0,
        SettingId::NoiseCancelingMode => 1,
        SettingId::AdaptiveNoiseCanceling => 2,
        SettingId::ManualNoiseCanceling => 3,
        SettingId::WindNoiseSuppression => 4,
        SettingId::WindNoiseDetected => 5,
        SettingId::AdaptiveNoiseCancelingSensitivityLevel => 6,
        SettingId::MultiSceneNoiseCanceling => 7,
        SettingId::PresetEqualizerProfile => 8,
        SettingId::CustomEqualizerProfile => 9,
        SettingId::VolumeAdjustments => 10,
        SettingId::ImportCustomEqualizerProfiles => 11,
        SettingId::ExportCustomEqualizerProfiles => 12,
        SettingId::ExportCustomEqualizerProfilesOutput => 13,
        SettingId::LeftSinglePress => 14,
        SettingId::RightSinglePress => 15,
        SettingId::LeftDoublePress => 16,
        SettingId::RightDoublePress => 17,
        SettingId::LeftTriplePress => 18,
        SettingId::RightTriplePress => 19,
        SettingId::LeftLongPress => 20,
        SettingId::RightLongPress => 21,
        SettingId::NormalModeInCycle => 22,
        SettingId::TransparencyModeInCycle => 23,
        SettingId::NoiseCancelingModeInCycle => 24,
        SettingId::ResetButtonsToDefault => 25,
        SettingId::DualConnections => 26,
        SettingId::DualConnectionsDevices => 27,
        SettingId::AutoPowerOff => 28,
        SettingId::TouchTone => 29,
        SettingId::LowBatteryPrompt => 30,
        SettingId::GamingMode => 31,
        SettingId::TwsStatus => 32,
        SettingId::HostDevice => 33,
        SettingId::IsChargingLeft => 34,
        SettingId::IsChargingRight => 35,
        SettingId::BatteryLevelLeft => 36,
        SettingId::BatteryLevelRight => 37,
        SettingId::SerialNumber => 38,
        SettingId::FirmwareVersion => 39,
        SettingId::FirmwareVersionLeft => 40,
        SettingId::FirmwareVersionRight => 41,
    }
}

/// The label shown for a setting: a fixed English label for the settings the app
/// knows, the title-cased identifier for any other.
pub open spec fn spec_label_for_setting(id: SettingId) -> Seq<char> {
    match id {
        SettingId::AmbientSoundMode => "Sound Mode"@,
        SettingId::NoiseCancelingMode => "Noise Cancelling Mode"@,
        SettingId::AdaptiveNoiseCanceling => "Adaptive Noise Cancelling"@,
        SettingId::ManualNoiseCanceling => "Manual Noise Cancelling"@,
        SettingId::WindNoiseSuppression => "Wind Noise Suppression"@,
        SettingId::WindNoiseDetected => "Wind Noise Detected"@,
        SettingId::AdaptiveNoiseCancelingSensitivityLevel => "ANC Sensitivity"@,
        SettingId::MultiSceneNoiseCanceling => "ANC Scene"@,
        SettingId::PresetEqualizerProfile => "Preset Equalizer"@,
        SettingId::CustomEqualizerProfile => "Custom Equalizer"@,
        SettingId::VolumeAdjustments => "Equalizer"@,
        SettingId::LeftSinglePress => "Left Single Press"@,
        SettingId::RightSinglePress => "Right Single Press"@,
        SettingId::LeftDoublePress => "Left Double Press"@,
        SettingId::RightDoublePress => "Right Double Press"@,
        SettingId::LeftTriplePress => "Left Triple Press"@,
        SettingId::RightTriplePress => "Right Triple Press"@,
        SettingId::LeftLongPress => "Left Long Press"@,
        SettingId::RightLongPress => "Right Long Press"@,
        SettingId::NormalModeInCycle => "Normal in Cycle"@,
        SettingId::TransparencyModeInCycle => "Transparency in Cycle"@,
        SettingId::NoiseCancelingModeInCycle => "Noise Cancelling in Cycle"@,
        SettingId::ResetButtonsToDefault => "Reset Button Settings"@,
        SettingId::DualConnections => "Dual Connections"@,
        SettingId::AutoPowerOff => "Auto Power Off"@,
        SettingId::TouchTone => "Touch Tone"@,
        SettingId::LowBatteryPrompt => "Low Battery Prompt"@,
        SettingId::GamingMode => "Gaming Mode"@,
        SettingId::TwsStatus => "TWS Status"@,
        SettingId::HostDevice => "Connected Device"@,
        SettingId::IsChargingLeft => "Left Charging"@,
        SettingId::IsChargingRight => "Right Charging"@,
        SettingId::BatteryLevelLeft => "Left Battery"@,
        SettingId::BatteryLevelRight => "Right Battery"@,
        SettingId::SerialNumber => "Serial Number"@,
        SettingId::FirmwareVersion => "Firmware Version"@,
        SettingId::FirmwareVersionLeft => "Left Firmware"@,
        SettingId::FirmwareVersionRight => "Right Firmware"@,
        _ => spec_title_case(spec_setting_id_name(id)),
    }
}

impl SettingId {
    /// Every setting identifier, in declaration order.
    pub fn all() -> (result: Vec<SettingId>)
        ensures
            result@.len() == spec_setting_id_count(),
            forall|id: SettingId| result@[#[trigger] spec_setting_id_position(id)] == id,
    {
        let mut result = Vec::new();
        result.push(SettingId::AmbientSoundMode);
        result.push(SettingId::NoiseCancelingMode);
        result.push(SettingId::AdaptiveNoiseCanceling);
        result.push(SettingId::ManualNoiseCanceling);
        result.push(SettingId::WindNoiseSuppression);
        result.push(SettingId::WindNoiseDetected);
        result.push(SettingId::AdaptiveNoiseCancelingSensitivityLevel);
        result.push(SettingId::MultiSceneNoiseCanceling);
        result.push(SettingId::PresetEqualizerProfile);
        result.push(SettingId::CustomEqualizerProfile);
        result.push(SettingId::VolumeAdjustments);
        result.push(SettingId::ImportCustomEqualizerProfiles);
        result.push(SettingId::ExportCustomEqualizerProfiles);
        result.push(SettingId::ExportCustomEqualizerProfilesOutput);
        result.push(SettingId::LeftSinglePress);
        result.push(SettingId::RightSinglePress);
        result.push(SettingId::LeftDoublePress);
        result.push(SettingId::RightDoublePress);
        result.push(SettingId::LeftTriplePress);
        result.push(SettingId::RightTriplePress);
        result.push(SettingId::LeftLongPress);
        result.push(SettingId::RightLongPress);
        result.push(SettingId::NormalModeInCycle);
        result.push(SettingId::TransparencyModeInCycle);
        result.push(SettingId::NoiseCancelingModeInCycle);
        result.push(SettingId::ResetButtonsToDefault);
        result.push(SettingId::DualConnections);
        result.push(SettingId::DualConnectionsDevices);
        result.push(SettingId::AutoPowerOff);
        result.push(SettingId::TouchTone);
        result.push(SettingId::LowBatteryPrompt);
        result.push(SettingId::GamingMode);
        result.push(SettingId::TwsStatus);
        result.push(SettingId::HostDevice);
        result.push(SettingId::IsChargingLeft);
        result.push(SettingId::IsChargingRight);
        result.push(SettingId::BatteryLevelLeft);
        result.push(SettingId::BatteryLevelRight);
        result.push(SettingId::SerialNumber);
        result.push(SettingId::FirmwareVersion);
        result.push(SettingId::FirmwareVersionLeft);
        result.push(SettingId::FirmwareVersionRight);
        result
    }

    /// The position of this setting in [`SettingId::all`].
    pub fn position(&self) -> (result: usize)
        ensures
            result == spec_setting_id_position(*self),
            result < spec_setting_id_count(),
    {
        match self {
            SettingId::AmbientSoundMode => 0,
            SettingId::NoiseCancelingMode => 1,
            SettingId::AdaptiveNoiseCanceling => 2,
            SettingId::ManualNoiseCanceling => 3,
            SettingId::WindNoiseSuppression => 4,
            SettingId::WindNoiseDetected => 5,
            SettingId::AdaptiveNoiseCancelingSensitivityLevel => 6,
            SettingId::MultiSceneNoiseCanceling => 7,
            SettingId::PresetEqualizerProfile => 8,
            SettingId::CustomEqualizerProfile => 9,
            SettingId::VolumeAdjustments => 10,
            SettingId::ImportCustomEqualizerProfiles => 11,
            SettingId::ExportCustomEqualizerProfiles => 12,
            SettingId::ExportCustomEqualizerProfilesOutput => 13,
            SettingId::LeftSinglePress => 14,
            SettingId::RightSinglePress => 15,
            SettingId::LeftDoublePress => 16,
            SettingId::RightDoublePress => 17,
            SettingId::LeftTriplePress => 18,
            SettingId::RightTriplePress => 19,
            SettingId::LeftLongPress => 20,
            SettingId::RightLongPress => 21,
            SettingId::NormalModeInCycle => 22,
            SettingId::TransparencyModeInCycle => 23,
            SettingId::NoiseCancelingModeInCycle => 24,
            SettingId::ResetButtonsToDefault => 25,
            SettingId::DualConnections => 26,
            SettingId::DualConnectionsDevices => 27,
            SettingId::AutoPowerOff => 28,
            SettingId::TouchTone => 29,
            SettingId::LowBatteryPrompt => 30,
            SettingId::GamingMode => 31,
            SettingId::TwsStatus => 32,
            SettingId::HostDevice => 33,
            SettingId::IsChargingLeft => 34,
            SettingId::IsChargingRight => 35,
            SettingId::BatteryLevelLeft => 36,
            SettingId::BatteryLevelRight => 37,
            SettingId::SerialNumber => 38,
            SettingId::FirmwareVersion => 39,
            SettingId::FirmwareVersionLeft => 40,
            SettingId::FirmwareVersionRight => 41,
        }
    }

    /// The identifier text of this setting.
    pub fn to_string(&self) -> (result: String)
        ensures
            result@ == spec_setting_id_name(*self),
    {
        String::from_str(self.as_str())
    }

    /// The identifier text of this setting, borrowed.
    pub fn as_str(&self) -> (result: &'static str)
        ensures
            result@ == spec_setting_id_name(*self),
    {
        match self {
            SettingId::AmbientSoundMode => "ambientSoundMode",
            SettingId::NoiseCancelingMode => "noiseCancelingMode",
            SettingId::AdaptiveNoiseCanceling => "adaptiveNoiseCanceling",
            SettingId::ManualNoiseCanceling => "manualNoiseCanceling",
            SettingId::WindNoiseSuppression => "windNoiseSuppression",
            SettingId::WindNoiseDetected => "windNoiseDetected",
            SettingId::AdaptiveNoiseCancelingSensitivityLevel => "adaptiveNoiseCancelingSensitivityLevel",
            SettingId::MultiSceneNoiseCanceling => "multiSceneNoiseCanceling",
            SettingId::PresetEqualizerProfile => "presetEqualizerProfile",
            SettingId::CustomEqualizerProfile => "customEqualizerProfile",
            SettingId::VolumeAdjustments => "volumeAdjustments",
            SettingId::ImportCustomEqualizerProfiles => "importCustomEqualizerProfiles",
            SettingId::ExportCustomEqualizerProfiles => "exportCustomEqualizerProfiles",
            SettingId::ExportCustomEqualizerProfilesOutput => "exportCustomEqualizerProfilesOutput",
            SettingId::LeftSinglePress => "leftSinglePress",
            SettingId::RightSinglePress => "rightSinglePress",
            SettingId::LeftDoublePress => "leftDoublePress",
            SettingId::RightDoublePress => "rightDoublePress",
            SettingId::LeftTriplePress => "leftTriplePress",
            SettingId::RightTriplePress => "rightTriplePress",
            SettingId::LeftLongPress => "leftLongPress",
            SettingId::RightLongPress => "rightLongPress",
            SettingId::NormalModeInCycle => "normalModeInCycle",
            SettingId::TransparencyModeInCycle => "transparencyModeInCycle",
            SettingId::NoiseCancelingModeInCycle => "noiseCancelingModeInCycle",
            SettingId::ResetButtonsToDefault => "resetButtonsToDefault",
            SettingId::DualConnections => "dualConnections",
            SettingId::DualConnectionsDevices => "dualConnectionsDevices",
            SettingId::AutoPowerOff => "autoPowerOff",
            SettingId::TouchTone => "touchTone",
            SettingId::LowBatteryPrompt => "lowBatteryPrompt",
            SettingId::GamingMode => "gamingMode",
            SettingId::TwsStatus => "twsStatus",
            SettingId::HostDevice => "hostDevice",
            SettingId::IsChargingLeft => "isChargingLeft",
            SettingId::IsChargingRight => "isChargingRight",
            SettingId::BatteryLevelLeft => "batteryLevelLeft",
            SettingId::BatteryLevelRight => "batteryLevelRight",
            SettingId::SerialNumber => "serialNumber",
            SettingId::FirmwareVersion => "firmwareVersion",
            SettingId::FirmwareVersionLeft => "firmwareVersionLeft",
            SettingId::FirmwareVersionRight => "firmwareVersionRight",
        }
    }

    /// The setting whose identifier text is `text`, if there is one.
    pub fn from_str(text: &str) -> (result: Option<SettingId>)
        ensures
            match result {
                Some(id) => spec_setting_id_name(id) == text@,
                None => forall|id: SettingId| spec_setting_id_name(id) != text@,
            },
    {
        let all = SettingId::all();
        let wanted = String::from_str(text);
        let mut i: usize = 0;
        while i < all.len()
            invariant
                i <= all@.len(),
                all@.len() == spec_setting_id_count(),
                forall|id: SettingId| all@[#[trigger] spec_setting_id_position(id)] == id,
                wanted@ == text@,
                forall|j: int| 0 <= j < i ==> spec_setting_id_name(#[trigger] all@[j]) != text@,
            decreases all@.len() - i,
        {
            if all[i].to_string() == wanted {
                return Some(all[i]);
            }
            i = i + 1;
        }
        proof {
            assert forall|id: SettingId| spec_setting_id_name(id) != text@ by {
                assert(all@[spec_setting_id_position(id)] == id);
            }
        }
        None
    }
}

/// Recovers a setting from its identifier text by looking at its length and at a few
/// of its characters; used to show that identifier texts are distinct.
spec fn spec_setting_id_key(text: Seq<char>) -> Option<SettingId> {
    if text.len() == 9 {
        if text[1] == 'o' {
            Some(SettingId::TouchTone)
        } else if text[1] == 'w' {
            Some(SettingId::TwsStatus)
        } else {
            Some(SettingId::VolumeAdjustments)
        }
    } else if text.len() == 10 {
        if text[0] == 'g' {
            Some(SettingId::GamingMode)
        } else {
            Some(SettingId::HostDevice)
        }
    } else if text.len() == 12 {
        if text[0] == 'a' {
            Some(SettingId::AutoPowerOff)
        } else {
            Some(SettingId::SerialNumber)
        }
    } else if text.len() == 13 {
        Some(SettingId::LeftLongPress)
    } else if text.len() == 14 {
        if text[0] == 'r' {
            Some(SettingId::RightLongPress)
        } else {
            Some(SettingId::IsChargingLeft)
        }
    } else if text.len() == 15 {
        if text[4] == 'S' {
            Some(SettingId::LeftSinglePress)
        } else if text[4] == 'D' {
            Some(SettingId::LeftDoublePress)
        } else if text[4] == 'T' {
            Some(SettingId::LeftTriplePress)
        } else if text[4] == 'C' {
            Some(SettingId::DualConnections)
        } else if text[4] == 'a' {
            Some(SettingId::IsChargingRight)
        } else {
            Some(SettingId::FirmwareVersion)
        }
    } else if text.len() == 16 {
        if text[5] == 'n' {
            Some(SettingId::AmbientSoundMode)
        } else if text[5] == 'S' {
            Some(SettingId::RightSinglePress)
        } else if text[5] == 'D' {
            Some(SettingId::RightDoublePress)
        } else if text[5] == 'T' {
            Some(SettingId::RightTriplePress)
        } else if text[5] == 't' {
            Some(SettingId::LowBatteryPrompt)
        } else {
            Some(SettingId::BatteryLevelLeft)
        }
    } else if text.len() == 17 {
        if text[0] == 'w' {
            Some(SettingId::WindNoiseDetected)
        } else if text[0] == 'v' {
            Some(SettingId::VolumeAdjustments)
        } else if text[0] == 'n' {
            Some(SettingId::NormalModeInCycle)
        } else {
            Some(SettingId::BatteryLevelRight)
        }
    } else if text.len() == 18 {
        Some(SettingId::NoiseCancelingMode)
    } else if text.len() == 19 {
        Some(SettingId::FirmwareVersionLeft)
    } else if text.len() == 20 {
        if text[0] == 'm' {
            Some(SettingId::ManualNoiseCanceling)
        } else if text[0] == 'w' {
            Some(SettingId::WindNoiseSuppression)
        } else {
            Some(SettingId::FirmwareVersionRight)
        }
    } else if text.len() == 21 {
        Some(SettingId::ResetButtonsToDefault)
    } else if text.len() == 22 {
        if text[0] == 'a' {
            Some(SettingId::AdaptiveNoiseCanceling)
        } else if text[0] == 'p' {
            Some(SettingId::PresetEqualizerProfile)
        } else if text[0] == 'c' {
            Some(SettingId::CustomEqualizerProfile)
        } else {
            Some(SettingId::DualConnectionsDevices)
        }
    } else if text.len() == 23 {
        Some(SettingId::TransparencyModeInCycle)
    } else if text.len() == 24 {
        Some(SettingId::MultiSceneNoiseCanceling)
    } else if text.len() == 25 {
        Some(SettingId::NoiseCancelingModeInCycle)
    } else if text.len() == 29 {
        if text[0] == 'i' {
            Some(SettingId::ImportCustomEqualizerProfiles)
        } else {
            Some(SettingId::ExportCustomEqualizerProfiles)
        }
    } else if text.len() == 35 {
        Some(SettingId::ExportCustomEqualizerProfilesOutput)
    } else if text.len() == 38 {
        Some(SettingId::AdaptiveNoiseCancelingSensitivityLevel)
    } else {
        None
    }
}

/// Distinct settings have distinct identifier texts, so reading back the identifier
/// text of a setting gives the same setting.
pub proof fn lemma_setting_id_names_distinct(a: SettingId, b: SettingId)
    ensures
        spec_setting_id_name(a) == spec_setting_id_name(b) ==> a == b,
{
    reveal_strlit("ambientSoundMode");
    reveal_strlit("noiseCancelingMode");
    reveal_strlit("adaptiveNoiseCanceling");
    reveal_strlit("manualNoiseCanceling");
    reveal_strlit("windNoiseSuppression");
    reveal_strlit("windNoiseDetected");
    reveal_strlit("adaptiveNoiseCancelingSensitivityLevel");
    reveal_strlit("multiSceneNoiseCanceling");
    reveal_strlit("presetEqualizerProfile");
    reveal_strlit("customEqualizerProfile");
    reveal_strlit("volumeAdjustments");
    reveal_strlit("importCustomEqualizerProfiles");
    reveal_strlit("exportCustomEqualizerProfiles");
    reveal_strlit("exportCustomEqualizerProfilesOutput");
    reveal_strlit("leftSinglePress");
    reveal_strlit("rightSinglePress");
    reveal_strlit("leftDoublePress");
    reveal_strlit("rightDoublePress");
    reveal_strlit("leftTriplePress");
    reveal_strlit("rightTriplePress");
    reveal_strlit("leftLongPress");
    reveal_strlit("rightLongPress");
    reveal_strlit("normalModeInCycle");
    reveal_strlit("transparencyModeInCycle");
    reveal_strlit("noiseCancelingModeInCycle");
    reveal_strlit("resetButtonsToDefault");
    reveal_strlit("dualConnections");
    reveal_strlit("dualConnectionsDevices");
    reveal_strlit("autoPowerOff");
    reveal_strlit("touchTone");
    reveal_strlit("lowBatteryPrompt");
    reveal_strlit("gamingMode");
    reveal_strlit("twsStatus");
    reveal_strlit("hostDevice");
    reveal_strlit("isChargingLeft");
    reveal_strlit("isChargingRight");
    reveal_strlit("batteryLevelLeft");
    reveal_strlit("batteryLevelRight");
    reveal_strlit("serialNumber");
    reveal_strlit("firmwareVersion");
    reveal_strlit("firmwareVersionLeft");
    reveal_strlit("firmwareVersionRight");
    reveal_strlit("Equalizer");
    assert(spec_setting_id_key(spec_setting_id_name(a)) == Some(a));
    assert(spec_setting_id_key(spec_setting_id_name(b)) == Some(b));
}

/// The label shown for a setting.
pub fn label_for_setting(setting_id: SettingId) -> (result: String)
    ensures
        result@ == spec_label_for_setting(setting_id),
{
    match setting_id {
        SettingId::AmbientSoundMode => String::from_str("Sound Mode"),
        SettingId::NoiseCancelingMode => String::from_str("Noise Cancelling Mode"),
        SettingId::AdaptiveNoiseCanceling => String::from_str("Adaptive Noise Cancelling"),
        SettingId::ManualNoiseCanceling => String::from_str("Manual Noise Cancelling"),
        SettingId::WindNoiseSuppression => String::from_str("Wind Noise Suppression"),
        SettingId::WindNoiseDetected => String::from_str("Wind Noise Detected"),
        SettingId::AdaptiveNoiseCancelingSensitivityLevel => String::from_str("ANC Sensitivity"),
        SettingId::MultiSceneNoiseCanceling => String::from_str("ANC Scene"),
        SettingId::PresetEqualizerProfile => String::from_str("Preset Equalizer"),
        SettingId::CustomEqualizerProfile => String::from_str("Custom Equalizer"),
        SettingId::VolumeAdjustments => String::from_str("Equalizer"),
        SettingId::LeftSinglePress => String::from_str("Left Single Press"),
        SettingId::RightSinglePress => String::from_str("Right Single Press"),
        SettingId::LeftDoublePress => String::from_str("Left Double Press"),
        SettingId::RightDoublePress => String::from_str("Right Double Press"),
        SettingId::LeftTriplePress => String::from_str("Left Triple Press"),
        SettingId::RightTriplePress => String::from_str("Right Triple Press"),
        SettingId::LeftLongPress => String::from_str("Left Long Press"),
        SettingId::RightLongPress => String::from_str("Right Long Press"),
        SettingId::NormalModeInCycle => String::from_str("Normal in Cycle"),
        SettingId::TransparencyModeInCycle => String::from_str("Transparency in Cycle"),
        SettingId::NoiseCancelingModeInCycle => String::from_str("Noise Cancelling in Cycle"),
        SettingId::ResetButtonsToDefault => String::from_str("Reset Button Settings"),
        SettingId::DualConnections => String::from_str("Dual Connections"),
        SettingId::AutoPowerOff => String::from_str("Auto Power Off"),
        SettingId::TouchTone => String::from_str("Touch Tone"),
        SettingId::LowBatteryPrompt => String::from_str("Low Battery Prompt"),
        SettingId::GamingMode => String::from_str("Gaming Mode"),
        SettingId::TwsStatus => String::from_str("TWS Status"),
        SettingId::HostDevice => String::from_str("Connected Device"),
        SettingId::IsChargingLeft => String::from_str("Left Charging"),
        SettingId::IsChargingRight => String::from_str("Right Charging"),
        SettingId::BatteryLevelLeft => String::from_str("Left Battery"),
        SettingId::BatteryLevelRight => String::from_str("Right Battery"),
        SettingId::SerialNumber => String::from_str("Serial Number"),
        SettingId::FirmwareVersion => String::from_str("Firmware Version"),
        SettingId::FirmwareVersionLeft => String::from_str("Left Firmware"),
        SettingId::FirmwareVersionRight => String::from_str("Right Firmware"),
        _ => title_case(setting_id.as_str()),
    }
}

/// A group of settings.
#[derive(Debug, Clone, Copy, PartialEq, Eq, Hash, PartialOrd, Ord)]
pub enum CategoryId {
    General,
    SoundModes,
    Equalizer,
    EqualizerImportExport,
    ButtonConfiguration,
    DeviceInformation,
    Miscellaneous,
    LimitHighVolume,
    DualConnections,
    Case,
    Lights,
}

/// The identifier text of a category (camel case).
pub open spec fn spec_category_id_name(id: CategoryId) -> Seq<char> {
    match id {
        CategoryId::General => "general"@,
        CategoryId::SoundModes => "soundModes"@,
        CategoryId::Equalizer => "equalizer"@,
        CategoryId::EqualizerImportExport => "equalizerImportExport"@,
        CategoryId::ButtonConfiguration => "buttonConfiguration"@,
        CategoryId::DeviceInformation => "deviceInformation"@,
        CategoryId::Miscellaneous => "miscellaneous"@,
        CategoryId::LimitHighVolume => "limitHighVolume"@,
        CategoryId::DualConnections => "dualConnections"@,
        CategoryId::Case => "case"@,
        CategoryId::Lights => "lights"@,
    }
}

/// The label shown for a category.
pub open spec fn spec_label_for_category(id: CategoryId) -> Seq<char> {
    match id {
        CategoryId::General => "General"@,
        CategoryId::SoundModes => "Sound Modes"@,
        CategoryId::Equalizer => "Equalizer"@,
        CategoryId::EqualizerImportExport => "Equalizer Import/Export"@,
        CategoryId::ButtonConfiguration => "Controls"@,
        CategoryId::DeviceInformation => "Device Information"@,
        CategoryId::Miscellaneous => "Miscellaneous"@,
        CategoryId::LimitHighVolume => "Volume Limit"@,
        CategoryId::DualConnections => "Dual Connections"@,
        CategoryId::Case => "Case"@,
        CategoryId::Lights => "Lights"@,
    }
}

impl CategoryId {
    /// The identifier text of this category.
    pub fn to_string(&self) -> (result: String)
        ensures
            result@ == spec_category_id_name(*self),
    {
        match self {
            CategoryId::General => String::from_str("general"),
            CategoryId::SoundModes => String::from_str("soundModes"),
            CategoryId::Equalizer => String::from_str("equalizer"),
            CategoryId::EqualizerImportExport => String::from_str("equalizerImportExport"),
            CategoryId::ButtonConfiguration => String::from_str("buttonConfiguration"),
            CategoryId::DeviceInformation => String::from_str("deviceInformation"),
            CategoryId::Miscellaneous => String::from_str("miscellaneous"),
            CategoryId::LimitHighVolume => String::from_str("limitHighVolume"),
            CategoryId::DualConnections => String::from_str("dualConnections"),
            CategoryId::Case => String::from_str("case"),
            CategoryId::Lights => String::from_str("lights"),
        }
    }
}

/// The label shown for a category.
pub fn label_for_category(category: CategoryId) -> (result: String)
    ensures
        result@ == spec_label_for_category(category),
{
    match category {
        CategoryId::General => String::from_str("General"),
        CategoryId::SoundModes => String::from_str("Sound Modes"),
        CategoryId::Equalizer => String::from_str("Equalizer"),
        CategoryId::EqualizerImportExport => String::from_str("Equalizer Import/Export"),
        CategoryId::ButtonConfiguration => String::from_str("Controls"),
        CategoryId::DeviceInformation => String::from_str("Device Information"),
        CategoryId::Miscellaneous => String::from_str("Miscellaneous"),
        CategoryId::LimitHighVolume => String::from_str("Volume Limit"),
        CategoryId::DualConnections => String::from_str("Dual Connections"),
        CategoryId::Case => String::from_str("Case"),
        CategoryId::Lights => String::from_str("Lights"),
    }
}

/// The choices of a select-style setting: the raw option names and their display labels.
#[derive(Debug, Clone)]
pub struct Select {
    pub options: Vec<String>,
    pub localized_options: Vec<String>,
}

/// The bounds and step of an integer range setting.
#[derive(Debug, Clone, Copy, PartialEq, Eq, Hash)]
pub struct Range {
    pub start: i32,
    pub end: i32,
    pub step: i32,
}

/// The shape of an equalizer setting: the centre frequency of each band and the bounds
/// of a band's value.
#[derive(Debug, Clone)]
pub struct Equalizer {
    pub band_hz: Vec<u16>,
    pub min: i16,
    pub max: i16,
}

/// The current state of one setting, as the device reports it.
#[derive(Debug, Clone)]
pub enum Setting {
    Toggle { value: bool },
    I32Range { setting: Range, value: i32 },
    Select { setting: Select, value: String },
    OptionalSelect { setting: Select, value: Option<String> },
    ModifiableSelect { setting: Select, value: Option<String> },
    PresetEqualizerProfileSelect { select: Select, value: Option<String> },
    MultiSelect { setting: Select, values: Vec<String> },
    MultiSelectWithRemove { setting: Select, values: Vec<String> },
    Equalizer { setting: Equalizer, read_only: bool, value: Vec<i16> },
    Information { value: String, translated_value: String },
    ImportString,
    HueColorPicker { hue: i32 },
    Action,
}

/// A new value for a setting.
#[derive(Debug, Clone)]
pub enum Value {
    Bool(bool),
    I32(i32),
    String(String),
    OptionalString(Option<String>),
    I16Vec(Vec<i16>),
    StringVec(Vec<String>),
    /// Removes one entry from a multi-select-with-remove setting.
    RemoveFromMultiSelect(String),
}

/// A setting value as plain data.
pub enum ValueView {
    Bool(bool),
    I32(i32),
    String(Seq<char>),
    OptionalString(Option<Seq<char>>),
    I16Vec(Seq<i16>),
    StringVec(Seq<Seq<char>>),
    RemoveFromMultiSelect(Seq<char>),
}

impl View for Value {
    type V = ValueView;

    open spec fn view(&self) -> ValueView {
        match self {
            Value::Bool(value) => ValueView::Bool(*value),
            Value::I32(value) => ValueView::I32(*value),
            Value::String(value) => ValueView::String(value@),
            Value::OptionalString(value) => ValueView::OptionalString(spec_opt_string(*value)),
            Value::I16Vec(value) => ValueView::I16Vec(value@),
            Value::StringVec(value) => ValueView::StringVec(spec_strings(value@)),
            Value::RemoveFromMultiSelect(value) => ValueView::RemoveFromMultiSelect(value@),
        }
    }
}

} // verus!
