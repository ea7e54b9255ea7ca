use vstd::prelude::*;

use crate::settings::Setting;
use crate::text::{
    clone_strings, position_of, prefixed, spec_is_first_position, spec_opt_string, spec_strings,
};

verus! {

/// Commands sent from the tray's D-Bus thread to the Qt event loop.
#[derive(Debug, Clone)]
pub enum TrayCommand {
    SetAmbientSoundMode(String),
    SetEqualizerPreset(String),
    OpenSettings,
    Quit,
}

/// The ambient sound modes of the R50i NC, in the order of the tray's radio group.
pub open spec fn spec_anc_modes() -> Seq<Seq<char>> {
    seq!["Normal"@, "Transparency"@, "NoiseCanceling"@]
}

/// The labels of the ambient sound modes, in the same order.
pub open spec fn spec_anc_labels() -> Seq<Seq<char>> {
    seq!["Normal"@, "Transparency"@, "Noise Cancelling"@]
}

/// The radio position of an ambient sound mode: its place in [`spec_anc_modes`], or
/// the first position when the mode is unknown or missing.
pub open spec fn spec_anc_mode_index(mode: Option<Seq<char>>) -> usize {
    match mode {
        Some(mode) => if mode == spec_anc_modes()[0] {
            0
        } else if mode == spec_anc_modes()[1] {
            1
        } else if mode == spec_anc_modes()[2] {
            2
        } else {
            0
        },
        None => 0,
    }
}

/// The ambient sound mode names, in radio order.
pub fn anc_modes() -> (result: Vec<String>)
    ensures
        spec_strings(result@) == spec_anc_modes(),
        result@.len() == 3,
        forall|i: int| 0 <= i < 3 ==> (#[trigger] result@[i])@ == spec_anc_modes()[i],
{
    let mut result = Vec::new();
    result.push(String::from_str("Normal"));
    result.push(String::from_str("Transparency"));
    result.push(String::from_str("NoiseCanceling"));
    assert(spec_strings(result@) =~= spec_anc_modes());
    result
}

/// The ambient sound mode labels, in radio order.
pub fn anc_labels() -> (result: Vec<String>)
    ensures
        spec_strings(result@) == spec_anc_labels(),
        result@.len() == 3,
        forall|i: int| 0 <= i < 3 ==> (#[trigger] result@[i])@ == spec_anc_labels()[i],
{
    let mut result = Vec::new();
    result.push(String::from_str("Normal"));
    result.push(String::from_str("Transparency"));
    result.push(String::from_str("Noise Cancelling"));
    assert(spec_strings(result@) =~= spec_anc_labels());
    result
}

/// The radio position to show for the device's ambient sound mode.
pub fn anc_mode_index(mode: &Option<String>) -> (result: usize)
    ensures
        result == spec_anc_mode_index(spec_opt_string(*mode)),
        result < 3,
{
    match mode {
        Some(mode) => {
            let modes = anc_modes();
            if *mode == modes[0] {
                0
            } else if *mode == modes[1] {
                1
            } else if *mode == modes[2] {
                2
            } else {
                0
            }
        },
        None => 0,
    }
}

/// The command sent when the radio item at `index` is picked: the mode at that
/// position, or nothing for a position past the end.
pub fn anc_command(index: usize) -> (result: Option<TrayCommand>)
    ensures
        match result {
            Some(TrayCommand::SetAmbientSoundMode(mode)) => index < 3 && mode@
                == spec_anc_modes()[index as int],
            Some(_) => false,
            None => index >= 3,
        },
{
    let modes = anc_modes();
    if index < modes.len() {
        Some(TrayCommand::SetAmbientSoundMode(modes[index].clone()))
    } else {
        None
    }
}

/// Picking the radio item that the menu marks as selected sends the device's own
/// ambient sound mode back, whenever that mode is one of the radio items.
pub proof fn lemma_anc_selection_round_trip(mode: Seq<char>)
    requires
        spec_anc_modes().contains(mode),
    ensures
        spec_anc_modes()[spec_anc_mode_index(Some(mode)) as int] == mode,
{
}

/// Picking the preset item that the menu marks as selected sends the device's own
/// preset back, whenever that preset is one of the options.
pub proof fn lemma_preset_selection_round_trip(options: Seq<Seq<char>>, value: Seq<char>)
    requires
        options.contains(value),
        options.len() <= usize::MAX,
    ensures
        spec_preset_index(options, Some(value)) < options.len(),
        options[spec_preset_index(options, Some(value)) as int] == value,
{
    let k = choose|k: int| 0 <= k < options.len() && options[k] == value;
    lemma_first_position_exists(options, value, k);
    let i = choose|i: int|
        0 <= i < options.len() && options[i] == value && forall|j: int|
            0 <= j < i ==> options[j] != value;
    assert(spec_preset_index(options, Some(value)) == i as usize);
}

/// When `value` occurs in `options`, some position holds it with no earlier position holding it.
proof fn lemma_first_position_exists(options: Seq<Seq<char>>, value: Seq<char>, k: int)
    requires
        0 <= k < options.len(),
        options[k] == value,
    ensures
        exists|i: int| 0 <= i < options.len() && options[i] == value && forall|j: int|
            0 <= j < i ==> options[j] != value,
    decreases k,
{
    if exists|j: int| 0 <= j < k && options[j] == value {
        let j = choose|j: int| 0 <= j < k && options[j] == value;
        lemma_first_position_exists(options, value, j);
    } else {
        assert(forall|j: int| 0 <= j < k ==> options[j] != value);
    }
}

/// The equalizer presets a device offers: the raw option names, their display labels,
/// and the selected option.
#[derive(Debug, Clone)]
pub struct EqualizerPresets {
    pub options: Vec<String>,
    pub labels: Vec<String>,
    pub value: Option<String>,
}

/// The radio position of the selected preset: the first option equal to it, or the
/// first position when nothing is selected or the value is not an option.
pub open spec fn spec_preset_index(options: Seq<Seq<char>>, value: Option<Seq<char>>) -> usize {
    match value {
        Some(value) => if exists|i: int| 0 <= i < options.len() && options[i] == value {
            (choose|i: int| 0 <= i < options.len() && options[i] == value && forall|j: int|
                0 <= j < i ==> options[j] != value) as usize
        } else {
            0
        },
        None => 0,
    }
}

/// The radio position to show for the selected equalizer preset.
pub fn preset_index(presets: &EqualizerPresets) -> (result: usize)
    ensures
        result == spec_preset_index(spec_strings(presets.options@), spec_opt_string(presets.value)),
{
    match &presets.value {
        Some(value) => {
            match position_of(&presets.options, value) {
                Some(index) => {
                    let ghost options = spec_strings(presets.options@);
                    proof {
                        assert(options[index as int] == value@);
                        assert(exists|i: int| 0 <= i < options.len() && options[i] == value@);
                        let chosen = choose|i: int|
                            0 <= i < options.len() && options[i] == value@ && forall|j: int|
                                0 <= j < i ==> options[j] != value@;
                        assert(0 <= index < options.len() && options[index as int] == value@
                            && forall|j: int| 0 <= j < index ==> options[j] != value@);
                        if chosen < index {
                            assert(options[chosen] != value@);
                        }
                        if chosen > index {
                            assert(options[index as int] != value@);
                        }
                    }
                    index
                },
                None => 0,
            }
        },
        None => 0,
    }
}

/// The command sent when the preset at `index` is picked, or nothing for a position
/// past the end of the options.
pub fn preset_command(options: &Vec<String>, index: usize) -> (result: Option<TrayCommand>)
    ensures
        match result {
            Some(TrayCommand::SetEqualizerPreset(preset)) => index < options@.len() && preset@
                == options@[index as int]@,
            Some(_) => false,
            None => index >= options@.len(),
        },
{
    if index < options.len() {
        Some(TrayCommand::SetEqualizerPreset(options[index].clone()))
    } else {
        None
    }
}

/// What the tray reads from the connected device: the battery level of each earbud
/// (already in display form), the ambient sound mode, and the equalizer presets when
/// the device offers them.
#[derive(Debug, Clone)]
pub struct TrayDevice {
    pub battery_left: Option<String>,
    pub battery_right: Option<String>,
    pub ambient_sound_mode: Option<String>,
    pub equalizer_presets: Option<EqualizerPresets>,
}

/// The tool tip text for the tray icon.
pub open spec fn spec_tool_tip_description(device: Option<TrayDevice>) -> Seq<char> {
    match device {
        None => "Not connected"@,
        Some(device) => match (device.battery_left, device.battery_right) {
            (Some(left), Some(right)) => "Left "@ + left@ + " \u{b7} Right "@ + right@,
            (Some(value), None) => "Battery "@ + value@,
            (None, Some(value)) => "Battery "@ + value@,
            (None, None) => "Not connected"@,
        },
    }
}

/// The tool tip text: both battery levels, the one that is known, or "Not connected".
pub fn tool_tip_description(device: &Option<TrayDevice>) -> (result: String)
    ensures
        result@ == spec_tool_tip_description(*device),
{
    match device {
        None => String::from_str("Not connected"),
        Some(device) => match (&device.battery_left, &device.battery_right) {
            (Some(left), Some(right)) => prefixed("Left ", left).concat(" \u{b7} Right ").concat(
                right.as_str(),
            ),
            (Some(value), None) => prefixed("Battery ", value),
            (None, Some(value)) => prefixed("Battery ", value),
            (None, None) => String::from_str("Not connected"),
        },
    }
}

/// One entry of the tray menu.
#[derive(Debug, Clone)]
pub enum MenuEntry {
    /// A disabled line of text.
    Informative(String),
    Separator,
    /// The ambient sound mode radio group, labelled with [`anc_labels`]; picking an item
    /// sends [`anc_command`] of its position.
    AmbientSoundModes { selected: usize },
    /// The equalizer preset submenu; picking an item sends [`preset_command`] of its
    /// position in `presets`.
    EqualizerPresets { selected: usize, labels: Vec<String>, presets: Vec<String> },
    /// "Open Settings", which sends [`TrayCommand::OpenSettings`].
    OpenSettings,
    /// "Quit", which sends [`TrayCommand::Quit`].
    Quit,
}

/// What a menu entry shows, as plain values.
pub enum MenuEntryView {
    Informative(Seq<char>),
    Separator,
    AmbientSoundModes { selected: usize },
    EqualizerPresets { selected: usize, labels: Seq<Seq<char>>, presets: Seq<Seq<char>> },
    OpenSettings,
    Quit,
}

impl View for MenuEntry {
    type V = MenuEntryView;

    open spec fn view(&self) -> MenuEntryView {
        match self {
            MenuEntry::Informative(text) => MenuEntryView::Informative(text@),
            MenuEntry::Separator => MenuEntryView::Separator,
            MenuEntry::AmbientSoundModes { selected } => MenuEntryView::AmbientSoundModes {
                selected: *selected,
            },
            MenuEntry::EqualizerPresets { selected, labels, presets } =>
                MenuEntryView::EqualizerPresets {
                selected: *selected,
                labels: spec_strings(labels@),
                presets: spec_strings(presets@),
            },
            MenuEntry::OpenSettings => MenuEntryView::OpenSettings,
            MenuEntry::Quit => MenuEntryView::Quit,
        }
    }
}

/// The views of a list of menu entries.
pub open spec fn spec_entries(entries: Seq<MenuEntry>) -> Seq<MenuEntryView> {
    entries.map_values(|entry: MenuEntry| entry@)
}

/// The battery lines of the menu: one per known earbud level, then a separator when
/// there is at least one.
pub open spec fn spec_battery_entries(device: TrayDevice) -> Seq<MenuEntryView> {
    let left = match device.battery_left {
        Some(left) => seq![MenuEntryView::Informative("Left battery: "@ + left@)],
        None => Seq::empty(),
    };
    let right = match device.battery_right {
        Some(right) => seq![MenuEntryView::Informative("Right battery: "@ + right@)],
        None => Seq::empty(),
    };
    if left.len() + right.len() > 0 {
        left + right + seq![MenuEntryView::Separator]
    } else {
        left + right
    }
}

/// The equalizer preset part of the menu: a separator and the preset submenu, when the
/// device offers presets.
pub open spec fn spec_preset_entries(device: TrayDevice) -> Seq<MenuEntryView> {
    match device.equalizer_presets {
        Some(presets) => seq![
            MenuEntryView::Separator,
            MenuEntryView::EqualizerPresets {
                selected: spec_preset_index(
                    spec_strings(presets.options@),
                    spec_opt_string(presets.value),
                ),
                labels: spec_strings(presets.labels@),
                presets: spec_strings(presets.options@),
            },
        ],
        None => Seq::empty(),
    }
}

/// The tray menu for the connected device, or for no device.
pub open spec fn spec_menu(device: Option<TrayDevice>) -> Seq<MenuEntryView> {
    match device {
        None => seq![
            MenuEntryView::Informative("Not connected"@),
            MenuEntryView::Separator,
            MenuEntryView::OpenSettings,
            MenuEntryView::Quit,
        ],
        Some(device) => spec_battery_entries(device) + seq![
            MenuEntryView::AmbientSoundModes {
                selected: spec_anc_mode_index(spec_opt_string(device.ambient_sound_mode)),
            },
        ] + spec_preset_entries(device) + seq![
            MenuEntryView::Separator,
            MenuEntryView::OpenSettings,
            MenuEntryView::Quit,
        ],
    }
}

/// The menu of a connected device shows every battery level that is known: the line
/// "Left battery: l" for a known left level `l` and "Right battery: r" for a known
/// right level `r`, whatever the other earbud's level is.
pub proof fn lemma_menu_shows_each_known_battery(device: TrayDevice)
    ensures
        device.battery_left matches Some(left) ==> spec_menu(Some(device)).contains(
            MenuEntryView::Informative("Left battery: "@ + left@),
        ),
        device.battery_right matches Some(right) ==> spec_menu(Some(device)).contains(
            MenuEntryView::Informative("Right battery: "@ + right@),
        ),
{
    let m = spec_menu(Some(device));
    let b = spec_battery_entries(device);
    assert(forall|k: int| 0 <= k < b.len() ==> m[k] == b[k]);
    if let Some(left) = device.battery_left {
        assert(m[0] == MenuEntryView::Informative("Left battery: "@ + left@));
    }
    if let Some(right) = device.battery_right {
        let k: int = if device.battery_left is Some { 1 } else { 0 };
        assert(m[k] == MenuEntryView::Informative("Right battery: "@ + right@));
    }
}

/// Appends `more` to `items`.
fn append_entries(items: &mut Vec<MenuEntry>, more: Vec<MenuEntry>)
    ensures
        spec_entries(final(items)@) == spec_entries(old(items)@) + spec_entries(more@),
{
    let mut more = more;
    let ghost added = more@;
    items.append(&mut more);
    assert(spec_entries(items@) =~= spec_entries(old(items)@) + spec_entries(added));
}

/// The battery lines of the menu.
fn battery_entries(device: &TrayDevice) -> (result: Vec<MenuEntry>)
    ensures
        spec_entries(result@) == spec_battery_entries(*device),
{
    let mut items: Vec<MenuEntry> = Vec::new();
    if let Some(left) = &device.battery_left {
        items.push(MenuEntry::Informative(prefixed("Left battery: ", left)));
    }
    if let Some(right) = &device.battery_right {
        items.push(MenuEntry::Informative(prefixed("Right battery: ", right)));
    }
    if items.len() != 0 {
        items.push(MenuEntry::Separator);
    }
    assert(spec_entries(items@) =~= spec_battery_entries(*device));
    items
}

/// The equalizer preset part of the menu.
fn preset_entries(device: &TrayDevice) -> (result: Vec<MenuEntry>)
    ensures
        spec_entries(result@) == spec_preset_entries(*device),
{
    let mut items: Vec<MenuEntry> = Vec::new();
    if let Some(presets) = &device.equalizer_presets {
        items.push(MenuEntry::Separator);
        let selected: usize = preset_index(presets);
        let labels = clone_strings(&presets.labels);
        let options = clone_strings(&presets.options);
        items.push(MenuEntry::EqualizerPresets { selected, labels, presets: options });
    }
    assert(spec_entries(items@) =~= spec_preset_entries(*device));
    items
}

/// Builds the tray menu: battery lines, the ambient sound mode group, the equalizer
/// presets when offered, then "Open Settings" and "Quit"; without a device, a
/// "Not connected" line and the last two items.
pub fn menu(device: &Option<TrayDevice>) -> (result: Vec<MenuEntry>)
    ensures
        spec_entries(result@) == spec_menu(*device),
{
    match device {
        None => {
            let mut items: Vec<MenuEntry> = Vec::new();
            items.push(MenuEntry::Informative(String::from_str("Not connected")));
            items.push(MenuEntry::Separator);
            items.push(MenuEntry::OpenSettings);
            items.push(MenuEntry::Quit);
            assert(spec_entries(items@) =~= spec_menu(*device));
            items
        },
        Some(d) => {
            let mut items = battery_entries(d);
            let selected: usize = anc_mode_index(&d.ambient_sound_mode);
            let mut middle: Vec<MenuEntry> = Vec::new();
            middle.push(MenuEntry::AmbientSoundModes { selected });
            assert(spec_entries(middle@) =~= seq![
                MenuEntryView::AmbientSoundModes {
                    selected: spec_anc_mode_index(spec_opt_string(d.ambient_sound_mode)),
                },
            ]);
            append_entries(&mut items, middle);
            append_entries(&mut items, preset_entries(d));
            let mut last: Vec<MenuEntry> = Vec::new();
            last.push(MenuEntry::Separator);
            last.push(MenuEntry::OpenSettings);
            last.push(MenuEntry::Quit);
            assert(spec_entries(last@) =~= seq![
                MenuEntryView::Separator,
                MenuEntryView::OpenSettings,
                MenuEntryView::Quit,
            ]);
            append_entries(&mut items, last);
            items
        },
    }
}

/// The ambient sound mode the tray shows for the device's `AmbientSoundMode` setting:
/// the value of a plain select; nothing for a missing setting or any other kind.
pub open spec fn spec_tray_ambient_sound_mode(setting: Option<Setting>) -> Option<Seq<char>> {
    match setting {
        Some(Setting::Select { value, .. }) => Some(value@),
        _ => None,
    }
}

/// Reads the tray's ambient sound mode out of the device's `AmbientSoundMode` setting.
pub fn tray_ambient_sound_mode(setting: &Option<Setting>) -> (result: Option<String>)
    ensures
        spec_opt_string(result) == spec_tray_ambient_sound_mode(*setting),
{
    match setting {
        Some(Setting::Select { value, .. }) => Some(value.clone()),
        _ => None,
    }
}

/// Reads the tray's equalizer presets out of the device's `PresetEqualizerProfile`
/// setting: the raw options, their labels and the selected preset of a preset select;
/// nothing for a missing setting or any other kind.
pub fn tray_equalizer_presets(setting: &Option<Setting>) -> (result: Option<EqualizerPresets>)
    ensures
        match *setting {
            Some(Setting::PresetEqualizerProfileSelect { select, value }) => result matches Some(
                presets,
            ) && spec_strings(presets.options@) == spec_strings(select.options@) && spec_strings(
                presets.labels@,
            ) == spec_strings(select.localized_options@) && spec_opt_string(presets.value)
                == spec_opt_string(value),
            _ => result is None,
        },
{
    match setting {
        Some(Setting::PresetEqualizerProfileSelect { select, value }) => {
            let options = clone_strings(&select.options);
            let labels = clone_strings(&select.localized_options);
            let value = match value {
                Some(v) => Some(v.clone()),
                None => None,
            };
            Some(EqualizerPresets { options, labels, value })
        },
        _ => None,
    }
}

/// The tray's view of a device, built from its settings.
pub fn tray_device(
    battery_left: Option<String>,
    battery_right: Option<String>,
    ambient_sound_mode: &Option<Setting>,
    preset_equalizer_profile: &Option<Setting>,
) -> (result: TrayDevice)
    ensures
        spec_opt_string(result.battery_left) == spec_opt_string(battery_left),
        spec_opt_string(result.battery_right) == spec_opt_string(battery_right),
        spec_opt_string(result.ambient_sound_mode) == spec_tray_ambient_sound_mode(
            *ambient_sound_mode,
        ),
        match *preset_equalizer_profile {
            Some(Setting::PresetEqualizerProfileSelect { select, value }) => result.equalizer_presets
                matches Some(presets) && spec_strings(presets.options@) == spec_strings(
                select.options@,
            ) && spec_strings(presets.labels@) == spec_strings(select.localized_options@)
                && spec_opt_string(presets.value) == spec_opt_string(value),
            _ => result.equalizer_presets is None,
        },
{
    TrayDevice {
        battery_left,
        battery_right,
        ambient_sound_mode: tray_ambient_sound_mode(ambient_sound_mode),
        equalizer_presets: tray_equalizer_presets(preset_equalizer_profile),
    }
}

} // verus!
