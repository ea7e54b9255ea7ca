//! The tray of the COSMIC desktop app: a battery line, the ambient sound mode group,
//! "Open Settings" and "Quit".
use vstd::prelude::*;

use crate::backend::{information_value, spec_information_value};
use crate::settings::Setting;
use crate::text::{prefixed, spec_opt_string};
use crate::tray::{
    spec_tray_ambient_sound_mode, tray_ambient_sound_mode, anc_mode_index, anc_modes, spec_anc_mode_index, spec_anc_modes, spec_entries, MenuEntry,
    MenuEntryView,
};

verus! {

/// Commands sent from the tray's D-Bus thread to the GUI's event loop.
#[derive(Debug, Clone)]
pub enum TrayCommand {
    SetAmbientSoundMode(String),
    OpenSettings,
    Quit,
}

/// What the tray reads from the connected device: the battery level text of each
/// earbud and the ambient sound mode.
#[derive(Debug, Clone)]
pub struct TrayDevice {
    pub battery_left: Option<String>,
    pub battery_right: Option<String>,
    pub ambient_sound_mode: Option<String>,
}

/// The battery text: `left / right` when both are known, the known one otherwise.
pub open spec fn spec_battery(device: Option<TrayDevice>) -> Option<Seq<char>> {
    match device {
        None => None,
        Some(device) => match (device.battery_left, device.battery_right) {
            (Some(left), Some(right)) => Some(left@ + " / "@ + right@),
            (Some(value), None) => Some(value@),
            (None, Some(value)) => Some(value@),
            (None, None) => None,
        },
    }
}

/// The battery text of the connected device, if any level is known.
pub fn battery(device: &Option<TrayDevice>) -> (result: Option<String>)
    ensures
        spec_opt_string(result) == spec_battery(*device),
{
    match device {
        None => None,
        Some(device) => match (&device.battery_left, &device.battery_right) {
            (Some(left), Some(right)) => Some(left.clone().concat(" / ").concat(right.as_str())),
            (Some(value), None) => Some(value.clone()),
            (None, Some(value)) => Some(value.clone()),
            (None, None) => None,
        },
    }
}

/// The tool tip text: the battery, or "Not connected".
pub open spec fn spec_tool_tip_description(device: Option<TrayDevice>) -> Seq<char> {
    match spec_battery(device) {
        Some(battery) => "Battery: "@ + battery,
        None => "Not connected"@,
    }
}

/// The tool tip text for the tray icon.
pub fn tool_tip_description(device: &Option<TrayDevice>) -> (result: String)
    ensures
        result@ == spec_tool_tip_description(*device),
{
    match battery(device) {
        Some(battery) => prefixed("Battery: ", &battery),
        None => String::from_str("Not connected"),
    }
}

/// The ambient sound mode of the device, if there is a device.
pub open spec fn spec_ambient_sound_mode(device: Option<TrayDevice>) -> Option<Seq<char>> {
    match device {
        Some(device) => spec_opt_string(device.ambient_sound_mode),
        None => None,
    }
}

/// The tray menu: the battery line and a separator when the battery is known, the
/// ambient sound mode group, a separator, "Open Settings" and "Quit".
pub open spec fn spec_menu(device: Option<TrayDevice>) -> Seq<MenuEntryView> {
    let battery = match spec_battery(device) {
        Some(battery) => seq![
            MenuEntryView::Informative("Battery: "@ + battery),
            MenuEntryView::Separator,
        ],
        None => Seq::empty(),
    };
    battery + seq![
        MenuEntryView::AmbientSoundModes {
            selected: spec_anc_mode_index(spec_ambient_sound_mode(device)),
        },
        MenuEntryView::Separator,
        MenuEntryView::OpenSettings,
        MenuEntryView::Quit,
    ]
}

/// Builds the tray menu.
pub fn menu(device: &Option<TrayDevice>) -> (result: Vec<MenuEntry>)
    ensures
        spec_entries(result@) == spec_menu(*device),
{
    let mut items: Vec<MenuEntry> = Vec::new();
    if let Some(battery) = battery(device) {
        items.push(MenuEntry::Informative(prefixed("Battery: ", &battery)));
        items.push(MenuEntry::Separator);
    }
    let selected: usize = match device {
        Some(device) => anc_mode_index(&device.ambient_sound_mode),
        None => anc_mode_index(&None),
    };
    items.push(MenuEntry::AmbientSoundModes { selected });
    items.push(MenuEntry::Separator);
    items.push(MenuEntry::OpenSettings);
    items.push(MenuEntry::Quit);
    assert(spec_entries(items@) =~= spec_menu(*device));
    items
}

/// The command sent when the radio item at `index` is picked: the mode at that
/// position, or nothing for a position past the end.
pub fn anc_command(index: usize) -> (result: Option<TrayCommand>)
    ensures
        match result {
            Some(TrayCommand::SetAmbientSoundMode(mode)) => index < 3 && mode@
                == spec_anc_modes()[index as int],
            Some(_) => false,
            None => index >= 3,
        },
{
    let modes = anc_modes();
    if index < modes.len() {
        Some(TrayCommand::SetAmbientSoundMode(modes[index].clone()))
    } else {
        None
    }
}

/// What the COSMIC app does for a tray command.
#[derive(Debug, Clone)]
pub enum TrayAction {
    /// Set the ambient sound mode of the connected device to this mode.
    SetAmbientSoundMode(String),
    /// Give the main window focus.
    FocusWindow,
    /// Exit the app.
    Exit,
    /// Nothing to do.
    Ignore,
}

/// The action for a tray command: a mode change needs a connected device.
pub fn tray_command_action(command: TrayCommand, has_device: bool) -> (action: TrayAction)
    ensures
        match command {
            TrayCommand::SetAmbientSoundMode(mode) => if has_device {
                match action {
                    TrayAction::SetAmbientSoundMode(sent) => sent@ == mode@,
                    _ => false,
                }
            } else {
                action is Ignore
            },
            TrayCommand::OpenSettings => action is FocusWindow,
            TrayCommand::Quit => action is Exit,
        },
{
    match command {
        TrayCommand::SetAmbientSoundMode(mode) => if has_device {
            TrayAction::SetAmbientSoundMode(mode)
        } else {
            TrayAction::Ignore
        },
        TrayCommand::OpenSettings => TrayAction::FocusWindow,
        TrayCommand::Quit => TrayAction::Exit,
    }
}

/// The tray's view of a device, built from its battery level settings (information
/// settings) and its `AmbientSoundMode` setting (a plain select).
pub fn tray_device(
    battery_level_left: &Option<Setting>,
    battery_level_right: &Option<Setting>,
    ambient_sound_mode: &Option<Setting>,
) -> (result: TrayDevice)
    ensures
        spec_opt_string(result.battery_left) == spec_information_value(*battery_level_left),
        spec_opt_string(result.battery_right) == spec_information_value(*battery_level_right),
        spec_opt_string(result.ambient_sound_mode) == spec_tray_ambient_sound_mode(
            *ambient_sound_mode,
        ),
{
    TrayDevice {
        battery_left: information_value(battery_level_left),
        battery_right: information_value(battery_level_right),
        ambient_sound_mode: tray_ambient_sound_mode(ambient_sound_mode),
    }
}

} // verus!
