//! Decisions of the COSMIC desktop app window that do not depend on the toolkit.
use std::collections::VecDeque;

use vstd::prelude::*;

use crate::connection::{paired_device_to_connect, spec_is_device_to_connect, PairedDevice};
use crate::structures::MacAddress;
use crate::text::spec_opt_string;

verus! {

/// Which side drawer the window shows.
#[derive(Debug, Clone, Copy, PartialEq, Eq, Hash)]
pub enum ContextDrawerScreen {
    About,
    Settings,
}

/// Pressing the button of drawer `screen`: it closes when it is the open drawer,
/// otherwise it opens (replacing any other drawer).
pub open spec fn spec_toggle_drawer(
    current: Option<ContextDrawerScreen>,
    screen: ContextDrawerScreen,
) -> Option<ContextDrawerScreen> {
    if current == Some(screen) {
        None
    } else {
        Some(screen)
    }
}

/// The "About" button.
pub fn toggle_about(current: Option<ContextDrawerScreen>) -> (result: Option<ContextDrawerScreen>)
    ensures
        result == spec_toggle_drawer(current, ContextDrawerScreen::About),
{
    match current {
        Some(ContextDrawerScreen::About) => None,
        _ => Some(ContextDrawerScreen::About),
    }
}

/// The "Settings" button and its key binding.
pub fn toggle_settings(current: Option<ContextDrawerScreen>) -> (result: Option<
    ContextDrawerScreen,
>)
    ensures
        result == spec_toggle_drawer(current, ContextDrawerScreen::Settings),
{
    match current {
        Some(ContextDrawerScreen::Settings) => None,
        _ => Some(ContextDrawerScreen::Settings),
    }
}

/// Pressing a drawer button twice returns to the state before the first press, unless
/// the first press replaced another drawer.
pub proof fn lemma_toggle_twice(current: Option<ContextDrawerScreen>, screen: ContextDrawerScreen)
    requires
        current is None || current == Some(screen),
    ensures
        spec_toggle_drawer(spec_toggle_drawer(current, screen), screen) == current,
{
}

/// The warnings the window holds after `message` arrives, given the room that the
/// queue reports (`capacity`): when it is full, the oldest warning leaves first.
pub open spec fn spec_push_warning(warnings: Seq<String>, capacity: nat, message: String) -> Seq<
    String,
> {
    if warnings.len() == capacity && capacity > 0 {
        warnings.drop_first().push(message)
    } else {
        warnings.push(message)
    }
}

/// Reads how many warnings the queue can hold without growing
/// (`std::collections::VecDeque::capacity`). Its documentation says that this is the
/// number of elements the deque can hold without reallocating, so it is at least the
/// number it holds; the exact room depends on the allocator and is not stated.
#[verifier::external_body]
fn queue_capacity(warnings: &VecDeque<String>) -> (capacity: usize)
    ensures
        capacity >= warnings@.len(),
{
    warnings.capacity()
}

/// A new warning joins the back of a queue with room for `capacity` warnings; when the
/// queue already holds that many, the oldest (front) one is dropped first.
pub fn push_warning_within(warnings: &mut VecDeque<String>, capacity: usize, message: String)
    ensures
        final(warnings)@ == spec_push_warning(old(warnings)@, capacity as nat, message),
{
    broadcast use vstd::std_specs::vecdeque::axiom_spec_len;

    if warnings.len() == capacity && capacity > 0 {
        warnings.pop_front();
        assert(warnings@ =~= old(warnings)@.drop_first());
    }
    warnings.push_back(message);
}

/// A new warning joins the back of the window's queue, which keeps the room it reports:
/// when the queue is full, the oldest warning is dropped first. Whatever room it
/// reports, the new warning ends up last and at most the oldest one leaves.
pub fn push_warning(warnings: &mut VecDeque<String>, message: String)
    ensures
        exists|capacity: nat|
            capacity >= old(warnings)@.len() && final(warnings)@ == #[trigger] spec_push_warning(
                old(warnings)@,
                capacity,
                message,
            ),
{
    let capacity = queue_capacity(warnings);
    let ghost before = warnings@;
    push_warning_within(warnings, capacity, message);
    assert(spec_push_warning(before, capacity as nat, message) == warnings@);
}

/// Closing the shown warning removes the front of the queue; with no warning shown,
/// nothing changes.
pub fn close_warning(warnings: &mut VecDeque<String>)
    ensures
        final(warnings)@ == (if old(warnings)@.len() == 0 {
            old(warnings)@
        } else {
            old(warnings)@.drop_first()
        }),
{
    warnings.pop_front();
    assert(old(warnings)@.len() > 0 ==> warnings@ =~= old(warnings)@.drop_first());
}

/// The queue never holds more warnings than it has room for: a queue within its
/// room stays within it after a warning arrives, and the new warning is last.
pub proof fn lemma_warnings_stay_within_capacity(
    warnings: Seq<String>,
    capacity: nat,
    message: String,
)
    requires
        0 < capacity,
        warnings.len() <= capacity,
    ensures
        spec_push_warning(warnings, capacity, message).len() <= capacity,
        spec_push_warning(warnings, capacity, message).last() == message,
{
}

/// The screen the window shows.
#[derive(Debug, Clone, Copy, PartialEq, Eq, Structural, Hash)]
pub enum ScreenKind {
    /// Pick a device to pair.
    AddDevice,
    /// Connecting to a device; the user may cancel.
    Connecting,
    /// The settings of the connected device.
    DeviceSettings,
}

/// The first screen, given which paired devices are an R50i NC: connecting to the
/// device chosen by [`paired_device_to_connect`], or the pairing screen when nothing is
/// paired.
pub fn initial_screen(is_r50i: &Vec<bool>) -> (result: (ScreenKind, Option<usize>))
    ensures
        match result.1 {
            Some(i) => result.0 == ScreenKind::Connecting && spec_is_device_to_connect(
                is_r50i@,
                i as int,
            ),
            None => result.0 == ScreenKind::AddDevice && is_r50i@.len() == 0,
        },
{
    match paired_device_to_connect(is_r50i) {
        Some(i) => (ScreenKind::Connecting, Some(i)),
        None => (ScreenKind::AddDevice, None),
    }
}

/// A message that moves the window between screens.
#[derive(Debug, Clone)]
pub enum ScreenEvent {
    /// The user picked a paired device: connect to it.
    ConnectToDevice,
    /// The user cancels the connection attempt.
    CancelConnectToDevice,
    /// The connection attempt failed with this message.
    ConnectToDeviceFailed(String),
    /// Show the pairing screen.
    ShowAddDevice,
    /// The connection succeeded: show the device's settings.
    ActivateConnectToDeviceScreen,
}

/// Where a screen event leads: the next screen, whether the running connection attempt
/// is cancelled, and the warning to show, if any.
pub struct ScreenStep {
    pub screen: ScreenKind,
    pub cancel_connect: bool,
    pub warning: Option<String>,
}

/// The screen transition of `event` from `screen`, as plain values.
pub open spec fn spec_screen_step(screen: ScreenKind, event: ScreenEvent) -> (
    ScreenKind,
    bool,
    Option<Seq<char>>,
) {
    match event {
        ScreenEvent::ConnectToDevice => (ScreenKind::Connecting, false, None),
        ScreenEvent::CancelConnectToDevice => if screen == ScreenKind::Connecting {
            (ScreenKind::AddDevice, true, None)
        } else {
            (screen, false, None)
        },
        ScreenEvent::ConnectToDeviceFailed(message) => (ScreenKind::AddDevice, false, Some(message@)),
        ScreenEvent::ShowAddDevice => (ScreenKind::AddDevice, false, None),
        ScreenEvent::ActivateConnectToDeviceScreen => (ScreenKind::DeviceSettings, false, None),
    }
}

/// Moves the window between screens: cancelling only acts while connecting, and a
/// failed attempt returns to the pairing screen with its message as a warning.
pub fn screen_step(screen: ScreenKind, event: ScreenEvent) -> (result: ScreenStep)
    ensures
        (result.screen, result.cancel_connect, spec_opt_string(result.warning))
            == spec_screen_step(screen, event),
{
    match event {
        ScreenEvent::ConnectToDevice => ScreenStep {
            screen: ScreenKind::Connecting,
            cancel_connect: false,
            warning: None,
        },
        ScreenEvent::CancelConnectToDevice => {
            if screen == ScreenKind::Connecting {
                ScreenStep { screen: ScreenKind::AddDevice, cancel_connect: true, warning: None }
            } else {
                ScreenStep { screen, cancel_connect: false, warning: None }
            }
        },
        ScreenEvent::ConnectToDeviceFailed(message) => ScreenStep {
            screen: ScreenKind::AddDevice,
            cancel_connect: false,
            warning: Some(message),
        },
        ScreenEvent::ShowAddDevice => ScreenStep {
            screen: ScreenKind::AddDevice,
            cancel_connect: false,
            warning: None,
        },
        ScreenEvent::ActivateConnectToDeviceScreen => ScreenStep {
            screen: ScreenKind::DeviceSettings,
            cancel_connect: false,
            warning: None,
        },
    }
}

/// The position the language dropdown shows: the first entry after the leading
/// "default" entry that holds the preferred language, or the "default" entry (0) when
/// no language is preferred, it cannot be read, or it is not offered.
pub open spec fn spec_is_language_position(
    available: Seq<Option<String>>,
    preferred: Option<String>,
    position: int,
) -> bool {
    match preferred {
        None => position == 0,
        Some(p) => {
            ||| (1 <= position < available.len() && spec_opt_string(available[position]) == Some(
                p@,
            ) && forall|j: int|
                1 <= j < position ==> spec_opt_string(#[trigger] available[j]) != Some(p@))
            ||| (position == 0 && forall|j: int|
                1 <= j < available.len() ==> spec_opt_string(#[trigger] available[j]) != Some(
                    p@,
                ))
        },
    }
}

/// The language dropdown's position. `available` lists the offered languages by their
/// identifier text, with `None` for the leading "default" entry; `preferred` is the
/// configured language's identifier text, or `None` when none is set or it cannot be
/// read as a language identifier.
pub fn language_position(available: &Vec<Option<String>>, preferred: &Option<String>) -> (result:
    usize)
    ensures
        spec_is_language_position(available@, *preferred, result as int),
{
    match preferred {
        None => 0,
        Some(p) => {
            let mut i: usize = 1;
            while i < available.len()
                invariant
                    1 <= i,
                    *preferred == Some(*p),
                    forall|j: int|
                        1 <= j < i && j < available@.len() ==> spec_opt_string(
                            #[trigger] available@[j],
                        ) != Some(p@),
                decreases available@.len() - i,
            {
                match &available[i] {
                    Some(language) => {
                        if *language == *p {
                            return i;
                        }
                    },
                    None => {},
                }
                i = i + 1;
            }
            0
        },
    }
}

/// A paired device as the window knows it: its pairing record and the display name of
/// its model.
#[derive(Debug, Clone)]
pub struct ListedDevice {
    pub device: PairedDevice,
    pub model_name: String,
}

/// Which of the listed devices are an R50i NC.
pub open spec fn spec_listed_r50i_flags(devices: Seq<ListedDevice>) -> Seq<bool> {
    devices.map_values(|d: ListedDevice| d.device.is_r50i)
}

/// The window state that does not depend on the toolkit.
pub struct WindowState {
    /// The screen shown.
    pub screen: ScreenKind,
    /// The model name the Connecting screen shows, while it is shown.
    pub connecting_name: Option<String>,
    /// The side drawer the user opened, if any.
    pub context_drawer: Option<ContextDrawerScreen>,
    /// The warnings waiting to be shown, oldest first.
    pub warnings: VecDeque<String>,
    /// The address of the device whose settings are shown, if any.
    pub current_device: Option<MacAddress>,
}

/// The window as it opens, given the paired devices (none when they could not be
/// loaded): no drawer, no warning and no current device. With a paired device it
/// connects to the one [`paired_device_to_connect`] picks and shows the Connecting
/// screen with that device's model name; with none it shows the pairing screen and
/// connects to nothing. The second result is the address to connect to.
pub fn initial_window(paired: &Vec<ListedDevice>) -> (result: (WindowState, Option<MacAddress>))
    ensures
        result.0.context_drawer is None,
        result.0.warnings@.len() == 0,
        result.0.current_device is None,
        paired@.len() == 0 ==> result.0.screen == ScreenKind::AddDevice
            && result.0.connecting_name is None && result.1 is None,
        paired@.len() > 0 ==> exists|i: int|
            spec_is_device_to_connect(spec_listed_r50i_flags(paired@), i)
                && result.0.screen == ScreenKind::Connecting && spec_opt_string(
                result.0.connecting_name,
            ) == Some((#[trigger] paired@[i]).model_name@) && result.1 == Some(
                paired@[i].device.mac_address,
            ),
{
    let mut is_r50i: Vec<bool> = Vec::new();
    let mut k: usize = 0;
    while k < paired.len()
        invariant
            k <= paired@.len(),
            is_r50i@ == spec_listed_r50i_flags(paired@).take(k as int),
        decreases paired@.len() - k,
    {
        is_r50i.push(paired[k].device.is_r50i);
        k = k + 1;
        assert(is_r50i@ =~= spec_listed_r50i_flags(paired@).take(k as int));
    }
    assert(is_r50i@ =~= spec_listed_r50i_flags(paired@));
    let (screen, chosen) = initial_screen(&is_r50i);
    let warnings: VecDeque<String> = VecDeque::with_capacity(5);
    match chosen {
        Some(i) => {
            let state = WindowState {
                screen,
                connecting_name: Some(paired[i].model_name.clone()),
                context_drawer: None,
                warnings,
                current_device: None,
            };
            assert(spec_is_device_to_connect(spec_listed_r50i_flags(paired@), i as int));
            (state, Some(paired[i].device.mac_address))
        },
        None => (
            WindowState {
                screen,
                connecting_name: None,
                context_drawer: None,
                warnings,
                current_device: None,
            },
            None,
        ),
    }
}

/// The side drawer the window shows.
#[derive(Debug, Clone, Copy, PartialEq, Eq, Hash)]
pub enum DrawerKind {
    /// The "About" page.
    About,
    /// The app settings, with the language dropdown.
    Settings,
    /// Whatever drawer the device settings screen offers.
    DeviceSettings,
}

/// The drawer shown: the one the user opened, if any; otherwise none on the pairing
/// and Connecting screens, and the device settings screen's own drawer there.
pub open spec fn spec_shown_drawer(
    drawer: Option<ContextDrawerScreen>,
    screen: ScreenKind,
) -> Option<DrawerKind> {
    match drawer {
        Some(ContextDrawerScreen::About) => Some(DrawerKind::About),
        Some(ContextDrawerScreen::Settings) => Some(DrawerKind::Settings),
        None => match screen {
            ScreenKind::AddDevice => None,
            ScreenKind::Connecting => None,
            ScreenKind::DeviceSettings => Some(DrawerKind::DeviceSettings),
        },
    }
}

/// Picks the side drawer to show for the opened drawer and the screen.
pub fn shown_drawer(drawer: Option<ContextDrawerScreen>, screen: ScreenKind) -> (result: Option<
    DrawerKind,
>)
    ensures
        result == spec_shown_drawer(drawer, screen),
{
    match drawer {
        Some(ContextDrawerScreen::About) => Some(DrawerKind::About),
        Some(ContextDrawerScreen::Settings) => Some(DrawerKind::Settings),
        None => match screen {
            ScreenKind::AddDevice => None,
            ScreenKind::Connecting => None,
            ScreenKind::DeviceSettings => Some(DrawerKind::DeviceSettings),
        },
    }
}

} // verus!
