//! The connection screen of the Qt app as a state machine: what each user action and
//! each answer from the device session does to the shown state, and which work the
//! app must start next.
use vstd::prelude::*;

use crate::structures::{spec_mac_text, MacAddress};
use crate::text::prefixed;

verus! {

/// Which screen the connection state puts the app on.
#[derive(Debug, Clone, Copy, PartialEq, Eq, Hash)]
pub enum ConnectionPhase {
    Disconnected,
    Connecting,
    Connected,
}

/// The name shown for the one supported device.
pub open spec fn spec_device_name() -> Seq<char> {
    "Soundcore R50i NC"@
}

/// A device found by a scan: its name and address.
#[derive(Debug, Clone)]
pub struct ConnectionDescriptor {
    pub name: String,
    pub mac_address: MacAddress,
}

/// The answer to a connect or pair attempt.
#[derive(Debug, Clone)]
pub enum ConnectEvent {
    Connected,
    Failed(String),
    NoDevices,
}

/// Work the app must start after a transition.
#[derive(Debug, Clone)]
pub enum ConnectionAction {
    /// Nothing to do.
    Idle,
    /// Look up the paired devices and hand them to
    /// [`ConnectionState::handle_paired_devices`].
    Connect,
    /// Connect to the paired device with this address.
    ConnectTo(MacAddress),
    /// Scan for devices to pair.
    ListDevices,
    /// Pair this device, then connect to it.
    PairAndConnect(PairedDevice),
    /// Show the connected device: refresh every property, hand it to the tray, and watch it.
    ShowDevice,
    /// Forget the device: clear every property and the tray.
    ClearDevice,
}

/// What the connection screen shows.
#[derive(Debug, Clone)]
pub struct ConnectionState {
    pub phase: ConnectionPhase,
    pub device_name: String,
    pub status_message: String,
    pub busy: bool,
    pub has_device: bool,
    pub available_devices: Vec<ConnectionDescriptor>,
}

/// The part of a state that a transition sets, as plain values.
pub open spec fn spec_shown(
    state: ConnectionState,
) -> (ConnectionPhase, Seq<char>, Seq<char>, bool, bool) {
    (state.phase, state.device_name@, state.status_message@, state.busy, state.has_device)
}

/// A paired device: its address, whether it is a Soundcore R50i NC (model
/// `SoundcoreA3959`), and whether it is a demo device.
#[derive(Debug, Clone, Copy)]
pub struct PairedDevice {
    pub mac_address: MacAddress,
    pub is_r50i: bool,
    pub is_demo: bool,
}

/// Position `i` holds the paired device to connect to: the first R50i NC, or the first
/// paired device when none is an R50i NC.
pub open spec fn spec_is_device_to_connect(is_r50i: Seq<bool>, i: int) -> bool {
    &&& 0 <= i < is_r50i.len()
    &&& ((is_r50i[i] && forall|j: int| 0 <= j < i ==> !is_r50i[j]) || (i == 0 && forall|j: int|
        0 <= j < is_r50i.len() ==> !is_r50i[j]))
}

/// Which paired device to connect to at startup, given which of them are an R50i NC:
/// the first R50i NC, else the first device; none when nothing is paired.
pub fn paired_device_to_connect(is_r50i: &Vec<bool>) -> (r: Option<usize>)
    ensures
        match r {
            Some(i) => i < is_r50i@.len() && ((is_r50i@[i as int] && forall|j: int|
                0 <= j < i ==> !is_r50i@[j]) || (i == 0 && forall|j: int|
                0 <= j < is_r50i@.len() ==> !is_r50i@[j])),
            None => is_r50i@.len() == 0,
        },
{
    let mut i: usize = 0;
    while i < is_r50i.len()
        invariant
            i <= is_r50i@.len(),
            forall|j: int| 0 <= j < i ==> !is_r50i@[j],
        decreases is_r50i@.len() - i,
    {
        if is_r50i[i] {
            return Some(i);
        }
        i = i + 1;
    }
    if is_r50i.len() == 0 {
        None
    } else {
        Some(0)
    }
}

/// At most one paired device is the one to connect to.
pub proof fn lemma_device_to_connect_is_unique(is_r50i: Seq<bool>, i: int, k: int)
    requires
        spec_is_device_to_connect(is_r50i, i),
        spec_is_device_to_connect(is_r50i, k),
    ensures
        i == k,
{
    if i < k {
        assert(!is_r50i[i]);
    } else if k < i {
        assert(!is_r50i[k]);
    }
}

/// Which of the paired devices are an R50i NC.
pub open spec fn spec_r50i_flags(devices: Seq<PairedDevice>) -> Seq<bool> {
    devices.map_values(|d: PairedDevice| d.is_r50i)
}

impl ConnectionState {
    /// The state before anything happened: disconnected, "Not connected".
    pub fn new() -> (result: Self)
        ensures
            spec_shown(result) == (
                ConnectionPhase::Disconnected,
                Seq::<char>::empty(),
                "Not connected"@,
                false,
                false,
            ),
            result.available_devices@.len() == 0,
    {
        ConnectionState {
            phase: ConnectionPhase::Disconnected,
            device_name: String::new(),
            status_message: String::from_str("Not connected"),
            busy: false,
            has_device: false,
            available_devices: Vec::new(),
        }
    }

    /// The app starts: unless a device is already shown, look for the paired device. The
    /// app then looks up the paired devices and hands them to
    /// [`ConnectionState::handle_paired_devices`], which picks the one to connect to.
    pub fn startup(&mut self) -> (action: ConnectionAction)
        ensures
            old(self).has_device ==> spec_shown(*final(self)) == spec_shown(*old(self))
                && action is Idle,
            !old(self).has_device ==> spec_shown(*final(self)) == (
                ConnectionPhase::Connecting,
                old(self).device_name@,
                "Looking for your device\u{2026}"@,
                true,
                false,
            ) && action is Connect,
            final(self).available_devices@ == old(self).available_devices@,
    {
        if self.has_device {
            return ConnectionAction::Idle;
        }
        self.busy = true;
        self.phase = ConnectionPhase::Connecting;
        self.status_message = String::from_str("Looking for your device\u{2026}");
        ConnectionAction::Connect
    }

    /// The paired devices were looked up after [`ConnectionState::startup`]: connect to
    /// the R50i NC (or the first device); with none paired, go on as for
    /// [`ConnectEvent::NoDevices`] and scan for devices to pair.
    pub fn handle_paired_devices(&mut self, devices: &Vec<PairedDevice>) -> (action:
        ConnectionAction)
        ensures
            final(self).available_devices@ == old(self).available_devices@,
            devices@.len() == 0 ==> spec_shown(*final(self)) == (
                ConnectionPhase::Disconnected,
                old(self).device_name@,
                "Scanning for devices\u{2026}"@,
                true,
                old(self).has_device,
            ) && action is ListDevices,
            devices@.len() > 0 ==> spec_shown(*final(self)) == spec_shown(*old(self)) && (
            action matches ConnectionAction::ConnectTo(mac) && exists|i: int|
                spec_is_device_to_connect(spec_r50i_flags(devices@), i) && mac
                    == #[trigger] devices@[i].mac_address),
    {
        let mut is_r50i: Vec<bool> = Vec::new();
        let mut k: usize = 0;
        while k < devices.len()
            invariant
                k <= devices@.len(),
                is_r50i@ == spec_r50i_flags(devices@).take(k as int),
            decreases devices@.len() - k,
        {
            is_r50i.push(devices[k].is_r50i);
            k = k + 1;
            assert(is_r50i@ =~= spec_r50i_flags(devices@).take(k as int));
        }
        assert(is_r50i@ =~= spec_r50i_flags(devices@));
        match paired_device_to_connect(&is_r50i) {
            Some(i) => {
                assert(spec_is_device_to_connect(spec_r50i_flags(devices@), i as int));
                ConnectionAction::ConnectTo(devices[i].mac_address)
            },
            None => self.handle_connect_event(ConnectEvent::NoDevices),
        }
    }

    /// A connect or pair attempt ended.
    pub fn handle_connect_event(&mut self, event: ConnectEvent) -> (action: ConnectionAction)
        ensures
            final(self).available_devices@ == old(self).available_devices@,
            match event {
                ConnectEvent::Connected => spec_shown(*final(self)) == (
                    ConnectionPhase::Connected,
                    spec_device_name(),
                    "Connected"@,
                    false,
                    true,
                ) && action is ShowDevice,
                ConnectEvent::Failed(message) => spec_shown(*final(self)) == (
                    ConnectionPhase::Disconnected,
                    old(self).device_name@,
                    message@,
                    false,
                    old(self).has_device,
                ) && action is Idle,
                ConnectEvent::NoDevices => spec_shown(*final(self)) == (
                    ConnectionPhase::Disconnected,
                    old(self).device_name@,
                    "Scanning for devices\u{2026}"@,
                    true,
                    old(self).has_device,
                ) && action is ListDevices,
            },
    {
        match event {
            ConnectEvent::Connected => {
                self.has_device = true;
                self.device_name = String::from_str("Soundcore R50i NC");
                self.phase = ConnectionPhase::Connected;
                self.status_message = String::from_str("Connected");
                self.busy = false;
                ConnectionAction::ShowDevice
            },
            ConnectEvent::Failed(message) => {
                self.busy = false;
                self.phase = ConnectionPhase::Disconnected;
                self.status_message = message;
                ConnectionAction::Idle
            },
            ConnectEvent::NoDevices => {
                self.busy = false;
                self.phase = ConnectionPhase::Disconnected;
                self.status_message = String::from_str("No paired device yet");
                self.list_devices()
            },
        }
    }

    /// The connection to the shown device was lost.
    pub fn handle_disconnect(&mut self) -> (action: ConnectionAction)
        ensures
            final(self).available_devices@ == old(self).available_devices@,
            old(self).has_device ==> spec_shown(*final(self)) == (
                ConnectionPhase::Disconnected,
                Seq::<char>::empty(),
                "Device disconnected"@,
                old(self).busy,
                false,
            ) && action is ClearDevice,
            !old(self).has_device ==> spec_shown(*final(self)) == spec_shown(*old(self))
                && action is Idle,
    {
        if !self.has_device {
            return ConnectionAction::Idle;
        }
        self.has_device = false;
        self.device_name = String::new();
        self.phase = ConnectionPhase::Disconnected;
        self.status_message = String::from_str("Device disconnected");
        ConnectionAction::ClearDevice
    }

    /// The user disconnects.
    pub fn disconnect(&mut self) -> (action: ConnectionAction)
        ensures
            final(self).available_devices@ == old(self).available_devices@,
            spec_shown(*final(self)) == (
                ConnectionPhase::Disconnected,
                Seq::<char>::empty(),
                "Disconnected"@,
                old(self).busy,
                false,
            ),
            action is ClearDevice,
    {
        self.has_device = false;
        self.device_name = String::new();
        self.phase = ConnectionPhase::Disconnected;
        self.status_message = String::from_str("Disconnected");
        ConnectionAction::ClearDevice
    }

    /// The user asks for a scan.
    pub fn list_devices(&mut self) -> (action: ConnectionAction)
        ensures
            final(self).available_devices@ == old(self).available_devices@,
            spec_shown(*final(self)) == (
                old(self).phase,
                old(self).device_name@,
                "Scanning for devices\u{2026}"@,
                true,
                old(self).has_device,
            ),
            action is ListDevices,
    {
        self.busy = true;
        self.status_message = String::from_str("Scanning for devices\u{2026}");
        ConnectionAction::ListDevices
    }

    /// A scan ended: with the devices found, or with an error message.
    pub fn handle_list_devices_result(&mut self, result: Result<Vec<ConnectionDescriptor>, String>)
        ensures
            match result {
                Ok(devices) => spec_shown(*final(self)) == (
                    old(self).phase,
                    old(self).device_name@,
                    "Select a device to pair"@,
                    false,
                    old(self).has_device,
                ) && final(self).available_devices@ == devices@,
                Err(message) => spec_shown(*final(self)) == (
                    old(self).phase,
                    old(self).device_name@,
                    message@,
                    false,
                    old(self).has_device,
                ) && final(self).available_devices@.len() == 0,
            },
    {
        self.busy = false;
        match result {
            Ok(devices) => {
                self.available_devices = devices;
                self.status_message = String::from_str("Select a device to pair");
            },
            Err(message) => {
                self.available_devices = Vec::new();
                self.status_message = message;
            },
        }
    }

    /// A setting change was sent to the device: the app is busy until it is answered.
    pub fn begin_setting_change(&mut self)
        ensures
            final(self).available_devices@ == old(self).available_devices@,
            spec_shown(*final(self)) == (
                old(self).phase,
                old(self).device_name@,
                old(self).status_message@,
                true,
                old(self).has_device,
            ),
    {
        self.busy = true;
    }

    /// The device answered a setting change: no longer busy, the error message shown
    /// when it failed, and every property refreshed.
    pub fn finish_setting_change(&mut self, result: Result<(), String>) -> (action: ConnectionAction)
        ensures
            final(self).available_devices@ == old(self).available_devices@,
            spec_shown(*final(self)) == (
                old(self).phase,
                old(self).device_name@,
                match result {
                    Ok(()) => old(self).status_message@,
                    Err(message) => message@,
                },
                false,
                old(self).has_device,
            ),
            action is ShowDevice,
    {
        self.busy = false;
        if let Err(message) = result {
            self.status_message = message;
        }
        ConnectionAction::ShowDevice
    }

    /// The user picks the scanned device with address text `mac` to pair with, as a
    /// demo device when `demo` is set. The pairing is for an R50i NC at the address of
    /// the first scanned device with that address text. When no scanned device has it,
    /// only the status message changes.
    pub fn pair_and_connect(&mut self, mac: &String, demo: bool) -> (action: ConnectionAction)
        ensures
            final(self).available_devices@ == old(self).available_devices@,
            match action {
                ConnectionAction::PairAndConnect(device) => exists|index: usize|
                    {
                        &&& spec_is_first_descriptor(old(self).available_devices@, mac@, Some(index))
                        &&& device.mac_address == old(self).available_devices@[index as int].mac_address
                    } && device.is_r50i && device.is_demo == demo && spec_shown(*final(self)) == (
                    ConnectionPhase::Connecting,
                    old(self).device_name@,
                    "Pairing\u{2026}"@,
                    true,
                    old(self).has_device,
                ),
                ConnectionAction::Idle => spec_is_first_descriptor(
                    old(self).available_devices@,
                    mac@,
                    None,
                ) && spec_shown(*final(self)) == (
                    old(self).phase,
                    old(self).device_name@,
                    "Device "@ + mac@ + " is no longer visible; scan again"@,
                    old(self).busy,
                    old(self).has_device,
                ),
                _ => false,
            },
    {
        match find_descriptor(&self.available_devices, mac) {
            Some(index) => {
                let device = PairedDevice {
                    mac_address: self.available_devices[index].mac_address,
                    is_r50i: true,
                    is_demo: demo,
                };
                self.busy = true;
                self.phase = ConnectionPhase::Connecting;
                self.status_message = String::from_str("Pairing\u{2026}");
                ConnectionAction::PairAndConnect(device)
            },
            None => {
                self.status_message = prefixed("Device ", mac).concat(
                    " is no longer visible; scan again",
                );
                ConnectionAction::Idle
            },
        }
    }
}

/// `index` is the position of the first scanned device whose address text is `mac`,
/// or `None` when no scanned device has that address text.
pub open spec fn spec_is_first_descriptor(
    devices: Seq<ConnectionDescriptor>,
    mac: Seq<char>,
    index: Option<usize>,
) -> bool {
    match index {
        Some(i) => {
            &&& i < devices.len()
            &&& spec_mac_text(devices[i as int].mac_address.octets@) == mac
            &&& forall|j: int| 0 <= j < i ==> spec_mac_text(devices[j].mac_address.octets@) != mac
        },
        None => forall|j: int|
            0 <= j < devices.len() ==> spec_mac_text(devices[j].mac_address.octets@) != mac,
    }
}

/// The position of the first scanned device whose address text is `mac`.
pub fn find_descriptor(devices: &Vec<ConnectionDescriptor>, mac: &String) -> (result: Option<usize>)
    ensures
        spec_is_first_descriptor(devices@, mac@, result),
{
    let mut i: usize = 0;
    while i < devices.len()
        invariant
            i <= devices@.len(),
            forall|j: int|
                0 <= j < i ==> spec_mac_text(devices@[j].mac_address.octets@) != mac@,
        decreases devices@.len() - i,
    {
        if devices[i].mac_address.to_string() == *mac {
            return Some(i);
        }
        i = i + 1;
    }
    None
}

/// A row of the pairing list: the device name and its address text.
#[derive(Debug, Clone)]
pub struct AvailableDevice {
    pub name: String,
    pub mac: String,
}

/// The rows of the pairing list, one per scanned device, in order.
pub fn available_devices(devices: &Vec<ConnectionDescriptor>) -> (result: Vec<AvailableDevice>)
    ensures
        result@.len() == devices@.len(),
        forall|i: int|
            0 <= i < devices@.len() ==> (#[trigger] result@[i]).name@ == devices@[i].name@
                && result@[i].mac@ == spec_mac_text(devices@[i].mac_address.octets@),
{
    let mut result: Vec<AvailableDevice> = Vec::new();
    let mut i: usize = 0;
    while i < devices.len()
        invariant
            i <= devices@.len(),
            result@.len() == i,
            forall|j: int|
                0 <= j < i ==> (#[trigger] result@[j]).name@ == devices@[j].name@ && result@[j].mac@
                    == spec_mac_text(devices@[j].mac_address.octets@),
        decreases devices@.len() - i,
    {
        let row = AvailableDevice {
            name: devices[i].name.clone(),
            mac: devices[i].mac_address.to_string(),
        };
        result.push(row);
        i = i + 1;
    }
    result
}

} // verus!
