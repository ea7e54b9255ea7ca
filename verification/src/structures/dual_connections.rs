use vstd::prelude::*;

use crate::packet::{spec_bool, ParseError};

verus! {

/// The upper-case hexadecimal digit for a value below 16.
pub open spec fn spec_hex_digit(nibble: u8) -> char {
    if nibble < 10 {
        (48 + nibble) as char
    } else {
        (55 + nibble) as char
    }
}

/// Two upper-case hexadecimal digits for a byte.
pub open spec fn spec_hex_byte(byte: u8) -> Seq<char> {
    seq![spec_hex_digit(byte / 16), spec_hex_digit(byte % 16)]
}

/// The usual text form of a MAC address: six upper-case hex pairs joined by `:`.
pub open spec fn spec_mac_text(octets: Seq<u8>) -> Seq<char> {
    spec_hex_byte(octets[0]) + seq![':'] + spec_hex_byte(octets[1]) + seq![':'] + spec_hex_byte(
        octets[2],
    ) + seq![':'] + spec_hex_byte(octets[3]) + seq![':'] + spec_hex_byte(octets[4]) + seq![':']
        + spec_hex_byte(octets[5])
}

/// Formats six octets with `macaddr::MacAddr6`'s `Display` impl. Its source writes
/// `{:02X}:{:02X}:{:02X}:{:02X}:{:02X}:{:02X}` when no formatter flag is set, which is
/// what `to_string` passes; the contract states that text.
#[verifier::external_body]
fn mac_to_text(octets: [u8; 6]) -> (result: String)
    ensures
        result@ == spec_mac_text(octets@),
{
    macaddr::MacAddr6::from(octets).to_string()
}

/// A six-octet hardware address.
#[derive(Debug, Clone, Copy, PartialEq, Eq, Hash)]
pub struct MacAddress {
    pub octets: [u8; 6],
}

impl MacAddress {
    /// The address with the given octets, most significant first.
    pub fn new(a: u8, b: u8, c: u8, d: u8, e: u8, f: u8) -> (result: Self)
        ensures
            result.octets@ == seq![a, b, c, d, e, f],
    {
        let result = MacAddress { octets: [a, b, c, d, e, f] };
        assert(result.octets@ =~= seq![a, b, c, d, e, f]);
        result
    }

    /// The octets of the address.
    pub fn into_array(self) -> (result: [u8; 6])
        ensures
            result == self.octets,
    {
        self.octets
    }

    /// The address as `AA:BB:CC:DD:EE:FF`, in upper-case hexadecimal.
    pub fn to_string(&self) -> (result: String)
        ensures
            result@ == spec_mac_text(self.octets@),
    {
        mac_to_text(self.octets)
    }
}

/// Whether dual connections are enabled and which devices are known.
#[derive(Debug, Clone, PartialEq, Eq, Hash)]
pub struct DualConnections {
    pub is_enabled: bool,
    pub devices: Vec<DualConnectionsDevice>,
}

/// One entry of the dual connections device list.
#[derive(Debug, Clone, PartialEq, Eq, Hash)]
pub struct DualConnectionsDevice {
    pub is_connected: bool,
    pub mac_address: MacAddress,
    pub name: String,
}

/// What a device record holds on the wire: its connected flag and its address octets.
pub open spec fn spec_device_model(device: DualConnectionsDevice) -> (bool, Seq<u8>) {
    (device.is_connected, device.mac_address.octets@)
}

/// The bytes of a device record: the connected flag as `0` or `1`, then the six octets.
pub open spec fn spec_device_bytes(model: (bool, Seq<u8>)) -> Seq<u8> {
    seq![if model.0 { 1u8 } else { 0u8 }] + model.1
}

/// Reading a device record back from the bytes that [`DualConnectionsDevice::bytes`]
/// writes gives the same connected flag and address.
pub proof fn lemma_device_bytes_round_trip(device: DualConnectionsDevice)
    ensures
        spec_device_bytes(spec_device_model(device)).len() == 7,
        spec_bool(spec_device_bytes(spec_device_model(device))[0]) == device.is_connected,
        spec_device_bytes(spec_device_model(device)).subrange(1, 7) == device.mac_address.octets@,
{
    let bytes = spec_device_bytes(spec_device_model(device));
    assert(bytes.subrange(1, 7) =~= device.mac_address.octets@);
}

impl DualConnectionsDevice {
    /// Reads one device record: `[is_connected, mac(6)]`. The record carries no name,
    /// so the name is empty.
    pub fn take(input: &[u8]) -> (result: Result<(&[u8], Self), ParseError>)
        ensures
            match result {
                Ok((rest, device)) => {
                    &&& input@.len() >= 7
                    &&& device.is_connected == spec_bool(input@[0])
                    &&& device.mac_address.octets@ == input@.subrange(1, 7)
                    &&& device.name@ == Seq::<char>::empty()
                    &&& rest@ == input@.skip(7)
                },
                Err(e) => input@.len() < 7 && e == ParseError::UnexpectedEnd,
            },
    {
        if input.len() < 7 {
            return Err(ParseError::UnexpectedEnd);
        }
        let is_connected = input[0] == 1;
        let mac_address = MacAddress::new(input[1], input[2], input[3], input[4], input[5], input[6]);
        let rest = &input[7..input.len()];
        assert(mac_address.octets@ =~= input@.subrange(1, 7));
        Ok((rest, Self { is_connected, mac_address, name: String::new() }))
    }

    /// The record bytes of this device: the connected flag, then the six octets.
    pub fn bytes(&self) -> (result: Vec<u8>)
        ensures
            result@ == spec_device_bytes(spec_device_model(*self)),
    {
        let mut result = Vec::new();
        result.push(if self.is_connected { 1u8 } else { 0u8 });
        let mut i: usize = 0;
        while i < 6
            invariant
                i <= 6,
                result@ =~= seq![if self.is_connected { 1u8 } else { 0u8 }]
                    + self.mac_address.octets@.take(i as int),
            decreases 6 - i,
        {
            result.push(self.mac_address.octets[i]);
            i = i + 1;
        }
        assert(self.mac_address.octets@.take(6) =~= self.mac_address.octets@);
        result
    }
}

} // verus!
