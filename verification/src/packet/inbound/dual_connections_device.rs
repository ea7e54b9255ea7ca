use vstd::prelude::*;

use crate::packet::{spec_bool, Command, ParseError};
use crate::structures::{spec_device_bytes, spec_device_model, DualConnectionsDevice};

verus! {

/// The device records of a dual connections snapshot body, read up to the end of the
/// input or up to the first record whose flag byte is `0`, whichever comes first.
/// A record is a flag byte and six address octets; `None` when a record with a
/// nonzero flag is cut short.
pub open spec fn spec_parse_device_records(body: Seq<u8>) -> Option<Seq<(bool, Seq<u8>)>>
    decreases body.len(),
{
    if body.len() == 0 || body[0] == 0 {
        Some(Seq::empty())
    } else if body.len() < 7 {
        None
    } else {
        match spec_parse_device_records(body.skip(7)) {
            Some(rest) => Some(seq![(spec_bool(body[0]), body.subrange(1, 7))] + rest),
            None => None,
        }
    }
}

/// The bytes of a list of device records, one after the other.
pub open spec fn spec_records_bytes(records: Seq<(bool, Seq<u8>)>) -> Seq<u8>
    decreases records.len(),
{
    if records.len() == 0 {
        Seq::empty()
    } else {
        spec_device_bytes(records[0]) + spec_records_bytes(records.drop_first())
    }
}

/// The wire model of a packet's device list.
pub open spec fn spec_packet_records(packet: DualConnectionsDevicePacket) -> Seq<(bool, Seq<u8>)> {
    packet.devices@.map_values(|device: DualConnectionsDevice| spec_device_model(device))
}

/// Reading back the record bytes of connected devices gives the same devices, and an
/// end marker (a `0` byte) with anything after it does not change that.
pub proof fn lemma_records_round_trip(records: Seq<(bool, Seq<u8>)>, tail: Seq<u8>)
    requires
        forall|i: int| 0 <= i < records.len() ==> (#[trigger] records[i]).0 && records[i].1.len() == 6,
        tail.len() == 0 || tail[0] == 0,
    ensures
        spec_parse_device_records(spec_records_bytes(records) + tail) == Some(records),
    decreases records.len(),
{
    let s = spec_records_bytes(records) + tail;
    if records.len() == 0 {
        assert(s =~= tail);
    } else {
        let first = records[0];
        let rest = records.drop_first();
        assert forall|i: int| 0 <= i < rest.len() implies (#[trigger] rest[i]).0 && rest[i].1.len()
            == 6 by {
            assert(rest[i] == records[i + 1]);
        }
        lemma_records_round_trip(rest, tail);
        let first_bytes = spec_device_bytes(first);
        assert(first_bytes.len() == 7);
        assert(s =~= first_bytes + (spec_records_bytes(rest) + tail));
        assert(s[0] == 1);
        assert(s.skip(7) =~= spec_records_bytes(rest) + tail);
        assert(s.subrange(1, 7) =~= first.1);
        assert(seq![(spec_bool(s[0]), s.subrange(1, 7))] + rest =~= records);
    }
}

/// For a snapshot whose devices are all connected, reading back its body gives its devices.
pub proof fn lemma_body_take_round_trip(packet: DualConnectionsDevicePacket)
    requires
        forall|i: int| 0 <= i < packet.devices@.len() ==> (#[trigger] packet.devices@[i]).is_connected,
    ensures
        spec_parse_device_records(spec_records_bytes(spec_packet_records(packet))) == Some(
            spec_packet_records(packet),
        ),
{
    let records = spec_packet_records(packet);
    assert forall|i: int| 0 <= i < records.len() implies (#[trigger] records[i]).0 && records[i].1.len()
        == 6 by {
        assert(records[i] == spec_device_model(packet.devices@[i]));
    }
    lemma_records_round_trip(records, Seq::empty());
    assert(spec_records_bytes(records) + Seq::<u8>::empty() =~= spec_records_bytes(records));
}

/// A snapshot of the devices that the earbuds are connected to.
#[derive(Debug, Clone, PartialEq, Eq, Hash)]
pub struct DualConnectionsDevicePacket {
    pub total_packets: u8,
    /// Index starts from 1
    pub current_packet_index: u8,
    pub devices: Vec<DualConnectionsDevice>,
}

impl DualConnectionsDevicePacket {
    /// The command of this packet.
    pub fn command_code() -> (result: Command)
        ensures
            result.0@ == seq![0x0bu8, 0x02u8],
    {
        let result = Command([0x0b, 0x02]);
        assert(result.0@ =~= seq![0x0bu8, 0x02u8]);
        result
    }

    /// The command of this packet.
    pub fn command(&self) -> (result: Command)
        ensures
            result.0@ == seq![0x0bu8, 0x02u8],
    {
        Self::command_code()
    }

    /// The body of this packet: the record bytes of each device, in order.
    pub fn body(&self) -> (result: Vec<u8>)
        ensures
            result@ == spec_records_bytes(spec_packet_records(*self)),
    {
        let mut result: Vec<u8> = Vec::new();
        let mut i: usize = 0;
        let ghost records = spec_packet_records(*self);
        proof {
            assert(records.skip(0) =~= records);
            assert(result@ + spec_records_bytes(records) =~= spec_records_bytes(records));
        }
        while i < self.devices.len()
            invariant
                i <= self.devices@.len(),
                records == spec_packet_records(*self),
                records.len() == self.devices@.len(),
                spec_records_bytes(records) == result@ + spec_records_bytes(
                    records.skip(i as int),
                ),
            decreases self.devices@.len() - i,
        {
            let bytes = self.devices[i].bytes();
            proof {
                let tail = records.skip(i as int);
                assert(tail[0] == spec_device_model(self.devices@[i as int]));
                assert(tail.drop_first() =~= records.skip(i + 1));
            }
            let mut j: usize = 0;
            let ghost before = result@;
            while j < bytes.len()
                invariant
                    j <= bytes@.len(),
                    result@ == before + bytes@.take(j as int),
                decreases bytes@.len() - j,
            {
                result.push(bytes[j]);
                j = j + 1;
                assert(result@ =~= before + bytes@.take(j as int));
            }
            proof {
                assert(bytes@.take(bytes@.len() as int) =~= bytes@);
                assert(before + bytes@ + spec_records_bytes(records.skip(i + 1)) =~= before + (
                bytes@ + spec_records_bytes(records.skip(i + 1))));
            }
            i = i + 1;
        }
        proof {
            assert(records.skip(i as int).len() == 0);
            assert(result@ + Seq::<u8>::empty() =~= result@);
        }
        result
    }

    /// Reads a snapshot body. Each connected device is a record `[flag, mac(6)]` with a
    /// nonzero flag; a flag byte of `0` ends the list, and everything after it is ignored.
    /// The whole input counts as consumed. Both packet counters are the number of
    /// devices read (wrapping past 255); an empty list counts as packet 1 of 1, since the
    /// packet index starts from 1.
    pub fn take(input: &[u8]) -> (result: Result<(&[u8], Self), ParseError>)
        ensures
            match result {
                Ok((rest, packet)) => {
                    &&& spec_parse_device_records(input@) == Some(spec_packet_records(packet))
                    &&& forall|i: int|
                        0 <= i < packet.devices@.len() ==> (#[trigger] packet.devices@[i]).name@
                            == Seq::<char>::empty()
                    &&& packet.devices@.len() > 0 ==> packet.total_packets
                        == packet.devices@.len() as u8 && packet.current_packet_index
                        == packet.devices@.len() as u8
                    &&& packet.devices@.len() == 0 ==> packet.total_packets == 1
                        && packet.current_packet_index == 1
                    &&& rest@.len() == 0
                },
                Err(e) => spec_parse_device_records(input@) is None && e
                    == ParseError::UnexpectedEnd,
            },
    {
        let mut devices: Vec<DualConnectionsDevice> = Vec::new();
        let mut rest = input;
        while rest.len() != 0
            invariant_except_break
                spec_parse_device_records(input@) == match spec_parse_device_records(rest@) {
                    Some(tail) => Some(devices@.map_values(
                        |device: DualConnectionsDevice| spec_device_model(device),
                    ) + tail),
                    None => None,
                },
            invariant
                forall|i: int|
                    0 <= i < devices@.len() ==> (#[trigger] devices@[i]).name@
                        == Seq::<char>::empty(),
            ensures
                spec_parse_device_records(input@) == Some(
                    devices@.map_values(|device: DualConnectionsDevice| spec_device_model(device)),
                ),
            decreases rest@.len(),
        {
            if rest[0] == 0 {
                proof {
                    let m = devices@.map_values(
                        |device: DualConnectionsDevice| spec_device_model(device),
                    );
                    assert(m + Seq::<(bool, Seq<u8>)>::empty() =~= m);
                }
                break;
            }
            let ghost before = devices@;
            let ghost old_rest = rest@;
            let (remaining, device) = match DualConnectionsDevice::take(rest) {
                Ok(parsed) => parsed,
                Err(e) => {
                    return Err(e);
                },
            };
            devices.push(device);
            rest = remaining;
            proof {
                let f = |device: DualConnectionsDevice| spec_device_model(device);
                assert(devices@.map_values(f) =~= before.map_values(f).push(spec_device_model(device)));
                assert(spec_device_model(device) == (spec_bool(old_rest[0]), old_rest.subrange(1, 7)));
                match spec_parse_device_records(rest@) {
                    Some(tail) => {
                        assert(before.map_values(f) + (seq![spec_device_model(device)] + tail)
                            =~= devices@.map_values(f) + tail);
                    },
                    None => {},
                }
            }
        }
        proof {
            let m = devices@.map_values(|device: DualConnectionsDevice| spec_device_model(device));
            assert(m + Seq::<(bool, Seq<u8>)>::empty() =~= m);
        }
        let empty = &input[0..0];
        let count: u8 = if devices.len() == 0 {
            1
        } else {
            (devices.len() % 256) as u8
        };
        let n: usize = devices.len();
        assert((n % 256) as u8 == n as u8) by (bit_vector);
        Ok((empty, Self { total_packets: count, current_packet_index: count, devices }))
    }
}

} // verus!
