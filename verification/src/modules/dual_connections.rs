use vstd::prelude::*;

use crate::packet::inbound::{spec_packet_records, spec_parse_device_records, DualConnectionsDevicePacket};
use crate::packet::{Command, Inbound, ParseError};
use crate::structures::{spec_device_model, DualConnections, DualConnectionsDevice};

verus! {

/// The device records of a dual connections state.
pub open spec fn spec_state_records(state: DualConnections) -> Seq<(bool, Seq<u8>)> {
    state.devices@.map_values(|device: DualConnectionsDevice| spec_device_model(device))
}

/// What handling a dual connections snapshot body does to a state, given as the
/// enabled flag and the device records: the flag stays, the list becomes the snapshot.
/// `None` when the body cannot be read.
pub open spec fn spec_handle_dual_connections_packet(
    is_enabled: bool,
    records: Seq<(bool, Seq<u8>)>,
    body: Seq<u8>,
) -> Option<(bool, Seq<(bool, Seq<u8>)>)> {
    match spec_parse_device_records(body) {
        Some(snapshot) => Some((is_enabled, snapshot)),
        None => None,
    }
}

/// Each snapshot packet replaces the whole device list: the state after handling it does
/// not depend on the list before it, and an empty snapshot leaves an empty list.
pub proof fn lemma_snapshot_replaces_list(
    is_enabled: bool,
    first: Seq<(bool, Seq<u8>)>,
    second: Seq<(bool, Seq<u8>)>,
    body: Seq<u8>,
)
    ensures
        spec_handle_dual_connections_packet(is_enabled, first, body)
            == spec_handle_dual_connections_packet(is_enabled, second, body),
        body.len() == 0 || body[0] == 0 ==> spec_handle_dual_connections_packet(
            is_enabled,
            first,
            body,
        ) == Some((is_enabled, Seq::<(bool, Seq<u8>)>::empty())),
{
}

/// Keeps the dual connections device list up to date from snapshot packets.
#[derive(Debug, Clone, Copy, Default)]
pub struct DualConnectionsDevicePacketHandler;

impl DualConnectionsDevicePacketHandler {
    /// The command of the packets this handler reads.
    pub fn command_code() -> (result: Command)
        ensures
            result.0@ == seq![0x0bu8, 0x02u8],
    {
        DualConnectionsDevicePacket::command_code()
    }

    /// Reads a snapshot packet and replaces the device list with it. When the body
    /// cannot be read, the state is left as it was.
    pub fn handle_packet(&self, state: &mut DualConnections, packet: &Inbound) -> (result: Result<
        (),
        ParseError,
    >)
        ensures
            match result {
                Ok(()) => {
                    &&& spec_handle_dual_connections_packet(
                        old(state).is_enabled,
                        spec_state_records(*old(state)),
                        packet.body@,
                    ) == Some((final(state).is_enabled, spec_state_records(*final(state))))
                    &&& forall|i: int|
                        0 <= i < final(state).devices@.len() ==> (#[trigger] final(state).devices@[i]).name@
                            == Seq::<char>::empty()
                },
                Err(e) => {
                    &&& spec_handle_dual_connections_packet(
                        old(state).is_enabled,
                        spec_state_records(*old(state)),
                        packet.body@,
                    ) is None
                    &&& e == ParseError::UnexpectedEnd
                    &&& *final(state) == *old(state)
                },
            },
    {
        let (_, parsed) = DualConnectionsDevicePacket::take(packet.body.as_slice())?;
        modify_state(state, parsed);
        Ok(())
    }
}

/// Replaces the device list with the one of a snapshot; the enabled flag is kept.
fn modify_state(dual_connections: &mut DualConnections, packet: DualConnectionsDevicePacket)
    ensures
        final(dual_connections).is_enabled == old(dual_connections).is_enabled,
        final(dual_connections).devices@ == packet.devices@,
{
    dual_connections.devices = packet.devices;
}

} // verus!
