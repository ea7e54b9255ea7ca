mod dual_connections;
mod equalizer;

pub use dual_connections::{
    lemma_snapshot_replaces_list, spec_handle_dual_connections_packet, spec_state_records,
    DualConnectionsDevicePacketHandler,
};
pub use equalizer::{
    finish_move, spec_packet_for_move, EqualizerPacket, EqualizerStateModifier,
    EqualizerStateModifierOptions,
};
