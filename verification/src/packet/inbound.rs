mod battery_charging;
mod dual_connections_device;

pub use battery_charging::DualBatteryCharging;
pub use dual_connections_device::{
    lemma_body_take_round_trip, lemma_records_round_trip,
    spec_packet_records, spec_parse_device_records, spec_records_bytes, DualConnectionsDevicePacket,
};
