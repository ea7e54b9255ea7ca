mod battery;
mod dual_connections;
mod sound_modes;

pub use battery::{spec_is_battery_charging, IsBatteryCharging};
pub use dual_connections::{
    lemma_device_bytes_round_trip, spec_device_bytes, spec_device_model, spec_hex_byte, spec_hex_digit,
    spec_mac_text, DualConnections, DualConnectionsDevice, MacAddress,
};
pub use sound_modes::{
    lemma_custom_noise_canceling_clamp, lemma_sound_mode_ids_round_trip, spec_ambient_sound_mode_id, spec_clamp_custom_noise_canceling,
    spec_noise_canceling_mode_id, spec_transparency_mode_id, AmbientSoundMode, CustomNoiseCanceling,
    NoiseCancelingMode, SoundModes, TransparencyMode,
};
