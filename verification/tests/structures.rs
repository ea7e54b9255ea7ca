use openscq30::structures::{
    AmbientSoundMode, CustomNoiseCanceling, NoiseCancelingMode, SoundModes, TransparencyMode,
};

#[test]
fn custom_noise_canceling_is_clamped_except_255() {
    assert_eq!(CustomNoiseCanceling::new(0).value(), 0);
    assert_eq!(CustomNoiseCanceling::new(5).value(), 5);
    assert_eq!(CustomNoiseCanceling::new(10).value(), 10);
    assert_eq!(CustomNoiseCanceling::new(11).value(), 10);
    assert_eq!(CustomNoiseCanceling::new(254).value(), 10);
    assert_eq!(CustomNoiseCanceling::new(255).value(), 255);
}

#[test]
fn sound_mode_ids_round_trip() {
    for mode in [
        AmbientSoundMode::NoiseCanceling,
        AmbientSoundMode::Transparency,
        AmbientSoundMode::Normal,
    ] {
        assert_eq!(AmbientSoundMode::from_id(mode.id()), Some(mode));
    }
    assert_eq!(AmbientSoundMode::Normal.id(), 2);
    assert_eq!(AmbientSoundMode::from_id(3), None);
    assert_eq!(NoiseCancelingMode::Custom.id(), 3);
    assert_eq!(NoiseCancelingMode::from_id(1), Some(NoiseCancelingMode::Outdoor));
    assert_eq!(NoiseCancelingMode::from_id(4), None);
    assert_eq!(TransparencyMode::VocalMode.id(), 1);
    assert_eq!(TransparencyMode::from_id(0), Some(TransparencyMode::FullyTransparent));
    assert_eq!(TransparencyMode::from_id(2), None);
}

#[test]
fn default_sound_modes() {
    let modes = SoundModes::default();
    assert_eq!(modes.ambient_sound_mode, AmbientSoundMode::NoiseCanceling);
    assert_eq!(modes.noise_canceling_mode, NoiseCancelingMode::Transport);
    assert_eq!(modes.transparency_mode, TransparencyMode::FullyTransparent);
    assert_eq!(modes.custom_noise_canceling.value(), 0);
}

#[test]
fn custom_noise_canceling_compares_by_value() {
    assert_eq!(CustomNoiseCanceling::default().value(), 0);
    assert_eq!(CustomNoiseCanceling::default(), CustomNoiseCanceling::new(0));
    assert_eq!(CustomNoiseCanceling::new(12), CustomNoiseCanceling::new(10));
    assert_ne!(CustomNoiseCanceling::new(3), CustomNoiseCanceling::new(4));
    assert!(CustomNoiseCanceling::new(3) < CustomNoiseCanceling::new(4));
    assert!(CustomNoiseCanceling::new(255) > CustomNoiseCanceling::new(10));
    assert_eq!(
        CustomNoiseCanceling::new(7).partial_cmp(&CustomNoiseCanceling::new(7)),
        Some(std::cmp::Ordering::Equal)
    );
    assert_eq!(
        CustomNoiseCanceling::new(7).cmp(&CustomNoiseCanceling::new(2)),
        std::cmp::Ordering::Greater
    );
}
