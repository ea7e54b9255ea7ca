use std::sync::Arc;

use openscq30::modules::{
    finish_move, EqualizerPacket, EqualizerStateModifier, EqualizerStateModifierOptions,
};

#[test]
fn picks_the_packet_for_a_move() {
    let plain = EqualizerStateModifier::new(Arc::new(()), EqualizerStateModifierOptions { has_drc: false });
    let drc = EqualizerStateModifier::new(Arc::new(()), EqualizerStateModifierOptions { has_drc: true });
    assert_eq!(plain.packet_for_move(&[1i16, 2], &[1i16, 2]), None);
    assert_eq!(drc.packet_for_move(&5u16, &5u16), None);
    assert_eq!(plain.packet_for_move(&1u16, &2u16), Some(EqualizerPacket::SetEqualizer));
    assert_eq!(drc.packet_for_move(&1u16, &2u16), Some(EqualizerPacket::SetEqualizerWithDrc));
    assert_eq!(*drc.packet_io(), Arc::new(()));
}

#[test]
fn finishes_a_move_only_on_success() {
    let mut state = 1u16;
    assert_eq!(finish_move::<u16, String>(&mut state, 2, Ok(())), Ok(()));
    assert_eq!(state, 2);
    assert_eq!(
        finish_move(&mut state, 3, Err("no response".to_string())),
        Err("no response".to_string())
    );
    assert_eq!(state, 2);
}
