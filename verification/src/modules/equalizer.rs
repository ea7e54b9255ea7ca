use std::sync::Arc;

use vstd::prelude::*;
use vstd::std_specs::cmp::PartialEqSpec;

verus! {

/// Options of an [`EqualizerStateModifier`].
#[derive(Debug, Clone, Copy, PartialEq, Eq, Hash, Default)]
pub struct EqualizerStateModifierOptions {
    /// Whether the device takes its equalizer together with dynamic range compression settings.
    pub has_drc: bool,
}

/// The outbound packet that carries a new equalizer configuration.
#[derive(Debug, Clone, Copy, PartialEq, Eq, Hash)]
pub enum EqualizerPacket {
    SetEqualizer,
    SetEqualizerWithDrc,
}

/// Moves the device's equalizer configuration to a target one. The packet I/O handle
/// is carried for the caller, which sends the packet that [`Self::packet_for_move`] picks.
pub struct EqualizerStateModifier<P> {
    packet_io: Arc<P>,
    options: EqualizerStateModifierOptions,
}

impl<P> View for EqualizerStateModifier<P> {
    type V = EqualizerStateModifierOptions;

    closed spec fn view(&self) -> EqualizerStateModifierOptions {
        self.options
    }
}

/// The packet that moves the equalizer to a target configuration: none when the
/// device is already at the target (`at_target`), otherwise the packet with DRC
/// settings when the device has them (`has_drc`), the plain one when it does not.
pub open spec fn spec_packet_for_move(has_drc: bool, at_target: bool) -> Option<EqualizerPacket> {
    if at_target {
        None
    } else if has_drc {
        Some(EqualizerPacket::SetEqualizerWithDrc)
    } else {
        Some(EqualizerPacket::SetEqualizer)
    }
}

impl<P> EqualizerStateModifier<P> {
    /// A modifier that sends through `packet_io`.
    pub fn new(packet_io: Arc<P>, options: EqualizerStateModifierOptions) -> (result: Self)
        ensures
            result@ == options,
            result.spec_packet_io() == packet_io,
    {
        Self { packet_io, options }
    }

    /// The packet I/O handle.
    pub closed spec fn spec_packet_io(&self) -> Arc<P> {
        self.packet_io
    }

    /// The packet I/O handle this modifier sends through.
    pub fn packet_io(&self) -> (result: &Arc<P>)
        ensures
            *result == self.spec_packet_io(),
    {
        &self.packet_io
    }

    /// Which packet to send to move from `current` to `target`; `None` when the
    /// configuration compares equal to the target one and nothing needs to be sent.
    /// Where the configuration type's `==` follows its specification, the result is
    /// exact; for any other type it is still one of those two answers.
    pub fn packet_for_move<C: PartialEq>(&self, current: &C, target: &C) -> (result: Option<
        EqualizerPacket,
    >)
        ensures
            C::obeys_eq_spec() ==> result == spec_packet_for_move(
                self@.has_drc,
                current.eq_spec(target),
            ),
            result is None || result == spec_packet_for_move(self@.has_drc, false),
    {
        if current == target {
            None
        } else if self.options.has_drc {
            Some(EqualizerPacket::SetEqualizerWithDrc)
        } else {
            Some(EqualizerPacket::SetEqualizer)
        }
    }
}

/// Completes a move once the device has answered the packet: on success the state
/// becomes the target configuration, on failure it is left as it was and the error is
/// handed back.
pub fn finish_move<C, E>(state: &mut C, target: C, response: Result<(), E>) -> (result: Result<(), E>)
    ensures
        result == response,
        response is Ok ==> *final(state) == target,
        response is Err ==> *final(state) == *old(state),
{
    if response.is_ok() {
        *state = target;
    }
    response
}

/// Repeating a move that succeeded sends nothing: once the state is the target (the
/// move finished with `Ok`), the packet for moving to that target again is none,
/// for a configuration type whose `==` follows its specification and finds a value
/// equal to itself.
pub proof fn lemma_repeated_move_sends_nothing<C: PartialEq>(
    has_drc: bool,
    state: C,
    target: C,
)
    requires
        C::obeys_eq_spec(),
        state == target,
        target.eq_spec(&target),
    ensures
        spec_packet_for_move(has_drc, state.eq_spec(&target)) is None,
{
}

} // verus!
