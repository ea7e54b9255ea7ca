use vstd::prelude::*;
use vstd::std_specs::cmp::PartialOrdSpec;

verus! {

/// The sound modes of the earbuds, together in one value.
#[derive(Debug, Clone, Copy, Hash, PartialEq, Eq, Default)]
pub struct SoundModes {
    pub ambient_sound_mode: AmbientSoundMode,
    pub noise_canceling_mode: NoiseCancelingMode,
    pub transparency_mode: TransparencyMode,
    pub custom_noise_canceling: CustomNoiseCanceling,
}

/// Which ambient sound mode is active. The wire value of each mode is given by [`AmbientSoundMode::id`].
#[derive(Debug, Clone, Copy, Hash, PartialEq, Eq, PartialOrd, Ord, Default)]
pub enum AmbientSoundMode {
    #[default]
    NoiseCanceling,
    Transparency,
    Normal,
}

/// Which noise canceling environment is selected.
#[derive(Debug, Clone, Copy, Hash, PartialEq, Eq, PartialOrd, Ord, Default)]
pub enum NoiseCancelingMode {
    #[default]
    Transport,
    Outdoor,
    Indoor,
    Custom,
}

/// Which transparency variant is selected.
#[derive(Debug, Clone, Copy, Hash, PartialEq, Eq, PartialOrd, Ord, Default)]
pub enum TransparencyMode {
    #[default]
    FullyTransparent,
    VocalMode,
}

/// The wire value of an ambient sound mode.
pub open spec fn spec_ambient_sound_mode_id(mode: AmbientSoundMode) -> u8 {
    match mode {
        AmbientSoundMode::NoiseCanceling => 0,
        AmbientSoundMode::Transparency => 1,
        AmbientSoundMode::Normal => 2,
    }
}

/// The wire value of a noise canceling mode.
pub open spec fn spec_noise_canceling_mode_id(mode: NoiseCancelingMode) -> u8 {
    match mode {
        NoiseCancelingMode::Transport => 0,
        NoiseCancelingMode::Outdoor => 1,
        NoiseCancelingMode::Indoor => 2,
        NoiseCancelingMode::Custom => 3,
    }
}

/// The wire value of a transparency mode.
pub open spec fn spec_transparency_mode_id(mode: TransparencyMode) -> u8 {
    match mode {
        TransparencyMode::FullyTransparent => 0,
        TransparencyMode::VocalMode => 1,
    }
}

impl AmbientSoundMode {
    /// The wire value of this mode.
    pub fn id(&self) -> (result: u8)
        ensures
            result == spec_ambient_sound_mode_id(*self),
    {
        match self {
            AmbientSoundMode::NoiseCanceling => 0,
            AmbientSoundMode::Transparency => 1,
            AmbientSoundMode::Normal => 2,
        }
    }

    /// The mode with the given wire value, if there is one.
    pub fn from_id(id: u8) -> (result: Option<Self>)
        ensures
            match result {
                Some(mode) => spec_ambient_sound_mode_id(mode) == id,
                None => id > 2,
            },
    {
        match id {
            0 => Some(AmbientSoundMode::NoiseCanceling),
            1 => Some(AmbientSoundMode::Transparency),
            2 => Some(AmbientSoundMode::Normal),
            _ => None,
        }
    }
}

impl NoiseCancelingMode {
    /// The wire value of this mode.
    pub fn id(&self) -> (result: u8)
        ensures
            result == spec_noise_canceling_mode_id(*self),
    {
        match self {
            NoiseCancelingMode::Transport => 0,
            NoiseCancelingMode::Outdoor => 1,
            NoiseCancelingMode::Indoor => 2,
            NoiseCancelingMode::Custom => 3,
        }
    }

    /// The mode with the given wire value, if there is one.
    pub fn from_id(id: u8) -> (result: Option<Self>)
        ensures
            match result {
                Some(mode) => spec_noise_canceling_mode_id(mode) == id,
                None => id > 3,
            },
    {
        match id {
            0 => Some(NoiseCancelingMode::Transport),
            1 => Some(NoiseCancelingMode::Outdoor),
            2 => Some(NoiseCancelingMode::Indoor),
            3 => Some(NoiseCancelingMode::Custom),
            _ => None,
        }
    }
}

impl TransparencyMode {
    /// The wire value of this mode.
    pub fn id(&self) -> (result: u8)
        ensures
            result == spec_transparency_mode_id(*self),
    {
        match self {
            TransparencyMode::FullyTransparent => 0,
            TransparencyMode::VocalMode => 1,
        }
    }

    /// The mode with the given wire value, if there is one.
    pub fn from_id(id: u8) -> (result: Option<Self>)
        ensures
            match result {
                Some(mode) => spec_transparency_mode_id(mode) == id,
                None => id > 1,
            },
    {
        match id {
            0 => Some(TransparencyMode::FullyTransparent),
            1 => Some(TransparencyMode::VocalMode),
            _ => None,
        }
    }
}

/// Each mode's wire value reads back to the same mode, and distinct modes have distinct wire values.
pub proof fn lemma_sound_mode_ids_round_trip(
    ambient: AmbientSoundMode,
    noise_canceling: NoiseCancelingMode,
    transparency: TransparencyMode,
)
    ensures
        forall|other: AmbientSoundMode|
            spec_ambient_sound_mode_id(other) == spec_ambient_sound_mode_id(ambient) ==> other
                == ambient,
        forall|other: NoiseCancelingMode|
            spec_noise_canceling_mode_id(other) == spec_noise_canceling_mode_id(noise_canceling)
                ==> other == noise_canceling,
        forall|other: TransparencyMode|
            spec_transparency_mode_id(other) == spec_transparency_mode_id(transparency) ==> other
                == transparency,
        spec_ambient_sound_mode_id(ambient) <= 2,
        spec_noise_canceling_mode_id(noise_canceling) <= 3,
        spec_transparency_mode_id(transparency) <= 1,
{
}

/// The clamp applied to a custom noise canceling level: `255` is kept unchanged,
/// every other value is limited to `0..=10`.
pub open spec fn spec_clamp_custom_noise_canceling(value: u8) -> u8 {
    if value == 255 {
        255
    } else if value > 10 {
        10
    } else {
        value
    }
}

/// A clamped level is either within `0..=10` or the special value `255`, and clamping
/// it again changes nothing.
pub proof fn lemma_custom_noise_canceling_clamp(value: u8)
    ensures
        spec_clamp_custom_noise_canceling(value) <= 10 || spec_clamp_custom_noise_canceling(value)
            == 255,
        spec_clamp_custom_noise_canceling(spec_clamp_custom_noise_canceling(value))
            == spec_clamp_custom_noise_canceling(value),
        value <= 10 || value == 255 ==> spec_clamp_custom_noise_canceling(value) == value,
{
}

/// A custom noise canceling level. Levels compare equal when their values are equal,
/// and are ordered by their values.
#[derive(Debug, Clone, Copy, Hash, PartialEq, Eq, Structural, Ord)]
pub struct CustomNoiseCanceling {
    value: u8,
}

impl View for CustomNoiseCanceling {
    type V = u8;

    closed spec fn view(&self) -> u8 {
        self.value
    }
}

impl CustomNoiseCanceling {
    /// Builds a level, clamping it to `0..=10` unless it is the special value `255`.
    pub fn new(value: u8) -> (result: Self)
        ensures
            result@ == spec_clamp_custom_noise_canceling(value),
    {
        let clamped_value: u8 = if value == 255 {
            value
        } else if value > 10 {
            10
        } else {
            value
        };
        Self { value: clamped_value }
    }

    /// The stored level.
    pub fn value(&self) -> (result: u8)
        ensures
            result == self@,
    {
        self.value
    }
}

impl Default for CustomNoiseCanceling {
    /// The level 0.
    fn default() -> (result: Self)
        ensures
            result@ == 0,
    {
        CustomNoiseCanceling { value: 0 }
    }
}

impl PartialOrd for CustomNoiseCanceling {
    fn partial_cmp(&self, other: &Self) -> (result: Option<core::cmp::Ordering>) {
        if self.value < other.value {
            Some(core::cmp::Ordering::Less)
        } else if self.value == other.value {
            Some(core::cmp::Ordering::Equal)
        } else {
            Some(core::cmp::Ordering::Greater)
        }
    }
}

impl vstd::std_specs::cmp::PartialOrdSpecImpl for CustomNoiseCanceling {
    open spec fn obeys_partial_cmp_spec() -> bool {
        true
    }

    open spec fn partial_cmp_spec(&self, other: &Self) -> Option<core::cmp::Ordering> {
        if self@ < other@ {
            Some(core::cmp::Ordering::Less)
        } else if self@ == other@ {
            Some(core::cmp::Ordering::Equal)
        } else {
            Some(core::cmp::Ordering::Greater)
        }
    }
}

/// Levels are equal exactly when their values are, and compare by their values.
pub proof fn lemma_custom_noise_canceling_order(a: CustomNoiseCanceling, b: CustomNoiseCanceling)
    ensures
        (a == b) == (a@ == b@),
        a.partial_cmp_spec(&b) == (if a@ < b@ {
            Some(core::cmp::Ordering::Less)
        } else if a@ == b@ {
            Some(core::cmp::Ordering::Equal)
        } else {
            Some(core::cmp::Ordering::Greater)
        }),
{
}

} // verus!
