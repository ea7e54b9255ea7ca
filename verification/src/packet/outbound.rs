use vstd::prelude::*;

use crate::packet::Command;

verus! {

/// The command that turns gaming mode on or off.
pub fn set_gaming_mode_command() -> (result: Command)
    ensures
        result.0@ == seq![0x01u8, 0x87u8],
{
    let result = Command([0x01, 0x87]);
    assert(result.0@ =~= seq![0x01u8, 0x87u8]);
    result
}

/// The command that turns the touch tone on or off.
pub fn set_touch_tone_command() -> (result: Command)
    ensures
        result.0@ == seq![0x01u8, 0x83u8],
{
    let result = Command([0x01, 0x83]);
    assert(result.0@ =~= seq![0x01u8, 0x83u8]);
    result
}

/// The command that turns the low battery prompt on or off.
pub fn set_low_battery_prompt_command() -> (result: Command)
    ensures
        result.0@ == seq![0x10u8, 0x82u8],
{
    let result = Command([0x10, 0x82]);
    assert(result.0@ =~= seq![0x10u8, 0x82u8]);
    result
}

} // verus!
