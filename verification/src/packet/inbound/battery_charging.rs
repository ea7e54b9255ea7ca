use vstd::prelude::*;

use crate::packet::{Command, ParseError};
use crate::structures::{spec_is_battery_charging, IsBatteryCharging};

verus! {

/// The charging state of both earbuds.
#[derive(Debug, Clone, Copy, PartialEq, Eq, Hash)]
pub struct DualBatteryCharging {
    pub left: IsBatteryCharging,
    pub right: IsBatteryCharging,
}

impl DualBatteryCharging {
    /// The command of this packet.
    pub fn command_code() -> (result: Command)
        ensures
            result.0@ == seq![0x01u8, 0x04u8],
    {
        let result = Command([0x01, 0x04]);
        assert(result.0@ =~= seq![0x01u8, 0x04u8]);
        result
    }

    /// Reads the body `[left, right]`; the body must be exactly two bytes long.
    pub fn take(input: &[u8]) -> (result: Result<(&[u8], Self), ParseError>)
        ensures
            match result {
                Ok((rest, packet)) => {
                    &&& input@.len() == 2
                    &&& packet.left == spec_is_battery_charging(input@[0])
                    &&& packet.right == spec_is_battery_charging(input@[1])
                    &&& rest@.len() == 0
                },
                Err(e) => {
                    &&& input@.len() != 2
                    &&& e == (if input@.len() < 2 {
                        ParseError::UnexpectedEnd
                    } else {
                        ParseError::TrailingBytes
                    })
                },
            },
    {
        let (rest, left) = IsBatteryCharging::take(input)?;
        let (rest, right) = IsBatteryCharging::take(rest)?;
        if rest.len() != 0 {
            return Err(ParseError::TrailingBytes);
        }
        Ok((rest, Self { left, right }))
    }
}

} // verus!
