use vstd::prelude::*;

use crate::packet::{spec_bool, ParseError};

verus! {

/// Whether one earbud is charging.
#[derive(Debug, Clone, Copy, PartialEq, Eq, Hash, Default)]
pub enum IsBatteryCharging {
    #[default]
    No,
    Yes,
}

/// The charging state that a boolean byte encodes.
pub open spec fn spec_is_battery_charging(byte: u8) -> IsBatteryCharging {
    if spec_bool(byte) {
        IsBatteryCharging::Yes
    } else {
        IsBatteryCharging::No
    }
}

impl IsBatteryCharging {
    /// Reads one charging flag byte.
    pub fn take(input: &[u8]) -> (result: Result<(&[u8], Self), ParseError>)
        ensures
            match result {
                Ok((rest, value)) => input@.len() >= 1 && value == spec_is_battery_charging(
                    input@[0],
                ) && rest@ == input@.skip(1),
                Err(e) => input@.len() == 0 && e == ParseError::UnexpectedEnd,
            },
    {
        let (rest, is_charging) = crate::packet::take_bool(input)?;
        Ok((rest, if is_charging { IsBatteryCharging::Yes } else { IsBatteryCharging::No }))
    }
}

} // verus!
