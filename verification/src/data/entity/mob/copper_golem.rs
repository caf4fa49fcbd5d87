//! Copper-golem record shapes.

use vstd::prelude::*;

use crate::error::DecodeError;

verus! {

/// A copper golem's oxidation bookkeeping.
#[derive(Clone, Debug, PartialEq, Eq, Structural)]
pub struct CopperGolem {
    pub weather_state: WeatherState,
    pub next_weather_age: i64,
}

/// A copper golem's oxidation stage, carried as a 32-bit ordinal.
#[derive(Clone, Copy, Debug, PartialEq, Eq, Structural)]
pub enum WeatherState {
    Unaffected,
    Exposed,
    Weathered,
    Oxidized,
}

impl WeatherState {
    /// The wire ordinal of this value.
    pub open spec fn ordinal(self) -> int {
        match self {
            WeatherState::Unaffected => 0,
            WeatherState::Exposed => 1,
            WeatherState::Weathered => 2,
            WeatherState::Oxidized => 3,
        }
    }

    /// Decode a wire ordinal; exactly the values 0 to 3 are accepted.
    pub fn try_from(value: i32) -> (r: Result<WeatherState, DecodeError>)
        ensures
            match r {
                Ok(v) => v.ordinal() == value,
                Err(e) => !(0 <= value <= 3) && e == DecodeError::InvalidEnumOrdinal(
                    "WeatherState",
                    value as i64,
                ),
            },
    {
        match value {
            0 => Ok(WeatherState::Unaffected),
            1 => Ok(WeatherState::Exposed),
            2 => Ok(WeatherState::Weathered),
            3 => Ok(WeatherState::Oxidized),
            _ => Err(DecodeError::InvalidEnumOrdinal("WeatherState", value as i64)),
        }
    }

    /// The wire ordinal.
    pub fn to_i32(self) -> (r: i32)
        ensures
            r == self.ordinal(),
    {
        match self {
            WeatherState::Unaffected => 0,
            WeatherState::Exposed => 1,
            WeatherState::Weathered => 2,
            WeatherState::Oxidized => 3,
        }
    }
}

} // verus!
