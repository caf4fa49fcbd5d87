//! Ender-dragon record shapes.

use vstd::prelude::*;

use crate::error::DecodeError;

verus! {

/// The dragon's persisted state.
#[derive(Clone, Debug, PartialEq, Eq, Structural)]
pub struct EnderDragon {
    pub dragon_phase: DragonPhase,
}

/// The dragon's behavior phase, carried as a 32-bit ordinal.
#[derive(Clone, Copy, Debug, PartialEq, Eq, Structural)]
pub enum DragonPhase {
    Circling,
    Strafing,
    FlyingToLand,
    Landing,
    TakingOff,
    Breathing,
    LookingForPlayer,
    Roaring,
    Charging,
    FlyingToDie,
    Hovering,
}

impl DragonPhase {
    /// The wire ordinal of this value.
    pub open spec fn ordinal(self) -> int {
        match self {
            DragonPhase::Circling => 0,
            DragonPhase::Strafing => 1,
            DragonPhase::FlyingToLand => 2,
            DragonPhase::Landing => 3,
            DragonPhase::TakingOff => 4,
            DragonPhase::Breathing => 5,
            DragonPhase::LookingForPlayer => 6,
            DragonPhase::Roaring => 7,
            DragonPhase::Charging => 8,
            DragonPhase::FlyingToDie => 9,
            DragonPhase::Hovering => 10,
        }
    }

    /// Decode a wire ordinal; exactly the values 0 to 10 are accepted.
    pub fn try_from(value: i32) -> (r: Result<DragonPhase, DecodeError>)
        ensures
            match r {
                Ok(v) => v.ordinal() == value,
                Err(e) => !(0 <= value <= 10) && e == DecodeError::InvalidEnumOrdinal(
                    "DragonPhase",
                    value as i64,
                ),
            },
    {
        match value {
            0 => Ok(DragonPhase::Circling),
            1 => Ok(DragonPhase::Strafing),
            2 => Ok(DragonPhase::FlyingToLand),
            3 => Ok(DragonPhase::Landing),
            4 => Ok(DragonPhase::TakingOff),
            5 => Ok(DragonPhase::Breathing),
            6 => Ok(DragonPhase::LookingForPlayer),
            7 => Ok(DragonPhase::Roaring),
            8 => Ok(DragonPhase::Charging),
            9 => Ok(DragonPhase::FlyingToDie),
            10 => Ok(DragonPhase::Hovering),
            _ => Err(DecodeError::InvalidEnumOrdinal("DragonPhase", value as i64)),
        }
    }

    /// The wire ordinal.
    pub fn to_i32(self) -> (r: i32)
        ensures
            r == self.ordinal(),
    {
        match self {
            DragonPhase::Circling => 0,
            DragonPhase::Strafing => 1,
            DragonPhase::FlyingToLand => 2,
            DragonPhase::Landing => 3,
            DragonPhase::TakingOff => 4,
            DragonPhase::Breathing => 5,
            DragonPhase::LookingForPlayer => 6,
            DragonPhase::Roaring => 7,
            DragonPhase::Charging => 8,
            DragonPhase::FlyingToDie => 9,
            DragonPhase::Hovering => 10,
        }
    }
}

} // verus!
