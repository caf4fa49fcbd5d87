//! Villager record shapes.

use vstd::prelude::*;

use crate::data::Identifier;
use crate::error::DecodeError;

verus! {

/// The kind of gossip a villager spreads.
#[derive(Clone, Copy, Debug, PartialEq, Eq, Structural)]
pub enum GossipKind {
    MajorNegative,
    MinorNegative,
    MajorPositive,
    MinorPositive,
    Trading,
}

/// A villager's trade standing.
#[derive(Clone, Debug)]
pub struct VillagerData {
    pub level: Level,
    pub profession: Identifier,
    pub kind: Identifier,
}

/// A villager's trade level, carried as a 32-bit ordinal starting at 1.
#[derive(Clone, Copy, Debug, PartialEq, Eq, Structural)]
pub enum Level {
    Novice,
    Apprentice,
    Journeyman,
    Expert,
    Master,
}

impl Level {
    /// The wire ordinal of this value.
    pub open spec fn ordinal(self) -> int {
        match self {
            Level::Novice => 1,
            Level::Apprentice => 2,
            Level::Journeyman => 3,
            Level::Expert => 4,
            Level::Master => 5,
        }
    }

    /// Decode a wire ordinal; exactly the values 1 to 5 are accepted.
    pub fn try_from(value: i32) -> (r: Result<Level, DecodeError>)
        ensures
            match r {
                Ok(v) => v.ordinal() == value,
                Err(e) => !(1 <= value <= 5) && e == DecodeError::InvalidEnumOrdinal(
                    "Level",
                    value as i64,
                ),
            },
    {
        match value {
            1 => Ok(Level::Novice),
            2 => Ok(Level::Apprentice),
            3 => Ok(Level::Journeyman),
            4 => Ok(Level::Expert),
            5 => Ok(Level::Master),
            _ => Err(DecodeError::InvalidEnumOrdinal("Level", value as i64)),
        }
    }

    /// The wire ordinal.
    pub fn to_i32(self) -> (r: i32)
        ensures
            r == self.ordinal(),
    {
        match self {
            Level::Novice => 1,
            Level::Apprentice => 2,
            Level::Journeyman => 3,
            Level::Expert => 4,
            Level::Master => 5,
        }
    }
}

} // verus!
