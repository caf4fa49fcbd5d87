//! Block states, block entities, and attachment faces.

use vstd::prelude::*;

use crate::error::DecodeError;

verus! {

/// The closed set of block states. No members are declared yet in this
/// schema revision; the placeholder variant stands for a state not yet
/// modeled.
#[derive(Clone, Copy, Debug, PartialEq, Eq, Structural)]
pub enum Block {
    Unspecified,
}

/// The closed set of block-entity payloads. No members are declared yet
/// in this schema revision; the placeholder variant stands for a payload
/// not yet modeled.
#[derive(Clone, Copy, Debug, PartialEq, Eq, Structural)]
pub enum BlockEntity {
    Unspecified,
}

/// A face a block entity can attach to, carried as a signed byte ordinal.
#[derive(Clone, Copy, Debug, PartialEq, Eq, Structural)]
pub enum Face {
    Top,
    Bottom,
    North,
    South,
    West,
    East,
}

impl Face {
    /// The wire ordinal of this value.
    pub open spec fn ordinal(self) -> int {
        match self {
            Face::Top => 0,
            Face::Bottom => 1,
            Face::North => 2,
            Face::South => 3,
            Face::West => 4,
            Face::East => 5,
        }
    }

    /// Decode a wire ordinal; exactly the values 0 to 5 are accepted.
    pub fn try_from(value: i8) -> (r: Result<Face, DecodeError>)
        ensures
            match r {
                Ok(v) => v.ordinal() == value,
                Err(e) => !(0 <= value <= 5) && e == DecodeError::InvalidEnumOrdinal(
                    "Face",
                    value as i64,
                ),
            },
    {
        match value {
            0 => Ok(Face::Top),
            1 => Ok(Face::Bottom),
            2 => Ok(Face::North),
            3 => Ok(Face::South),
            4 => Ok(Face::West),
            5 => Ok(Face::East),
            _ => Err(DecodeError::InvalidEnumOrdinal("Face", value as i64)),
        }
    }

    /// The wire ordinal.
    pub fn to_i8(self) -> (r: i8)
        ensures
            r == self.ordinal(),
    {
        match self {
            Face::Top => 0,
            Face::Bottom => 1,
            Face::North => 2,
            Face::South => 3,
            Face::West => 4,
            Face::East => 5,
        }
    }
}

} // verus!
