//! Axolotl record shapes.

use vstd::prelude::*;

use crate::error::DecodeError;

verus! {

/// An axolotl's color variant, carried as a 32-bit ordinal.
#[derive(Clone, Copy, Debug, PartialEq, Eq, Structural)]
pub enum Variant {
    Lucy,
    Wind,
    Gold,
    Cyan,
    Blue,
}

impl Variant {
    /// The wire ordinal of this value.
    pub open spec fn ordinal(self) -> int {
        match self {
            Variant::Lucy => 0,
            Variant::Wind => 1,
            Variant::Gold => 2,
            Variant::Cyan => 3,
            Variant::Blue => 4,
        }
    }

    /// Decode a wire ordinal; exactly the values 0 to 4 are accepted.
    pub fn try_from(value: i32) -> (r: Result<Variant, DecodeError>)
        ensures
            match r {
                Ok(v) => v.ordinal() == value,
                Err(e) => !(0 <= value <= 4) && e == DecodeError::InvalidEnumOrdinal(
                    "Variant",
                    value as i64,
                ),
            },
    {
        match value {
            0 => Ok(Variant::Lucy),
            1 => Ok(Variant::Wind),
            2 => Ok(Variant::Gold),
            3 => Ok(Variant::Cyan),
            4 => Ok(Variant::Blue),
            _ => Err(DecodeError::InvalidEnumOrdinal("Variant", value as i64)),
        }
    }

    /// The wire ordinal.
    pub fn to_i32(self) -> (r: i32)
        ensures
            r == self.ordinal(),
    {
        match self {
            Variant::Lucy => 0,
            Variant::Wind => 1,
            Variant::Gold => 2,
            Variant::Cyan => 3,
            Variant::Blue => 4,
        }
    }
}

} // verus!
