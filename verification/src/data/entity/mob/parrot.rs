//! Parrot record shapes.

use vstd::prelude::*;

use crate::error::DecodeError;

verus! {

/// A parrot's color variant, carried as a 32-bit ordinal.
#[derive(Clone, Copy, Debug, PartialEq, Eq, Structural)]
pub enum Variant {
    RedBlue,
    Blue,
    Green,
    YellowBlue,
    Gray,
}

impl Variant {
    /// The wire ordinal of this value.
    pub open spec fn ordinal(self) -> int {
        match self {
            Variant::RedBlue => 0,
            Variant::Blue => 1,
            Variant::Green => 2,
            Variant::YellowBlue => 3,
            Variant::Gray => 4,
        }
    }

    /// Decode a wire ordinal; exactly the values 0 to 4 are accepted.
    pub fn try_from(value: i32) -> (r: Result<Variant, DecodeError>)
        ensures
            match r {
                Ok(v) => v.ordinal() == value,
                Err(e) => !(0 <= value <= 4) && e == DecodeError::InvalidEnumOrdinal(
                    "Variant",
                    value as i64,
                ),
            },
    {
        match value {
            0 => Ok(Variant::RedBlue),
            1 => Ok(Variant::Blue),
            2 => Ok(Variant::Green),
            3 => Ok(Variant::YellowBlue),
            4 => Ok(Variant::Gray),
            _ => Err(DecodeError::InvalidEnumOrdinal("Variant", value as i64)),
        }
    }

    /// The wire ordinal.
    pub fn to_i32(self) -> (r: i32)
        ensures
            r == self.ordinal(),
    {
        match self {
            Variant::RedBlue => 0,
            Variant::Blue => 1,
            Variant::Green => 2,
            Variant::YellowBlue => 3,
            Variant::Gray => 4,
        }
    }
}

} // verus!
