//! Llama record shapes.

use vstd::prelude::*;

use crate::error::DecodeError;

verus! {

/// A llama's coat variant, carried as a 32-bit ordinal.
#[derive(Clone, Copy, Debug, PartialEq, Eq, Structural)]
pub enum Variant {
    Creamy,
    White,
    Brown,
    Gray,
}

impl Variant {
    /// The wire ordinal of this value.
    pub open spec fn ordinal(self) -> int {
        match self {
            Variant::Creamy => 0,
            Variant::White => 1,
            Variant::Brown => 2,
            Variant::Gray => 3,
        }
    }

    /// Decode a wire ordinal; exactly the values 0 to 3 are accepted.
    pub fn try_from(value: i32) -> (r: Result<Variant, DecodeError>)
        ensures
            match r {
                Ok(v) => v.ordinal() == value,
                Err(e) => !(0 <= value <= 3) && e == DecodeError::InvalidEnumOrdinal(
                    "Variant",
                    value as i64,
                ),
            },
    {
        match value {
            0 => Ok(Variant::Creamy),
            1 => Ok(Variant::White),
            2 => Ok(Variant::Brown),
            3 => Ok(Variant::Gray),
            _ => Err(DecodeError::InvalidEnumOrdinal("Variant", value as i64)),
        }
    }

    /// The wire ordinal.
    pub fn to_i32(self) -> (r: i32)
        ensures
            r == self.ordinal(),
    {
        match self {
            Variant::Creamy => 0,
            Variant::White => 1,
            Variant::Brown => 2,
            Variant::Gray => 3,
        }
    }
}

} // verus!
