//! Projectile record shapes.

use vstd::prelude::*;

use crate::error::DecodeError;

verus! {

/// Which game modes may pick an arrow up, carried as a signed byte
/// ordinal.
#[derive(Clone, Copy, Debug, PartialEq, Eq, Structural)]
pub enum PickupGamemode {
    Disallowed,
    Both,
    Creative,
}

impl PickupGamemode {
    /// The wire ordinal of this value.
    pub open spec fn ordinal(self) -> int {
        match self {
            PickupGamemode::Disallowed => 0,
            PickupGamemode::Both => 1,
            PickupGamemode::Creative => 2,
        }
    }

    /// Decode a wire ordinal; exactly the values 0 to 2 are accepted.
    pub fn try_from(value: i8) -> (r: Result<PickupGamemode, DecodeError>)
        ensures
            match r {
                Ok(v) => v.ordinal() == value,
                Err(e) => !(0 <= value <= 2) && e == DecodeError::InvalidEnumOrdinal(
                    "PickupGamemode",
                    value as i64,
                ),
            },
    {
        match value {
            0 => Ok(PickupGamemode::Disallowed),
            1 => Ok(PickupGamemode::Both),
            2 => Ok(PickupGamemode::Creative),
            _ => Err(DecodeError::InvalidEnumOrdinal("PickupGamemode", value as i64)),
        }
    }

    /// The wire ordinal.
    pub fn to_i8(self) -> (r: i8)
        ensures
            r == self.ordinal(),
    {
        match self {
            PickupGamemode::Disallowed => 0,
            PickupGamemode::Both => 1,
            PickupGamemode::Creative => 2,
        }
    }
}

} // verus!
