//! Pufferfish record shapes.

use vstd::prelude::*;

use crate::error::DecodeError;

verus! {

/// A pufferfish's persisted state.
#[derive(Clone, Debug, PartialEq, Eq, Structural)]
pub struct Pufferfish {
    pub from_bucket: bool,
    pub puff_state: PuffState,
}

/// How far a pufferfish is inflated, carried as a 32-bit ordinal.
#[derive(Clone, Copy, Debug, PartialEq, Eq, Structural)]
pub enum PuffState {
    Deflated,
    Halfway,
    PuffedUp,
}

impl PuffState {
    /// The wire ordinal of this value.
    pub open spec fn ordinal(self) -> int {
        match self {
            PuffState::Deflated => 0,
            PuffState::Halfway => 1,
            PuffState::PuffedUp => 2,
        }
    }

    /// Decode a wire ordinal; exactly the values 0 to 2 are accepted.
    pub fn try_from(value: i32) -> (r: Result<PuffState, DecodeError>)
        ensures
            match r {
                Ok(v) => v.ordinal() == value,
                Err(e) => !(0 <= value <= 2) && e == DecodeError::InvalidEnumOrdinal(
                    "PuffState",
                    value as i64,
                ),
            },
    {
        match value {
            0 => Ok(PuffState::Deflated),
            1 => Ok(PuffState::Halfway),
            2 => Ok(PuffState::PuffedUp),
            _ => Err(DecodeError::InvalidEnumOrdinal("PuffState", value as i64)),
        }
    }

    /// The wire ordinal.
    pub fn to_i32(self) -> (r: i32)
        ensures
            r == self.ordinal(),
    {
        match self {
            PuffState::Deflated => 0,
            PuffState::Halfway => 1,
            PuffState::PuffedUp => 2,
        }
    }
}

} // verus!
