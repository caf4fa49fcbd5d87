//! Shulker record shapes.

use vstd::prelude::*;

use crate::OneOf;
use crate::data::block::Face;
use crate::data::entity::mob::Color;
use crate::error::DecodeError;

verus! {

/// A shulker's persisted state: its attachment face, its color (a dye
/// color or the extra purple), and how far it peeks.
#[derive(Clone, Debug)]
pub struct Shulker {
    pub attach_face: Face,
    pub color: OneOf<Color, ShulkerPurple>,
    pub peek: i8,
}

/// The extra shulker color outside the dye palette, carried as the byte 16.
#[derive(Clone, Copy, Debug, PartialEq, Eq, Structural)]
pub struct ShulkerPurple;

impl ShulkerPurple {
    /// Decode the extra color's byte; exactly 16 is accepted.
    pub fn try_from(value: i8) -> (r: Result<ShulkerPurple, DecodeError>)
        ensures
            match r {
                Ok(_) => value == 16,
                Err(e) => value != 16 && e == DecodeError::InvalidEnumOrdinal(
                    "ShulkerPurple",
                    value as i64,
                ),
            },
    {
        if value == 16 {
            Ok(ShulkerPurple)
        } else {
            Err(DecodeError::InvalidEnumOrdinal("ShulkerPurple", value as i64))
        }
    }

    /// The wire byte.
    pub fn to_i8(self) -> (r: i8)
        ensures
            r == 16,
    {
        16
    }
}

} // verus!
