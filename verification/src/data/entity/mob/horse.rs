//! Horse record shapes and the packed color pair.

use vstd::prelude::*;

use crate::error::DecodeError;
use crate::types::u32_from_i32;
use crate::wire::u32_bits;

verus! {

/// A horse's coat color, the low byte of the packed variant.
#[derive(Clone, Copy, Debug, PartialEq, Eq, Structural)]
pub enum Color {
    White,
    Creamy,
    Chestnut,
    Brown,
    Black,
    Gray,
    DarkBrown,
}

impl Color {
    /// The wire ordinal of this value.
    pub open spec fn ordinal(self) -> int {
        match self {
            Color::White => 0,
            Color::Creamy => 1,
            Color::Chestnut => 2,
            Color::Brown => 3,
            Color::Black => 4,
            Color::Gray => 5,
            Color::DarkBrown => 6,
        }
    }

    /// Decode a wire ordinal; exactly the values 0 to 6 are accepted.
    pub fn try_from(value: i32) -> (r: Result<Color, DecodeError>)
        ensures
            match r {
                Ok(v) => v.ordinal() == value,
                Err(e) => !(0 <= value <= 6) && e == DecodeError::InvalidEnumOrdinal(
                    "Color",
                    value as i64,
                ),
            },
    {
        match value {
            0 => Ok(Color::White),
            1 => Ok(Color::Creamy),
            2 => Ok(Color::Chestnut),
            3 => Ok(Color::Brown),
            4 => Ok(Color::Black),
            5 => Ok(Color::Gray),
            6 => Ok(Color::DarkBrown),
            _ => Err(DecodeError::InvalidEnumOrdinal("Color", value as i64)),
        }
    }

    /// The wire ordinal.
    pub fn to_i32(self) -> (r: i32)
        ensures
            r == self.ordinal(),
    {
        match self {
            Color::White => 0,
            Color::Creamy => 1,
            Color::Chestnut => 2,
            Color::Brown => 3,
            Color::Black => 4,
            Color::Gray => 5,
            Color::DarkBrown => 6,
        }
    }
}

/// A horse's markings, the second byte of the packed variant.
#[derive(Clone, Copy, Debug, PartialEq, Eq, Structural)]
pub enum Markings {
    Plain,
    White,
    WhiteField,
    WhiteDots,
    BlackDots,
}

impl Markings {
    /// The wire ordinal of this value.
    pub open spec fn ordinal(self) -> int {
        match self {
            Markings::Plain => 0,
            Markings::White => 1,
            Markings::WhiteField => 2,
            Markings::WhiteDots => 3,
            Markings::BlackDots => 4,
        }
    }

    /// Decode a wire ordinal; exactly the values 0 to 4 are accepted.
    pub fn try_from(value: i32) -> (r: Result<Markings, DecodeError>)
        ensures
            match r {
                Ok(v) => v.ordinal() == value,
                Err(e) => !(0 <= value <= 4) && e == DecodeError::InvalidEnumOrdinal(
                    "Markings",
                    value as i64,
                ),
            },
    {
        match value {
            0 => Ok(Markings::Plain),
            1 => Ok(Markings::White),
            2 => Ok(Markings::WhiteField),
            3 => Ok(Markings::WhiteDots),
            4 => Ok(Markings::BlackDots),
            _ => Err(DecodeError::InvalidEnumOrdinal("Markings", value as i64)),
        }
    }

    /// The wire ordinal.
    pub fn to_i32(self) -> (r: i32)
        ensures
            r == self.ordinal(),
    {
        match self {
            Markings::Plain => 0,
            Markings::White => 1,
            Markings::WhiteField => 2,
            Markings::WhiteDots => 3,
            Markings::BlackDots => 4,
        }
    }
}

/// A horse's coat color and markings, sharing one 32-bit wire integer:
/// the color in bits 0 to 7, the markings in bits 8 to 15.
#[derive(Clone, Copy, Debug, PartialEq, Eq, Structural)]
pub struct HorseColors {
    pub color: Color,
    pub markings: Markings,
}

impl HorseColors {
    /// Decode the packed pair; each byte is validated against its own
    /// enumeration independently, the color first.
    pub fn try_from(value: i32) -> (r: Result<HorseColors, DecodeError>)
        ensures
            ({
                let c = u32_bits(value) % 256;
                let m = (u32_bits(value) / 256) % 256;
                match r {
                    Ok(h) => h.color.ordinal() == c && h.markings.ordinal() == m,
                    Err(e) => if c > 6 {
                        e == DecodeError::InvalidEnumOrdinal("Color", c as i64)
                    } else {
                        m > 4 && e == DecodeError::InvalidEnumOrdinal("Markings", m as i64)
                    },
                }
            }),
    {
        let u = u32_from_i32(value);
        let c = (u % 256) as i32;
        let m = ((u / 256) % 256) as i32;
        let color = match Color::try_from(c) {
            Ok(color) => color,
            Err(e) => {
                return Err(e);
            },
        };
        let markings = match Markings::try_from(m) {
            Ok(markings) => markings,
            Err(e) => {
                return Err(e);
            },
        };
        Ok(HorseColors { color, markings })
    }

    /// The packed wire form: color in the low byte, markings in the next.
    pub fn to_i32(self) -> (r: i32)
        ensures
            r == self.color.ordinal() + 256 * self.markings.ordinal(),
    {
        self.color.to_i32() + 256 * self.markings.to_i32()
    }
}

} // verus!
