//! Tropical-fish record shapes and their packed variant integer.

use vstd::prelude::*;

use crate::data::entity::mob::Color;
use crate::error::DecodeError;
use crate::types::u32_from_i32;
use crate::wire::u32_bits;

verus! {

/// A tropical fish's persisted state.
#[derive(Clone, Debug, PartialEq, Eq, Structural)]
pub struct TropicalFish {
    pub from_bucket: bool,
    pub variant: Variant,
}

/// A tropical fish's pattern. Its ordinal (what [`Pattern::from_i16`]
/// reads) and its packed wire form (what [`Pattern::to_i16`] writes) are
/// different integers; the format is asymmetric here.
#[derive(Clone, Copy, Debug, PartialEq, Eq, Structural)]
pub enum Pattern {
    Flopper,
    Kob,
    Stripey,
    Sunstreak,
    Glitter,
    Snooper,
    Blockfish,
    Dasher,
    Betty,
    Brinely,
    Clayfish,
    Spotty,
}

impl Pattern {
    /// The ordinal of this pattern.
    pub open spec fn ordinal(self) -> int {
        match self {
            Pattern::Flopper => 0,
            Pattern::Kob => 1,
            Pattern::Stripey => 2,
            Pattern::Sunstreak => 3,
            Pattern::Glitter => 4,
            Pattern::Snooper => 5,
            Pattern::Blockfish => 6,
            Pattern::Dasher => 7,
            Pattern::Betty => 8,
            Pattern::Brinely => 9,
            Pattern::Clayfish => 10,
            Pattern::Spotty => 11,
        }
    }

    /// The packed form: bit 0 holds the size class (1 for the patterns
    /// with even ordinals), bits 8 and up hold the shape index
    /// (the ordinal halved).
    pub open spec fn packed(self) -> int {
        (if self.ordinal() % 2 == 0 {
            1int
        } else {
            0int
        }) + 256 * (self.ordinal() / 2)
    }

    /// Decode a pattern ordinal: negative values are an error, ordinals 0
    /// to 11 name a pattern, and anything larger reads as no pattern.
    pub fn from_i16(value: i16) -> (r: Result<Option<Pattern>, DecodeError>)
        ensures
            match r {
                Ok(Some(p)) => p.ordinal() == value,
                Ok(None) => value > 11,
                Err(e) => value < 0 && e == DecodeError::InvalidEnumOrdinal(
                    "Pattern",
                    value as i64,
                ),
            },
    {
        if value < 0 {
            return Err(DecodeError::InvalidEnumOrdinal("Pattern", value as i64));
        }
        match value {
            0 => Ok(Some(Pattern::Flopper)),
            1 => Ok(Some(Pattern::Kob)),
            2 => Ok(Some(Pattern::Stripey)),
            3 => Ok(Some(Pattern::Sunstreak)),
            4 => Ok(Some(Pattern::Glitter)),
            5 => Ok(Some(Pattern::Snooper)),
            6 => Ok(Some(Pattern::Blockfish)),
            7 => Ok(Some(Pattern::Dasher)),
            8 => Ok(Some(Pattern::Betty)),
            9 => Ok(Some(Pattern::Brinely)),
            10 => Ok(Some(Pattern::Clayfish)),
            11 => Ok(Some(Pattern::Spotty)),
            _ => Ok(None),
        }
    }

    /// The packed wire form (see [`Pattern::packed`]): a size bit and a
    /// shape index in separate bytes.
    pub fn to_i16(self) -> (r: i16)
        ensures
            r == self.packed(),
    {
        let size: i16 = match self {
            Pattern::Flopper | Pattern::Stripey | Pattern::Glitter | Pattern::Blockfish
                | Pattern::Betty | Pattern::Clayfish => 1,
            _ => 0,
        };
        let shape: i16 = match self {
            Pattern::Flopper | Pattern::Kob => 0,
            Pattern::Stripey | Pattern::Sunstreak => 1,
            Pattern::Glitter | Pattern::Snooper => 2,
            Pattern::Blockfish | Pattern::Dasher => 3,
            Pattern::Betty | Pattern::Brinely => 4,
            Pattern::Clayfish | Pattern::Spotty => 5,
        };
        size + shape * 256
    }
}

/// A tropical fish's variant, sharing one 32-bit wire integer: a pattern
/// ordinal in the low 16 bits, the base color's byte above it, and the
/// pattern color's byte on top.
#[derive(Clone, Debug, PartialEq, Eq, Structural)]
pub struct Variant {
    pub pattern: Option<Pattern>,
    pub base_color: Color,
    pub pattern_color: Color,
}

impl Variant {
    /// Decode the packed variant. The low 16 bits are read as a signed
    /// pattern ordinal, and each color byte is validated on its own; the
    /// checks run in that order.
    pub fn try_from(value: i32) -> (r: Result<Variant, DecodeError>)
        ensures
            ({
                let u = u32_bits(value);
                let low16 = u % 0x10000;
                let b2 = (u / 0x10000) % 256;
                let b3 = (u / 0x1000000) % 256;
                match r {
                    Ok(v) => {
                        &&& low16 < 0x8000
                        &&& match v.pattern {
                            Some(p) => p.ordinal() == low16,
                            None => low16 > 11,
                        }
                        &&& v.base_color.ordinal() == b2 && b2 <= 15
                        &&& v.pattern_color.ordinal() == b3 && b3 <= 15
                    },
                    Err(e) => if low16 >= 0x8000 {
                        e == DecodeError::InvalidEnumOrdinal("Pattern", (low16 - 0x10000) as i64)
                    } else if b2 > 15 {
                        e == DecodeError::InvalidEnumOrdinal(
                            "Color",
                            if b2 < 128 {
                                b2 as i64
                            } else {
                                (b2 - 256) as i64
                            },
                        )
                    } else {
                        b3 > 15 && e == DecodeError::InvalidEnumOrdinal(
                            "Color",
                            if b3 < 128 {
                                b3 as i64
                            } else {
                                (b3 - 256) as i64
                            },
                        )
                    },
                }
            }),
    {
        let u = u32_from_i32(value);
        let low16 = u % 0x10000;
        let pattern_raw: i16 = if low16 < 0x8000 {
            low16 as i16
        } else {
            ((low16 as i32) - 0x10000) as i16
        };
        let pattern = match Pattern::from_i16(pattern_raw) {
            Ok(p) => p,
            Err(e) => {
                return Err(e);
            },
        };
        let b2 = (u / 0x10000) % 256;
        let base_raw: i8 = if b2 < 128 {
            b2 as i8
        } else {
            ((b2 as i32) - 256) as i8
        };
        let base_color = match Color::try_from(base_raw) {
            Ok(c) => c,
            Err(e) => {
                return Err(e);
            },
        };
        let b3 = (u / 0x1000000) % 256;
        let top_raw: i8 = if b3 < 128 {
            b3 as i8
        } else {
            ((b3 as i32) - 256) as i8
        };
        let pattern_color = match Color::try_from(top_raw) {
            Ok(c) => c,
            Err(e) => {
                return Err(e);
            },
        };
        Ok(Variant { pattern, base_color, pattern_color })
    }

    /// The packed wire form: the pattern's packed bits (zero when absent),
    /// the base color's byte, and the pattern color's byte.
    pub fn to_i32(self) -> (r: i32)
        ensures
            r == (match self.pattern {
                Some(p) => p.packed(),
                None => 0int,
            }) + 0x10000 * self.base_color.ordinal() + 0x1000000 * self.pattern_color.ordinal(),
    {
        let low: i32 = match self.pattern {
            Some(p) => p.to_i16() as i32,
            None => 0,
        };
        low + 0x10000 * self.base_color.to_i8() as i32 + 0x1000000 * (self.pattern_color.to_i8()
            as i32)
    }
}

} // verus!
