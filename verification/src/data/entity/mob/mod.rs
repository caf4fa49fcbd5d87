//! Mob record shapes and the conversions they share.

use vstd::prelude::*;

pub mod armadillo;
pub mod axolotl;
pub mod cat;
pub mod copper_golem;
pub mod ender_dragon;
pub mod enderman;
pub mod frog;
pub mod horse;
pub mod llama;
pub mod mannequin;
pub mod memories;
pub mod mooshroom;
pub mod panda;
pub mod parrot;
pub mod pufferfish;
pub mod rabbit;
pub mod salmon;
pub mod shulker;
pub mod tropical_fish;
pub mod villager;
pub mod wolf;
pub mod zombie;

use crate::data::Identifier;
use crate::error::DecodeError;

verus! {

/// A dye color, carried as a signed byte ordinal.
#[derive(Clone, Copy, Debug, PartialEq, Eq, Structural)]
pub enum Color {
    White,
    Orange,
    Magenta,
    LightBlue,
    Yellow,
    Lime,
    Pink,
    Gray,
    LightGray,
    Cyan,
    Purple,
    Blue,
    Brown,
    Green,
    Red,
    Black,
}

impl Color {
    /// The wire ordinal of this value.
    pub open spec fn ordinal(self) -> int {
        match self {
            Color::White => 0,
            Color::Orange => 1,
            Color::Magenta => 2,
            Color::LightBlue => 3,
            Color::Yellow => 4,
            Color::Lime => 5,
            Color::Pink => 6,
            Color::Gray => 7,
            Color::LightGray => 8,
            Color::Cyan => 9,
            Color::Purple => 10,
            Color::Blue => 11,
            Color::Brown => 12,
            Color::Green => 13,
            Color::Red => 14,
            Color::Black => 15,
        }
    }

    /// Decode a wire ordinal; exactly the values 0 to 15 are accepted.
    pub fn try_from(value: i8) -> (r: Result<Color, DecodeError>)
        ensures
            match r {
                Ok(v) => v.ordinal() == value,
                Err(e) => !(0 <= value <= 15) && e == DecodeError::InvalidEnumOrdinal(
                    "Color",
                    value as i64,
                ),
            },
    {
        match value {
            0 => Ok(Color::White),
            1 => Ok(Color::Orange),
            2 => Ok(Color::Magenta),
            3 => Ok(Color::LightBlue),
            4 => Ok(Color::Yellow),
            5 => Ok(Color::Lime),
            6 => Ok(Color::Pink),
            7 => Ok(Color::Gray),
            8 => Ok(Color::LightGray),
            9 => Ok(Color::Cyan),
            10 => Ok(Color::Purple),
            11 => Ok(Color::Blue),
            12 => Ok(Color::Brown),
            13 => Ok(Color::Green),
            14 => Ok(Color::Red),
            15 => Ok(Color::Black),
            _ => Err(DecodeError::InvalidEnumOrdinal("Color", value as i64)),
        }
    }

    /// The wire ordinal.
    pub fn to_i8(self) -> (r: i8)
        ensures
            r == self.ordinal(),
    {
        match self {
            Color::White => 0,
            Color::Orange => 1,
            Color::Magenta => 2,
            Color::LightBlue => 3,
            Color::Yellow => 4,
            Color::Lime => 5,
            Color::Pink => 6,
            Color::Gray => 7,
            Color::LightGray => 8,
            Color::Cyan => 9,
            Color::Purple => 10,
            Color::Blue => 11,
            Color::Brown => 12,
            Color::Green => 13,
            Color::Red => 14,
            Color::Black => 15,
        }
    }
}

/// A boolean persisted as a signed byte, zero meaning false.
#[derive(Clone, Copy, Debug, PartialEq, Eq, Structural)]
pub struct I8Bool {
    pub value: bool,
}

impl I8Bool {
    /// The persisted byte: 1 for true, 0 for false.
    pub fn to_i8(self) -> (r: i8)
        ensures
            r == if self.value { 1int } else { 0int },
    {
        if self.value {
            1
        } else {
            0
        }
    }

    /// Read a persisted byte; any nonzero value means true.
    pub fn from_i8(raw: i8) -> (r: I8Bool)
        ensures
            r.value == (raw != 0),
    {
        I8Bool { value: raw != 0 }
    }
}

/// One active potion effect.
#[derive(Debug)]
pub struct PotionEffect {
    pub ambient: Option<bool>,
    pub amplifier: Option<i8>,
    pub duration: Option<i32>,
    pub hidden_effect: Option<Box<PotionEffect>>,
    pub id: Option<Identifier>,
    pub show_icon: Option<bool>,
    pub show_particles: Option<bool>,
}

/// The dye color an unmarked sheep record falls back to.
pub fn default_sheep_color() -> (r: Color)
    ensures
        r == Color::White,
{
    Color::White
}

} // verus!
