//! Rabbit record shapes.

use vstd::prelude::*;

use crate::error::DecodeError;

verus! {

/// A rabbit's kind; `Toast` has no wire ordinal and is carried as an
/// absent value.
#[derive(Clone, Copy, Debug, PartialEq, Eq, Structural)]
pub enum RabbitType {
    Brown,
    White,
    Black,
    WhiteSplotched,
    Gold,
    Salt,
    Evil,
    Toast,
}

impl RabbitType {
    /// The wire ordinal of this kind; `Evil` sits apart at 99 and `Toast`
    /// at 100, the latter never appearing on the wire (see
    /// [`RabbitType::to_wire`]).
    pub open spec fn ordinal(self) -> int {
        match self {
            RabbitType::Brown => 0,
            RabbitType::White => 1,
            RabbitType::Black => 2,
            RabbitType::WhiteSplotched => 3,
            RabbitType::Gold => 4,
            RabbitType::Salt => 5,
            RabbitType::Evil => 99,
            RabbitType::Toast => 100,
        }
    }

    /// Decode an optional wire ordinal: an absent value means `Toast`, and
    /// exactly the ordinals 0 to 5, 99 and 100 are accepted.
    pub fn try_from(value: Option<i32>) -> (r: Result<RabbitType, DecodeError>)
        ensures
            match r {
                Ok(v) => match value {
                    Some(raw) => v.ordinal() == raw,
                    None => v == RabbitType::Toast,
                },
                Err(e) => {
                    &&& value matches Some(raw) && !(0 <= raw <= 5 || raw == 99 || raw == 100)
                    &&& value matches Some(raw) && e == DecodeError::InvalidEnumOrdinal(
                        "RabbitType",
                        raw as i64,
                    )
                },
            },
    {
        match value {
            Some(raw) => match raw {
                0 => Ok(RabbitType::Brown),
                1 => Ok(RabbitType::White),
                2 => Ok(RabbitType::Black),
                3 => Ok(RabbitType::WhiteSplotched),
                4 => Ok(RabbitType::Gold),
                5 => Ok(RabbitType::Salt),
                99 => Ok(RabbitType::Evil),
                100 => Ok(RabbitType::Toast),
                _ => Err(DecodeError::InvalidEnumOrdinal("RabbitType", raw as i64)),
            },
            None => Ok(RabbitType::Toast),
        }
    }

    /// The wire form: `Toast` is written as an absent value, every other
    /// kind as its ordinal.
    pub fn to_wire(self) -> (r: Option<i32>)
        ensures
            match self {
                RabbitType::Toast => r is None,
                _ => r matches Some(raw) && raw == self.ordinal(),
            },
    {
        match self {
            RabbitType::Toast => None,
            other => Some(other.to_i32()),
        }
    }

    /// The wire ordinal.
    pub fn to_i32(self) -> (r: i32)
        ensures
            r == self.ordinal(),
    {
        match self {
            RabbitType::Brown => 0,
            RabbitType::White => 1,
            RabbitType::Black => 2,
            RabbitType::WhiteSplotched => 3,
            RabbitType::Gold => 4,
            RabbitType::Salt => 5,
            RabbitType::Evil => 99,
            RabbitType::Toast => 100,
        }
    }
}

} // verus!
