//! Cat record shapes.

use vstd::prelude::*;

use crate::data::entity::mob::Color;

verus! {

/// A cat's coat variant.
#[derive(Clone, Copy, Debug, PartialEq, Eq, Structural)]
pub enum Variant {
    White,
    Black,
    Red,
    Siamese,
    BritishShorthair,
    Calico,
    Persian,
    Ragdoll,
    Tabby,
    AllBlack,
    Jellie,
}

/// The collar color an unmarked cat record falls back to.
pub fn default_collar_color() -> (r: Color)
    ensures
        r == Color::Red,
{
    Color::Red
}

} // verus!
