//! Zombie record shapes.

use vstd::prelude::*;

verus! {

/// State shared by every zombie kind.
#[derive(Clone, Debug, PartialEq, Eq, Structural)]
pub struct Zombie {
    pub can_break_doors: bool,
    pub drowned_conversion_time: i32,
    pub in_water_time: i32,
    pub is_baby: Option<bool>,
}

} // verus!
