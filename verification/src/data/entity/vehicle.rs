//! Vehicle record shapes.

use vstd::prelude::*;

use crate::data::block::Block;

verus! {

/// Light-level limits a spawner applies to candidate positions.
#[derive(Clone, Copy, Debug, PartialEq, Eq, Structural, Default)]
pub struct CustomSpawnRules {
    pub block_light_limit: Option<i32>,
    pub sky_light_limit: Option<i32>,
}

/// State shared by every minecart kind.
#[derive(Clone, Debug)]
pub struct Minecart {
    pub display_offset: Option<i32>,
    pub display_state: Option<Block>,
}

} // verus!
