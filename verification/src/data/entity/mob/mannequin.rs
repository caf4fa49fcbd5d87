//! Mannequin record shapes.

use vstd::prelude::*;

use crate::data::Identifier;
use crate::data::player::Model;

verus! {

/// A mannequin's displayed profile.
#[derive(Clone, Debug)]
pub struct MannequinProfile {
    pub texture: Identifier,
    pub cape: Option<Identifier>,
    pub elytra: Option<Identifier>,
    pub model: Model,
}

/// Which hand is the main hand.
#[derive(Clone, Copy, Debug, PartialEq, Eq, Structural)]
pub enum Hand {
    Left,
    Right,
}

/// A mannequin's pose.
#[derive(Clone, Copy, Debug, PartialEq, Eq, Structural)]
pub enum Pose {
    Standing,
    Crouching,
    Swiming,
    FallFlying,
    Sleeping,
}

} // verus!
