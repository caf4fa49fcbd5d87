//! Particle effects.

use vstd::prelude::*;

verus! {

/// The closed set of particle effects. No members are declared yet in
/// this schema revision; the placeholder variant stands for an effect not
/// yet modeled.
#[derive(Clone, Copy, Debug, PartialEq, Eq, Structural)]
pub enum Particle {
    Unspecified,
}

} // verus!
