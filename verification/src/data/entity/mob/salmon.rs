//! Salmon record shapes.

use vstd::prelude::*;

verus! {

/// A salmon's size class.
#[derive(Clone, Copy, Debug, PartialEq, Eq, Structural)]
pub enum SalmonSize {
    Small,
    Medium,
    Large,
}

/// A salmon's persisted state.
#[derive(Clone, Copy, Debug, PartialEq, Eq, Structural)]
pub struct Salmon {
    pub from_bucket: bool,
    pub size: SalmonSize,
}

} // verus!
