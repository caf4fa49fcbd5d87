//! Panda record shapes.

use vstd::prelude::*;

verus! {

/// A panda personality gene.
#[derive(Clone, Copy, Debug, PartialEq, Eq, Structural)]
pub enum Gene {
    Normal,
    Lazy,
    Worried,
    Playful,
    Brown,
    Weak,
    Aggressive,
}

/// A panda's two personality genes.
#[derive(Clone, Copy, Debug, PartialEq, Eq, Structural)]
pub struct Panda {
    pub hidden_gene: Gene,
    pub main_gene: Gene,
}

} // verus!
