//! Mooshroom record shapes.

use vstd::prelude::*;

use crate::data::Identifier;

verus! {

/// A suspicious-stew effect a mooshroom carries.
#[derive(Clone, Debug)]
pub struct StewEffect {
    pub id: Option<Identifier>,
    pub duration: Option<i32>,
}

} // verus!
