//! Enderman record shapes.

use vstd::prelude::*;

use std::collections::HashMap;

use crate::data::Identifier;

verus! {

/// The block an enderman carries.
#[derive(Clone, Debug)]
pub struct CarriedBlock {
    pub name: Identifier,
    pub properties: HashMap<String, String>,
}

} // verus!
