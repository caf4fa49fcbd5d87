//! Hanging-entity record shapes.

use vstd::prelude::*;

use crate::data::Identifier;
use crate::data::block::Face;

verus! {

/// A painting: the face it hangs on and its art variant.
#[derive(Clone, Debug)]
pub struct Painting {
    pub facing: Face,
    pub variant: Identifier,
}

} // verus!
