//! Armadillo record shapes.

use vstd::prelude::*;

verus! {

/// An armadillo's rolling state, carried as lower-case text; unknown
/// text falls back to `Idle`.
#[derive(Clone, Copy, Debug, PartialEq, Eq, Structural)]
pub enum ArmadilloState {
    Idle,
    Scared,
    Unrolling,
}

impl ArmadilloState {
    /// Decode the state's text; anything but the three known names falls
    /// back to `Idle`, mirroring the persisted format's tolerance.
    pub fn from_str(value: &str) -> (r: ArmadilloState)
        ensures
            value@ == "idle"@ ==> r == ArmadilloState::Idle,
            value@ == "scared"@ ==> r == ArmadilloState::Scared,
            value@ == "unrolling"@ ==> r == ArmadilloState::Unrolling,
            value@ != "idle"@ && value@ != "scared"@ && value@ != "unrolling"@ ==> r
                == ArmadilloState::Idle,
    {
        proof {
            reveal_strlit("idle");
            reveal_strlit("scared");
            reveal_strlit("unrolling");
            assert("idle"@.len() == 4);
            assert("scared"@.len() == 6);
            assert("idle"@ != "scared"@);
        }
        if crate::str_eq(value, "scared") {
            ArmadilloState::Scared
        } else if crate::str_eq(value, "unrolling") {
            ArmadilloState::Unrolling
        } else {
            ArmadilloState::Idle
        }
    }
}

} // verus!
