//! Frog record shapes.

use vstd::prelude::*;

use crate::data::Identifier;
use crate::error::DecodeError;

verus! {

/// A frog's climate variant, carried as an identifier.
#[derive(Clone, Copy, Debug, PartialEq, Eq, Structural)]
pub enum Variant {
    Temperate,
    Warm,
    Cold,
}

impl Variant {
    /// The identifier path naming this value.
    pub open spec fn path_name(self) -> Seq<char> {
        match self {
            Variant::Temperate => "temperate"@,
            Variant::Warm => "warm"@,
            Variant::Cold => "cold"@,
        }
    }

    /// The identifier form: the default namespace and this value's name.
    pub fn to_identifier(self) -> (r: Identifier)
        ensures
            r.namespace@ == "minecraft"@,
            r.path@ == self.path_name(),
    {
        match self {
            Variant::Temperate => Identifier { namespace: String::from_str("minecraft"), path: String::from_str("temperate") },
            Variant::Warm => Identifier { namespace: String::from_str("minecraft"), path: String::from_str("warm") },
            Variant::Cold => Identifier { namespace: String::from_str("minecraft"), path: String::from_str("cold") },
        }
    }

    /// Decode an identifier; only the path is inspected, and exactly the
    /// known names are accepted.
    pub fn try_from(value: Identifier) -> (r: Result<Variant, DecodeError>)
        ensures
            match r {
                Ok(v) => v.path_name() == value.path@,
                Err(e) => (value.path@ != "temperate"@ && value.path@ != "warm"@ && value.path@ != "cold"@) && (e matches DecodeError::InvalidEnumText(
                    label,
                    text,
                    ) && label@ == "Variant"@ && text@ == value.path@),
            },
    {
        if crate::str_eq(value.path.as_str(), "temperate") {
            Ok(Variant::Temperate)
        } else if crate::str_eq(value.path.as_str(), "warm") {
            Ok(Variant::Warm)
        } else if crate::str_eq(value.path.as_str(), "cold") {
            Ok(Variant::Cold)
        } else {
            Err(DecodeError::InvalidEnumText("Variant", value.path))
        }
    }
}

} // verus!
