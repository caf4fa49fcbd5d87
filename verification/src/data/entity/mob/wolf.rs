//! Wolf record shapes.

use vstd::prelude::*;

use crate::data::Identifier;
use crate::data::entity::mob::Color;
use crate::error::DecodeError;

verus! {

/// A wolf's coat variant, carried as an identifier.
#[derive(Clone, Copy, Debug, PartialEq, Eq, Structural, Default)]
pub enum Variant {
    #[default]
    Pale,
    Ashen,
    Black,
    Chestnut,
    Rusty,
    Snowy,
    Spotted,
    Striped,
    Woods,
}

impl Variant {
    /// The identifier path naming this value.
    pub open spec fn path_name(self) -> Seq<char> {
        match self {
            Variant::Pale => "pale"@,
            Variant::Ashen => "ashen"@,
            Variant::Black => "black"@,
            Variant::Chestnut => "chestnut"@,
            Variant::Rusty => "rusty"@,
            Variant::Snowy => "snowy"@,
            Variant::Spotted => "spotted"@,
            Variant::Striped => "striped"@,
            Variant::Woods => "woods"@,
        }
    }

    /// The identifier form: the default namespace and this value's name.
    pub fn to_identifier(self) -> (r: Identifier)
        ensures
            r.namespace@ == "minecraft"@,
            r.path@ == self.path_name(),
    {
        match self {
            Variant::Pale => Identifier { namespace: String::from_str("minecraft"), path: String::from_str("pale") },
            Variant::Ashen => Identifier { namespace: String::from_str("minecraft"), path: String::from_str("ashen") },
            Variant::Black => Identifier { namespace: String::from_str("minecraft"), path: String::from_str("black") },
            Variant::Chestnut => Identifier { namespace: String::from_str("minecraft"), path: String::from_str("chestnut") },
            Variant::Rusty => Identifier { namespace: String::from_str("minecraft"), path: String::from_str("rusty") },
            Variant::Snowy => Identifier { namespace: String::from_str("minecraft"), path: String::from_str("snowy") },
            Variant::Spotted => Identifier { namespace: String::from_str("minecraft"), path: String::from_str("spotted") },
            Variant::Striped => Identifier { namespace: String::from_str("minecraft"), path: String::from_str("striped") },
            Variant::Woods => Identifier { namespace: String::from_str("minecraft"), path: String::from_str("woods") },
        }
    }

    /// Decode an identifier; only the path is inspected, and exactly the
    /// known names are accepted.
    pub fn try_from(value: Identifier) -> (r: Result<Variant, DecodeError>)
        ensures
            match r {
                Ok(v) => v.path_name() == value.path@,
                Err(e) => (value.path@ != "pale"@ && value.path@ != "ashen"@ && value.path@ != "black"@ && value.path@ != "chestnut"@ && value.path@ != "rusty"@ && value.path@ != "snowy"@ && value.path@ != "spotted"@ && value.path@ != "striped"@ && value.path@ != "woods"@) && (e matches DecodeError::InvalidEnumText(
                    label,
                    text,
                    ) && label@ == "Variant"@ && text@ == value.path@),
            },
    {
        if crate::str_eq(value.path.as_str(), "pale") {
            Ok(Variant::Pale)
        } else if crate::str_eq(value.path.as_str(), "ashen") {
            Ok(Variant::Ashen)
        } else if crate::str_eq(value.path.as_str(), "black") {
            Ok(Variant::Black)
        } else if crate::str_eq(value.path.as_str(), "chestnut") {
            Ok(Variant::Chestnut)
        } else if crate::str_eq(value.path.as_str(), "rusty") {
            Ok(Variant::Rusty)
        } else if crate::str_eq(value.path.as_str(), "snowy") {
            Ok(Variant::Snowy)
        } else if crate::str_eq(value.path.as_str(), "spotted") {
            Ok(Variant::Spotted)
        } else if crate::str_eq(value.path.as_str(), "striped") {
            Ok(Variant::Striped)
        } else if crate::str_eq(value.path.as_str(), "woods") {
            Ok(Variant::Woods)
        } else {
            Err(DecodeError::InvalidEnumText("Variant", value.path))
        }
    }
}

/// A wolf's voice variant.
#[derive(Clone, Copy, Debug, PartialEq, Eq, Structural)]
pub enum SoundVariant {
    Classic,
    Angry,
    Big,
    Cute,
    Grumpy,
    Puglin,
    Sad,
}

/// The collar color an unmarked wolf record falls back to.
pub fn default_color() -> (r: Color)
    ensures
        r == Color::Red,
{
    Color::Red
}

} // verus!
