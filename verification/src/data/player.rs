//! Player record shapes.

use vstd::prelude::*;

use crate::OneOf;
use crate::data::Identifier;
use crate::data::entity::McUuid;
use crate::error::DecodeError;

verus! {

/// A player's progress toward attracting the warden.
#[derive(Clone, Copy, Debug, PartialEq, Eq, Structural)]
pub struct WardenSpawnTracker {
    pub warning_level: i32,
    pub cooldown_ticks: i32,
    pub ticks_since_last_warning: i32,
}

/// A player's recipe-book state.
#[derive(Clone, Debug)]
pub struct RecipeBook {
    pub recipes: Vec<Identifier>,
    pub to_be_displayed: Vec<Identifier>,
    pub is_filtering_craftable: bool,
    pub is_gui_open: bool,
    pub is_furnace_filtering_craftable: bool,
    pub is_furnace_gui_open: bool,
    pub is_blasting_furnace_filtering_craftable: bool,
    pub is_blasting_furnace_gui_open: bool,
    pub is_smoker_filtering_craftable: bool,
    pub is_smoker_gui_open: bool,
}

/// A player's game mode, carried as a 32-bit ordinal.
#[derive(Clone, Copy, Debug, PartialEq, Eq, Structural)]
pub enum GameType {
    Survival,
    Creative,
    Adventure,
    Spectator,
}

impl GameType {
    /// The wire ordinal of this value.
    pub open spec fn ordinal(self) -> int {
        match self {
            GameType::Survival => 0,
            GameType::Creative => 1,
            GameType::Adventure => 2,
            GameType::Spectator => 3,
        }
    }

    /// Decode a wire ordinal; exactly the values 0 to 3 are accepted.
    pub fn try_from(value: i32) -> (r: Result<GameType, DecodeError>)
        ensures
            match r {
                Ok(v) => v.ordinal() == value,
                Err(e) => !(0 <= value <= 3) && e == DecodeError::InvalidEnumOrdinal(
                    "GameType",
                    value as i64,
                ),
            },
    {
        match value {
            0 => Ok(GameType::Survival),
            1 => Ok(GameType::Creative),
            2 => Ok(GameType::Adventure),
            3 => Ok(GameType::Spectator),
            _ => Err(DecodeError::InvalidEnumOrdinal("GameType", value as i64)),
        }
    }

    /// The wire ordinal.
    pub fn to_i32(self) -> (r: i32)
        ensures
            r == self.ordinal(),
    {
        match self {
            GameType::Survival => 0,
            GameType::Creative => 1,
            GameType::Adventure => 2,
            GameType::Spectator => 3,
        }
    }
}

/// A player skin's arm model.
#[derive(Clone, Copy, Debug, PartialEq, Eq, Structural, Default)]
pub enum Model {
    Wide,
    #[default]
    Slim,
}

/// A signed property attached to a player profile.
#[derive(Clone, Debug)]
pub struct PlayerProperty {
    pub name: PlayerPropertyKind,
    pub value: String,
    pub signature: Option<String>,
}

/// The kind of a signed profile property.
#[derive(Clone, Copy, Debug, PartialEq, Eq, Structural)]
#[non_exhaustive]
pub enum PlayerPropertyKind {
    Textures,
}

/// One toggleable layer of a player skin.
#[derive(Clone, Copy, Debug, PartialEq, Eq, Structural)]
pub enum SkinLayer {
    Cape,
    Jacket,
    LeftSleeve,
    RightSleeve,
    LeftPantsLeg,
    RightPantsLeg,
    Hat,
}

/// A player profile, either given in full or abbreviated on the wire to a
/// bare name.
#[derive(Clone, Debug)]
pub struct Profile(pub ProfileInner);

/// The full form of a player profile.
#[derive(Clone, Debug)]
pub struct ProfileInner {
    pub name: Option<String>,
    pub id: Option<McUuid>,
    pub texture: Option<Identifier>,
    pub cape: Option<Identifier>,
    pub model: Option<Model>,
    pub properties: Vec<PlayerProperty>,
}

impl Profile {
    /// Canonicalize the two wire shapes of a profile: a full profile is
    /// kept as it is, and a bare name becomes a profile with every other
    /// field absent.
    pub fn from_one_of(value: OneOf<ProfileInner, String>) -> (r: Profile)
        ensures
            match value {
                OneOf::Left(inner) => r.0 == inner,
                OneOf::Right(name) => {
                    &&& r.0.name == Some(name)
                    &&& r.0.id is None
                    &&& r.0.texture is None
                    &&& r.0.cape is None
                    &&& r.0.model is None
                    &&& r.0.properties@ =~= Seq::<PlayerProperty>::empty()
                },
            },
    {
        match value {
            OneOf::Left(inner) => Profile(inner),
            OneOf::Right(name) => Profile(
                ProfileInner {
                    name: Some(name),
                    id: None,
                    texture: None,
                    cape: None,
                    model: None,
                    properties: Vec::new(),
                },
            ),
        }
    }
}

/// The dimension a spawn point falls back to.
pub fn default_spawn() -> (r: Identifier)
    ensures
        r.namespace@ == "minecraft"@,
        r.path@ == "overworld"@,
{
    Identifier { namespace: String::from_str("minecraft"), path: String::from_str("overworld") }
}

} // verus!
