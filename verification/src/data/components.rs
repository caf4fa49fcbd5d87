//! Item-component record shapes.

use vstd::prelude::*;

use crate::OneOf;
use crate::data::Identifier;
use crate::data::block::{Block, BlockEntity};

verus! {

/// A reference to a loot table with an optional fixed seed.
#[derive(Clone, Debug)]
pub struct Loot {
    pub loot_table: Identifier,
    pub seed: Option<i64>,
}

/// The animation played while an item is consumed.
#[derive(Clone, Copy, Debug, PartialEq, Eq, Structural, Default)]
pub enum ConsumableAnimation {
    NoAnimation,
    #[default]
    Eat,
    Drink,
    Block,
    Bow,
    Spear,
    Crossbow,
    Spyglass,
    TootHorn,
    Brush,
    Bundle,
}

/// A predicate over block positions, used by placement and breaking rules.
#[derive(Clone, Debug)]
pub struct BlockPredicate {
    pub blocks: Vec<Identifier>,
    pub nbt: BlockEntity,
    pub state: Block,
}

/// One banner layer: a dye color and a pattern, the latter either inlined
/// or referenced by identifier.
#[derive(Clone, Debug)]
pub struct BannerPattern {
    pub color: String,
    pub pattern: OneOf<BannerPatternInner, Identifier>,
}

/// An inlined banner pattern.
#[derive(Clone, Debug)]
pub struct BannerPatternInner {
    pub asset_id: Identifier,
    pub translation: String,
}

/// How an attribute modifier is displayed.
#[derive(Clone, Copy, Debug, PartialEq, Eq, Structural)]
pub enum DisplayKind {
    Default,
    Hidden,
    Override,
}

/// How an attribute modifier combines with the base value.
#[derive(Clone, Copy, Debug, PartialEq, Eq, Structural)]
pub enum AttributeModifierOperation {
    AddValue,
    AddMultipliedBase,
    AddMultipliedTotal,
}

/// The slot group an attribute modifier applies to.
#[derive(Clone, Copy, Debug, PartialEq, Eq, Structural, Default)]
pub enum ItemSlot {
    #[default]
    Any,
    Hand,
    Armor,
    MainHand,
    Offhand,
    Head,
    Chest,
    Legs,
    Feet,
    Body,
    Saddle,
}

} // verus!
