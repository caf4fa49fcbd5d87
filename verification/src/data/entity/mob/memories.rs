//! Brain-memory record shapes.

use vstd::prelude::*;

verus! {

/// A memory persisted as an empty compound: its presence is the datum.
#[derive(Clone, Copy, Debug, PartialEq, Eq, Structural)]
pub struct EmptyCompound;

/// The shared pair of temptation memories.
#[derive(Clone, Copy, Debug, PartialEq, Eq, Structural)]
pub struct Temptation {
    pub is_tempted: Option<ValueHolder<bool>>,
    pub temptation_cooldown_ticks: Option<ValueHolder<i32>>,
}

/// A memory value wrapped in the format's `value` compound.
#[derive(Clone, Copy, Debug, PartialEq, Eq, Structural)]
pub struct ValueHolder<T> {
    pub value: T,
}

/// A memory value with a time to live.
#[derive(Clone, Copy, Debug, PartialEq, Eq, Structural)]
pub struct EphemeralValueHolder<T> {
    pub value: T,
    pub ttl: i64,
}

} // verus!
