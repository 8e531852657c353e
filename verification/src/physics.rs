//! The physics pass: the place in the tick where collisions will be
//! resolved against the collider volumes. For now it changes nothing.

use crate::entity::{EntityComponents, EntityPool};
use vstd::prelude::*;

verus! {

/// Resolves collisions. A stage of its own in the tick, ordered before
/// movement, that so far leaves every component as it is.
pub struct PhysicsSystem {}

impl PhysicsSystem {
    pub fn new() -> (system: Self) {
        Self {  }
    }

    /// One tick of physics: no component changes.
    pub fn update<P, V, R, S, B, C, U>(
        &self,
        entities: &EntityPool,
        components: &mut EntityComponents<P, V, R, S, B, C, U>,
    )
        ensures
            *final(components) == *old(components),
    {
    }
}

} // verus!
