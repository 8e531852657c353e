//! Entities as handles, and the columnar storage of their components.

use crate::generation::{GenerationalIndex, GenerationalIndexAllocator, GenerationalIndexVec};
use vstd::prelude::*;

verus! {

/// An entity is nothing but its handle.
pub type Entity = GenerationalIndex;

/// The allocator that creates and destroys entities.
pub type EntityPool = GenerationalIndexAllocator;

/// One sparse table of components, keyed by entity.
pub type ComponentVec<T> = GenerationalIndexVec<T>;

/// The component tables of all entities, one per kind of component.
///
/// The tables are independent: an entity may have a position but no
/// velocity. The kinds are type parameters, in the order of the fields.
pub struct EntityComponents<P, V, R, S, B, C, U> {
    pub position: ComponentVec<P>,
    pub velocity: ComponentVec<V>,
    pub rotation: ComponentVec<R>,
    pub spin: ComponentVec<S>,
    pub volumes: ComponentVec<B>,
    pub camera: ComponentVec<C>,
    pub puppet: ComponentVec<U>,
}

impl<P, V, R, S, B, C, U> EntityComponents<P, V, R, S, B, C, U> {
    /// Seven empty tables.
    pub fn new() -> (components: Self)
        ensures
            components.position@.len() == 0,
            components.velocity@.len() == 0,
            components.rotation@.len() == 0,
            components.spin@.len() == 0,
            components.volumes@.len() == 0,
            components.camera@.len() == 0,
            components.puppet@.len() == 0,
    {
        Self {
            position: ComponentVec::new(),
            velocity: ComponentVec::new(),
            rotation: ComponentVec::new(),
            spin: ComponentVec::new(),
            volumes: ComponentVec::new(),
            camera: ComponentVec::new(),
            puppet: ComponentVec::new(),
        }
    }
}

/// The entity allocator together with the component tables.
pub struct Ecs<P, V, R, S, B, C, U> {
    pub pool: EntityPool,
    pub comps: EntityComponents<P, V, R, S, B, C, U>,
}

impl<P, V, R, S, B, C, U> Ecs<P, V, R, S, B, C, U> {
    /// No entities and no components.
    pub fn new() -> (ecs: Self)
        ensures
            ecs.pool.wf(),
            ecs.pool.entries().len() == 0,
            ecs.pool.free().len() == 0,
            ecs.comps.position@.len() == 0,
            ecs.comps.velocity@.len() == 0,
            ecs.comps.rotation@.len() == 0,
            ecs.comps.spin@.len() == 0,
            ecs.comps.volumes@.len() == 0,
            ecs.comps.camera@.len() == 0,
            ecs.comps.puppet@.len() == 0,
    {
        Self { pool: EntityPool::new(), comps: EntityComponents::new() }
    }
}

/// A change to one entity, made as a message.
///
/// A delta that does not apply to an entity, because the entity lacks the
/// component it is aimed at, changes nothing when applied to it.
#[derive(Clone, Copy)]
pub enum EntityDelta<T, R> {
    /// Move the position by a translation.
    Translate(T),
    /// Replace the rotation.
    SetRotation(R),
}

impl<T: Copy, R: Copy> EntityDelta<T, R> {
    /// `after` is `before` with the delta applied to `entity`: only the
    /// targeted component of that entity can differ, and without it
    /// nothing differs at all.
    pub open spec fn applied<P, V, S, B, C, U, F: Fn(&P, &T) -> P>(
        self,
        entity: Entity,
        before: &EntityComponents<P, V, R, S, B, C, U>,
        after: &EntityComponents<P, V, R, S, B, C, U>,
        shift: F,
    ) -> bool {
        &&& after.velocity == before.velocity
        &&& after.spin == before.spin
        &&& after.volumes == before.volumes
        &&& after.camera == before.camera
        &&& after.puppet == before.puppet
        &&& match self {
            EntityDelta::Translate(by) => {
                &&& after.rotation == before.rotation
                &&& match before.position.value_at(entity) {
                    Some(position) => exists|moved: P|
                        {
                            &&& call_ensures(shift, (&position, &by), moved)
                            &&& after.position@ == before.position@.update(
                                entity.index as int,
                                Some((moved, entity.generation)),
                            )
                        },
                    None => after.position == before.position,
                }
            },
            EntityDelta::SetRotation(rotation) => {
                &&& after.position == before.position
                &&& match before.rotation.value_at(entity) {
                    Some(_) => after.rotation@ == before.rotation@.update(
                        entity.index as int,
                        Some((rotation, entity.generation)),
                    ),
                    None => after.rotation == before.rotation,
                }
            },
        }
    }

    /// Apply the delta to a target `entity`.
    ///
    /// A translation is combined with the entity's position by `shift`.
    /// Only the targeted component of that entity can change; without it
    /// nothing changes at all.
    pub fn apply_to<P, V, S, B, C, U, F: Fn(&P, &T) -> P>(
        self,
        entity: Entity,
        components: &mut EntityComponents<P, V, R, S, B, C, U>,
        shift: F,
    )
        requires
            forall|position: &P, by: &T| call_requires(shift, (position, by)),
        ensures
            self.applied(entity, old(components), final(components), shift),
    {
        match self {
            EntityDelta::Translate(by) => {
                let moved: Option<P> = match components.position.get(entity) {
                    Some(position) => Some(shift(position, &by)),
                    None => None,
                };
                match moved {
                    Some(position) => {
                        components.position.set(entity, position);
                    },
                    None => {},
                }
            },
            EntityDelta::SetRotation(rotation) => {
                if components.rotation.get(entity).is_some() {
                    components.rotation.set(entity, rotation);
                }
            },
        }
    }

    /// A translation aimed at an entity without a position changes nothing.
    pub proof fn lemma_translate_without_position<P, V, S, B, C, U, F: Fn(&P, &T) -> P>(
        by: T,
        entity: Entity,
        before: &EntityComponents<P, V, R, S, B, C, U>,
        after: &EntityComponents<P, V, R, S, B, C, U>,
        shift: F,
    )
        requires
            before.position.value_at(entity).is_none(),
            EntityDelta::<T, R>::Translate(by).applied(entity, before, after, shift),
        ensures
            *after == *before,
    {
    }

    /// A new rotation aimed at an entity without a rotation changes nothing.
    pub proof fn lemma_set_rotation_without_rotation<P, V, S, B, C, U, F: Fn(&P, &T) -> P>(
        rotation: R,
        entity: Entity,
        before: &EntityComponents<P, V, R, S, B, C, U>,
        after: &EntityComponents<P, V, R, S, B, C, U>,
        shift: F,
    )
        requires
            before.rotation.value_at(entity).is_none(),
            EntityDelta::<T, R>::SetRotation(rotation).applied(entity, before, after, shift),
        ensures
            *after == *before,
    {
    }
}

} // verus!
