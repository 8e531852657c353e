//! The movement pass: every live entity that has a component and a rate
//! for it gets the component advanced by the rate.

use crate::entity::{ComponentVec, Ecs, EntityPool};
use crate::generation::{table_get, GenerationalIndex};
use vstd::prelude::*;

verus! {

/// The handle that is live at `slot`, if the slot is live.
pub open spec fn handle_at(pool: &EntityPool, slot: int) -> GenerationalIndex {
    GenerationalIndex { index: slot as usize, generation: pool.entries()[slot].1 }
}

/// The slot belongs to a live entity that has both a value in `targets`
/// and a value in `rates`.
pub open spec fn is_paired<A, B>(
    pool: &EntityPool,
    targets: Seq<Option<(A, u64)>>,
    rates: Seq<Option<(B, u64)>>,
    slot: int,
) -> bool {
    &&& 0 <= slot < pool.entries().len()
    &&& slot <= usize::MAX
    &&& pool.entries()[slot].0
    &&& table_get(targets, handle_at(pool, slot)).is_some()
    &&& table_get(rates, handle_at(pool, slot)).is_some()
}

/// What one pass does to one slot of `targets`: a paired slot holds the
/// result of `step` on its old value and its rate, under the same
/// generation; any other slot is as it was.
pub open spec fn slot_integrated<A, B, F: Fn(&A, &B) -> A>(
    pool: &EntityPool,
    before: Seq<Option<(A, u64)>>,
    rates: Seq<Option<(B, u64)>>,
    step: F,
    after: Seq<Option<(A, u64)>>,
    slot: int,
) -> bool {
    if is_paired(pool, before, rates, slot) {
        let handle = handle_at(pool, slot);
        &&& after[slot].is_some()
        &&& after[slot].unwrap().1 == handle.generation
        &&& call_ensures(
            step,
            (&table_get(before, handle).unwrap(), &table_get(rates, handle).unwrap()),
            after[slot].unwrap().0,
        )
    } else {
        after[slot] == before[slot]
    }
}

/// What one pass does to the table `targets`.
pub open spec fn integrated<A, B, F: Fn(&A, &B) -> A>(
    pool: &EntityPool,
    before: Seq<Option<(A, u64)>>,
    rates: Seq<Option<(B, u64)>>,
    step: F,
    after: Seq<Option<(A, u64)>>,
) -> bool {
    &&& after.len() == before.len()
    &&& forall|slot: int|
        0 <= slot < before.len() ==> slot_integrated(pool, before, rates, step, after, slot)
}

/// Advance, for every live entity that has both, its value in `targets`
/// by its value in `rates`. Entities that lack either are passed over.
pub fn integrate<A, B, F: Fn(&A, &B) -> A>(
    pool: &EntityPool,
    targets: &mut ComponentVec<A>,
    rates: &ComponentVec<B>,
    step: F,
)
    requires
        forall|target: &A, rate: &B| call_requires(step, (target, rate)),
    ensures
        integrated(pool, old(targets)@, rates@, step, final(targets)@),
{
    let mut it = pool.iter();
    let mut current = it.next();
    while current.is_some()
        invariant
            it.source() == pool,
            forall|target: &A, rate: &B| call_requires(step, (target, rate)),
            targets@.len() == old(targets)@.len(),
            match current {
                Some(handle) => pool.live(handle) && it.cursor() == handle.index + 1,
                None => it.cursor() >= pool.entries().len(),
            },
            forall|slot: int|
                0 <= slot < targets@.len() && slot < (match current {
                    Some(handle) => handle.index as int,
                    None => it.cursor(),
                }) ==> slot_integrated(pool, old(targets)@, rates@, step, targets@, slot),
            forall|slot: int|
                0 <= slot < targets@.len() && slot >= (match current {
                    Some(handle) => handle.index as int,
                    None => it.cursor(),
                }) ==> targets@[slot] == old(targets)@[slot],
        decreases
                (match current {
                    Some(handle) => pool.entries().len() - handle.index,
                    None => 0,
                }),
    {
        let entity = current.unwrap();
        let ghost before = targets@;
        let advanced: Option<A> = match targets.get(entity) {
            Some(target) => match rates.get(entity) {
                Some(rate) => Some(step(target, rate)),
                None => None,
            },
            None => None,
        };
        match advanced {
            Some(target) => {
                targets.set(entity, target);
            },
            None => {},
        }
        proof {
            assert(handle_at(pool, entity.index as int) == entity);
            assert(slot_integrated(
                pool,
                old(targets)@,
                rates@,
                step,
                targets@,
                entity.index as int,
            ) || entity.index >= targets@.len());
        }
        current = it.next();
        proof {
            let frontier = match current {
                Some(handle) => handle.index as int,
                None => it.cursor(),
            };
            assert forall|slot: int| 0 <= slot < targets@.len() && slot < frontier implies
                slot_integrated(pool, old(targets)@, rates@, step, targets@, slot) by {
                if slot < entity.index {
                    assert(slot_integrated(pool, old(targets)@, rates@, step, before, slot));
                    assert(targets@[slot] == before[slot]);
                } else if slot > entity.index {
                    if slot < pool.entries().len() {
                        assert(!pool.entries()[slot].0);
                    }
                    assert(targets@[slot] == before[slot]);
                }
            }
        }
    }
}

/// Integrates velocity into position and spin into rotation.
pub struct MovementSystem {}

impl MovementSystem {
    pub fn new() -> (system: Self) {
        Self {  }
    }

    /// One tick of movement: `shift` advances a position by a velocity and
    /// `turn` advances a rotation by a spin, each for the time of the tick.
    ///
    /// Every live entity with both a position and a velocity has its
    /// position advanced, every live entity with both a rotation and a
    /// spin has its rotation advanced, and nothing else changes.
    pub fn update<P, V, R, S, B, C, U, F: Fn(&P, &V) -> P, G: Fn(&R, &S) -> R>(
        &self,
        ecs: &mut Ecs<P, V, R, S, B, C, U>,
        shift: F,
        turn: G,
    )
        requires
            forall|position: &P, velocity: &V| call_requires(shift, (position, velocity)),
            forall|rotation: &R, spin: &S| call_requires(turn, (rotation, spin)),
        ensures
            final(ecs).pool == old(ecs).pool,
            final(ecs).comps.velocity == old(ecs).comps.velocity,
            final(ecs).comps.spin == old(ecs).comps.spin,
            final(ecs).comps.volumes == old(ecs).comps.volumes,
            final(ecs).comps.camera == old(ecs).comps.camera,
            final(ecs).comps.puppet == old(ecs).comps.puppet,
            integrated(
                &old(ecs).pool,
                old(ecs).comps.position@,
                old(ecs).comps.velocity@,
                shift,
                final(ecs).comps.position@,
            ),
            integrated(
                &old(ecs).pool,
                old(ecs).comps.rotation@,
                old(ecs).comps.spin@,
                turn,
                final(ecs).comps.rotation@,
            ),
    {
        integrate(&ecs.pool, &mut ecs.comps.position, &ecs.comps.velocity, shift);
        integrate(&ecs.pool, &mut ecs.comps.rotation, &ecs.comps.spin, turn);
    }
}

} // verus!
