//! Puppets: the controllers that turn a tick's input into deltas for the
//! entity they pilot, and the pass that runs them.

use crate::circular::{ring_position, CircularVec};
use crate::entity::{ComponentVec, Ecs, Entity, EntityComponents, EntityDelta, EntityPool};
use crate::input::SceneInputState;
use crate::movement::handle_at;
use crate::payload::Payload;
use vstd::prelude::*;

verus! {

/// The direction that the movement keys ask for, as three weights: one
/// for a key that is down, minus one for its opposite, so zero for both
/// or neither.
#[derive(Clone, Copy, Debug, PartialEq, Eq, Structural)]
pub struct Direction {
    /// Forward (1) or backward (-1).
    pub forward: i8,
    /// Up (1) or down (-1).
    pub up: i8,
    /// Right (1) or left (-1).
    pub right: i8,
}

/// One for the first key alone, minus one for the second alone, else zero.
pub open spec fn spec_weight(toward: bool, away: bool) -> i8 {
    if toward && !away {
        1i8
    } else if away && !toward {
        -1i8
    } else {
        0i8
    }
}

/// One for the first key alone, minus one for the second alone, else zero.
fn weight(toward: bool, away: bool) -> (weight: i8)
    ensures
        weight == spec_weight(toward, away),
{
    if toward && !away {
        1
    } else if away && !toward {
        -1
    } else {
        0
    }
}

impl Direction {
    /// The direction that the keys held in `input` ask for.
    pub open spec fn of<Pan>(input: &SceneInputState<Pan>) -> Direction {
        Direction {
            forward: spec_weight(input.forward, input.backward),
            up: spec_weight(input.up, input.down),
            right: spec_weight(input.right, input.left),
        }
    }

    /// The direction that the keys held in `input` ask for.
    pub fn from_input<Pan>(input: &SceneInputState<Pan>) -> (direction: Direction)
        ensures
            direction == Direction::of(input),
    {
        Direction {
            forward: weight(input.forward, input.backward),
            up: weight(input.up, input.down),
            right: weight(input.right, input.left),
        }
    }
}

/// The deltas of one tick: the new rotation first, if there is one, then
/// the translation, if there is one.
pub open spec fn planned_deltas<T, R>(turned: Option<R>, pushed: Option<T>) -> Seq<
    EntityDelta<T, R>,
> {
    let turn = match turned {
        Some(rotation) => seq![EntityDelta::<T, R>::SetRotation(rotation)],
        None => Seq::<EntityDelta<T, R>>::empty(),
    };
    let push = match pushed {
        Some(by) => seq![EntityDelta::<T, R>::Translate(by)],
        None => Seq::<EntityDelta<T, R>>::empty(),
    };
    turn + push
}

/// A free-flying camera controller with pan smoothing over recent ticks.
///
/// It keeps the pan samples of the last ticks in a ring; the weight of
/// older samples is decided by the falloff.
pub struct FreeCameraPuppet<Sample: Copy, W> {
    history: CircularVec<Sample>,
    falloff: W,
}

impl<Sample: Copy, W> FreeCameraPuppet<Sample, W> {
    /// The ring of recent pan samples.
    pub closed spec fn samples(&self) -> CircularVec<Sample> {
        self.history
    }

    /// The falloff that weighs older samples.
    pub closed spec fn weighting(&self) -> W {
        self.falloff
    }

    /// The ring of samples is well formed and not empty.
    pub open spec fn wf(&self) -> bool {
        &&& self.samples().wf()
        &&& self.samples().slots().len() > 0
    }

    /// `after` is `self` one tick later: the ring has moved on by one
    /// place and holds `sample` at its new head.
    pub open spec fn pre_updated(&self, sample: Sample, after: &Self) -> bool {
        let len = self.samples().slots().len() as int;
        let head = ring_position(self.samples().head_position(), 1, len);
        &&& after.wf()
        &&& after.weighting() == self.weighting()
        &&& after.samples().head_position() == head
        &&& after.samples().slots() == self.samples().slots().update(head, sample)
    }

    /// Create a new free camera with inter-frame pan smoothing.
    /// The number of frames cached is `len`.
    /// The weight of prior frames is determined by the `falloff`.
    pub fn new(len: usize, falloff: W) -> (puppet: Self) where Sample: Default
        ensures
            puppet.samples().wf(),
            puppet.samples().slots().len() == len,
            puppet.samples().head_position() == 0,
            puppet.weighting() == falloff,
            len > 0 ==> puppet.wf(),
    {
        Self { history: CircularVec::with_len(len), falloff }
    }

    /// The ring of recent pan samples.
    pub fn history(&self) -> (history: &CircularVec<Sample>)
        ensures
            *history == self.samples(),
    {
        &self.history
    }

    /// The falloff that weighs older samples.
    pub fn falloff(&self) -> (falloff: &W)
        ensures
            *falloff == self.weighting(),
    {
        &self.falloff
    }

    /// Start a tick: move the ring on and record this tick's pan, or
    /// `rest` if there was none.
    pub fn pre_update(&mut self, pan: Option<Sample>, rest: Sample)
        requires
            old(self).wf(),
        ensures
            old(self).pre_updated(
                match pan {
                    Some(sample) => sample,
                    None => rest,
                },
                final(self),
            ),
    {
        self.history.advance();
        let sample: Sample = match pan {
            Some(sample) => sample,
            None => rest,
        };
        proof {
            self.history.lemma_head_in_range();
        }
        self.history.replace(sample);
    }

    /// The deltas that the puppet generates for `entity` in this tick.
    ///
    /// If the entity has a rotation, `aim` turns it by the smoothed pan and
    /// the new rotation is set. If the entity has a position, `thrust`
    /// makes a translation out of the (new) rotation and the direction
    /// that the movement keys ask for, unless that comes to nothing.
    pub open spec fn planned<
        P,
        V,
        R: Copy,
        S,
        B,
        C,
        U,
        T: Copy,
        A: Fn(&CircularVec<Sample>, &W, &R) -> R,
        M: Fn(Option<R>, Direction) -> Option<T>,
    >(
        &self,
        input: &SceneInputState<Sample>,
        entity: Entity,
        components: &EntityComponents<P, V, R, S, B, C, U>,
        aim: A,
        thrust: M,
        deltas: Seq<EntityDelta<T, R>>,
    ) -> bool {
        exists|turned: Option<R>, pushed: Option<T>|
            {
                &&& match components.rotation.value_at(entity) {
                    Some(rotation) => turned.is_some() && call_ensures(
                        aim,
                        (&self.samples(), &self.weighting(), &rotation),
                        turned.unwrap(),
                    ),
                    None => turned.is_none(),
                }
                &&& match components.position.value_at(entity) {
                    Some(_) => call_ensures(thrust, (turned, Direction::of(input)), pushed),
                    None => pushed.is_none(),
                }
                &&& #[trigger] planned_deltas(turned, pushed) == deltas
            }
    }

    /// Generate a set of deltas to be applied to the `entity`.
    pub fn gen_deltas<
        P,
        V,
        R: Copy,
        S,
        B,
        C,
        U,
        T: Copy,
        A: Fn(&CircularVec<Sample>, &W, &R) -> R,
        M: Fn(Option<R>, Direction) -> Option<T>,
    >(
        &self,
        input: &SceneInputState<Sample>,
        entity: Entity,
        components: &EntityComponents<P, V, R, S, B, C, U>,
        aim: A,
        thrust: M,
    ) -> (payload: Payload<EntityDelta<T, R>>)
        requires
            forall|history: &CircularVec<Sample>, falloff: &W, rotation: &R|
                call_requires(aim, (history, falloff, rotation)),
            forall|turned: Option<R>, direction: Direction|
                call_requires(thrust, (turned, direction)),
        ensures
            payload.wf(),
            self.planned(input, entity, components, aim, thrust, payload@),
    {
        let mut payload: Payload<EntityDelta<T, R>> = Payload::new();
        let turned: Option<R> = match components.rotation.get(entity) {
            Some(rotation) => Some(aim(&self.history, &self.falloff, rotation)),
            None => None,
        };
        match turned {
            Some(rotation) => {
                payload.push(EntityDelta::SetRotation(rotation));
            },
            None => {},
        }
        let pushed: Option<T> = if components.position.get(entity).is_some() {
            thrust(turned, Direction::from_input(input))
        } else {
            None
        };
        match pushed {
            Some(by) => {
                payload.push(EntityDelta::Translate(by));
            },
            None => {},
        }
        proof {
            assert(payload@ =~= planned_deltas(turned, pushed));
        }
        payload
    }
}

/// A puppet describes the high-level faculties for piloting an entity.
/// It does not provide any "mind" that calls those faculties.
pub enum Puppet<Sample: Copy, W> {
    FreeCamera(FreeCameraPuppet<Sample, W>),
}

impl<Sample: Copy, W> Puppet<Sample, W> {
    /// The controller inside is well formed.
    pub open spec fn wf(&self) -> bool {
        match self {
            Puppet::FreeCamera(puppet) => puppet.wf(),
        }
    }

    /// `after` is `self` one tick later, with `sample` recorded.
    pub open spec fn pre_updated(&self, sample: Sample, after: &Self) -> bool {
        match (self, after) {
            (Puppet::FreeCamera(before), Puppet::FreeCamera(after)) => before.pre_updated(
                sample,
                after,
            ),
        }
    }

    /// Update the puppet at the start of the frame.
    pub fn pre_update(&mut self, pan: Option<Sample>, rest: Sample)
        requires
            old(self).wf(),
        ensures
            old(self).pre_updated(
                match pan {
                    Some(sample) => sample,
                    None => rest,
                },
                final(self),
            ),
            final(self).wf(),
    {
        match self {
            Puppet::FreeCamera(puppet) => puppet.pre_update(pan, rest),
        }
    }

    /// The deltas that the puppet generates for `entity` in this tick.
    pub open spec fn planned<
        P,
        V,
        R: Copy,
        S,
        B,
        C,
        U,
        T: Copy,
        A: Fn(&CircularVec<Sample>, &W, &R) -> R,
        M: Fn(Option<R>, Direction) -> Option<T>,
    >(
        &self,
        input: &SceneInputState<Sample>,
        entity: Entity,
        components: &EntityComponents<P, V, R, S, B, C, U>,
        aim: A,
        thrust: M,
        deltas: Seq<EntityDelta<T, R>>,
    ) -> bool {
        match self {
            Puppet::FreeCamera(puppet) => puppet.planned(
                input,
                entity,
                components,
                aim,
                thrust,
                deltas,
            ),
        }
    }

    /// Generate a set of deltas to be applied to the `entity`.
    pub fn gen_deltas<
        P,
        V,
        R: Copy,
        S,
        B,
        C,
        U,
        T: Copy,
        A: Fn(&CircularVec<Sample>, &W, &R) -> R,
        M: Fn(Option<R>, Direction) -> Option<T>,
    >(
        &self,
        input: &SceneInputState<Sample>,
        entity: Entity,
        components: &EntityComponents<P, V, R, S, B, C, U>,
        aim: A,
        thrust: M,
    ) -> (payload: Payload<EntityDelta<T, R>>)
        requires
            forall|history: &CircularVec<Sample>, falloff: &W, rotation: &R|
                call_requires(aim, (history, falloff, rotation)),
            forall|turned: Option<R>, direction: Direction|
                call_requires(thrust, (turned, direction)),
        ensures
            payload.wf(),
            self.planned(input, entity, components, aim, thrust, payload@),
    {
        match self {
            Puppet::FreeCamera(puppet) => puppet.gen_deltas(
                input,
                entity,
                components,
                aim,
                thrust,
            ),
        }
    }
}

/// The pan sample that a tick records: the pan of the input, or `rest`
/// if there was none.
pub open spec fn sample_of<Sample>(input: &SceneInputState<Sample>, rest: Sample) -> Sample {
    match input.pan {
        Some(sample) => sample,
        None => rest,
    }
}

/// Every puppet in the table is well formed.
pub open spec fn puppets_wf<Sample: Copy, W>(puppets: Seq<Option<(Puppet<Sample, W>, u64)>>) -> bool {
    forall|slot: int|
        0 <= slot < puppets.len() && (#[trigger] puppets[slot]).is_some()
            ==> puppets[slot].unwrap().0.wf()
}

/// The slot belongs to a live entity that has a puppet.
pub open spec fn has_puppet<Sample: Copy, W>(
    pool: &EntityPool,
    puppets: Seq<Option<(Puppet<Sample, W>, u64)>>,
    slot: int,
) -> bool {
    &&& 0 <= slot < pool.entries().len()
    &&& slot <= usize::MAX
    &&& pool.entries()[slot].0
    &&& crate::generation::table_get(puppets, handle_at(pool, slot)).is_some()
}

/// What the start of a tick does to one slot of the puppets: the puppet of
/// a live entity has moved on by one tick and recorded `sample`; any other
/// slot is as it was.
pub open spec fn slot_refreshed<Sample: Copy, W>(
    pool: &EntityPool,
    before: Seq<Option<(Puppet<Sample, W>, u64)>>,
    after: Seq<Option<(Puppet<Sample, W>, u64)>>,
    sample: Sample,
    slot: int,
) -> bool {
    if has_puppet(pool, before, slot) {
        &&& after[slot].is_some()
        &&& after[slot].unwrap().1 == before[slot].unwrap().1
        &&& before[slot].unwrap().0.pre_updated(sample, &after[slot].unwrap().0)
    } else {
        after[slot] == before[slot]
    }
}

/// What the start of a tick does to the puppets.
pub open spec fn refreshed<Sample: Copy, W>(
    pool: &EntityPool,
    before: Seq<Option<(Puppet<Sample, W>, u64)>>,
    after: Seq<Option<(Puppet<Sample, W>, u64)>>,
    sample: Sample,
) -> bool {
    &&& after.len() == before.len()
    &&& forall|slot: int|
        0 <= slot < before.len() ==> slot_refreshed(pool, before, after, sample, slot)
}

/// The deltas of one tick, entity by entity: `plans` holds, for each of
/// `handles` that has a puppet and in the same order, the entity and the
/// deltas that its puppet generates from `components`.
pub open spec fn planned_all<
    P,
    V,
    R: Copy,
    S,
    B,
    C,
    Sample: Copy,
    W,
    T: Copy,
    A: Fn(&CircularVec<Sample>, &W, &R) -> R,
    M: Fn(Option<R>, Direction) -> Option<T>,
>(
    handles: Seq<Entity>,
    components: &EntityComponents<P, V, R, S, B, C, Puppet<Sample, W>>,
    input: &SceneInputState<Sample>,
    aim: A,
    thrust: M,
    plans: Seq<(Entity, Seq<EntityDelta<T, R>>)>,
) -> bool
    decreases handles.len(),
{
    if handles.len() == 0 {
        plans.len() == 0
    } else {
        match components.puppet.value_at(handles.last()) {
            Some(puppet) => {
                &&& plans.len() > 0
                &&& plans.last().0 == handles.last()
                &&& puppet.planned(
                    input,
                    handles.last(),
                    components,
                    aim,
                    thrust,
                    plans.last().1,
                )
                &&& planned_all(
                    handles.drop_last(),
                    components,
                    input,
                    aim,
                    thrust,
                    plans.drop_last(),
                )
            },
            None => planned_all(handles.drop_last(), components, input, aim, thrust, plans),
        }
    }
}

/// `after` is `before` with the deltas applied to `entity` one after the
/// other, the first one first.
pub open spec fn applied_all<P, V, R: Copy, S, B, C, U, T: Copy, F: Fn(&P, &T) -> P>(
    deltas: Seq<EntityDelta<T, R>>,
    entity: Entity,
    before: &EntityComponents<P, V, R, S, B, C, U>,
    after: &EntityComponents<P, V, R, S, B, C, U>,
    shift: F,
) -> bool
    decreases deltas.len(),
{
    if deltas.len() == 0 {
        *after == *before
    } else {
        exists|mid: EntityComponents<P, V, R, S, B, C, U>|
            {
                &&& applied_all(deltas.drop_last(), entity, before, &mid, shift)
                &&& #[trigger] deltas.last().applied(entity, &mid, after, shift)
            }
    }
}

/// `after` is `before` with the deltas of every plan applied to the
/// plan's entity, the first plan first.
pub open spec fn applied_plans<P, V, R: Copy, S, B, C, U, T: Copy, F: Fn(&P, &T) -> P>(
    plans: Seq<(Entity, Seq<EntityDelta<T, R>>)>,
    before: &EntityComponents<P, V, R, S, B, C, U>,
    after: &EntityComponents<P, V, R, S, B, C, U>,
    shift: F,
) -> bool
    decreases plans.len(),
{
    if plans.len() == 0 {
        *after == *before
    } else {
        exists|mid: EntityComponents<P, V, R, S, B, C, U>|
            {
                &&& applied_plans(plans.drop_last(), before, &mid, shift)
                &&& #[trigger] applied_all(plans.last().1, plans.last().0, &mid, after, shift)
            }
    }
}

/// The plans as entities with their deltas.
pub open spec fn plans_view<T: Copy, R: Copy>(
    plans: Seq<(Entity, Payload<EntityDelta<T, R>>)>,
) -> Seq<(Entity, Seq<EntityDelta<T, R>>)> {
    plans.map_values(|plan: (Entity, Payload<EntityDelta<T, R>>)| (plan.0, plan.1@))
}

/// One tick of the puppets, in three stages. First every puppet of a live
/// entity records the tick's pan sample. Then every such puppet generates
/// its deltas, all from the state after the first stage. Only then are the
/// deltas applied, entity by entity in slot order.
pub open spec fn updated<
    P,
    V,
    R: Copy,
    S,
    B,
    C,
    Sample: Copy,
    W,
    T: Copy,
    A: Fn(&CircularVec<Sample>, &W, &R) -> R,
    M: Fn(Option<R>, Direction) -> Option<T>,
    F: Fn(&P, &T) -> P,
>(
    pool: &EntityPool,
    before: &EntityComponents<P, V, R, S, B, C, Puppet<Sample, W>>,
    after: &EntityComponents<P, V, R, S, B, C, Puppet<Sample, W>>,
    input: &SceneInputState<Sample>,
    rest: Sample,
    aim: A,
    thrust: M,
    shift: F,
) -> bool {
    exists|
        mid: EntityComponents<P, V, R, S, B, C, Puppet<Sample, W>>,
        plans: Seq<(Entity, Seq<EntityDelta<T, R>>)>,
    |
        {
            &&& mid.position == before.position
            &&& mid.velocity == before.velocity
            &&& mid.rotation == before.rotation
            &&& mid.spin == before.spin
            &&& mid.volumes == before.volumes
            &&& mid.camera == before.camera
            &&& refreshed(pool, before.puppet@, mid.puppet@, sample_of(input, rest))
            &&& #[trigger] planned_all(pool.live_handles(), &mid, input, aim, thrust, plans)
            &&& #[trigger] applied_plans(plans, &mid, after, shift)
        }
}

/// Runs the puppets of all live entities.
pub struct PuppetSystem {}

impl PuppetSystem {
    pub fn new() -> (system: Self) {
        Self {  }
    }

    /// The first stage of a tick: the puppet of every live entity records
    /// this tick's pan, or `rest` if there was none.
    pub fn refresh<Sample: Copy, W>(
        pool: &EntityPool,
        puppets: &mut ComponentVec<Puppet<Sample, W>>,
        pan: Option<Sample>,
        rest: Sample,
    )
        requires
            puppets_wf(old(puppets)@),
        ensures
            puppets_wf(final(puppets)@),
            refreshed(
                pool,
                old(puppets)@,
                final(puppets)@,
                match pan {
                    Some(sample) => sample,
                    None => rest,
                },
            ),
    {
        let ghost sample = match pan {
            Some(sample) => sample,
            None => rest,
        };
        let mut it = pool.iter();
        let mut current = it.next();
        while current.is_some()
            invariant
                it.source() == pool,
                puppets@.len() == old(puppets)@.len(),
                puppets_wf(puppets@),
                sample == match pan {
                    Some(sample) => sample,
                    None => rest,
                },
                match current {
                    Some(handle) => pool.live(handle) && it.cursor() == handle.index + 1,
                    None => it.cursor() >= pool.entries().len(),
                },
                forall|slot: int|
                    0 <= slot < puppets@.len() && slot < (match current {
                        Some(handle) => handle.index as int,
                        None => it.cursor(),
                    }) ==> slot_refreshed(pool, old(puppets)@, puppets@, sample, slot),
                forall|slot: int|
                    0 <= slot < puppets@.len() && slot >= (match current {
                        Some(handle) => handle.index as int,
                        None => it.cursor(),
                    }) ==> puppets@[slot] == old(puppets)@[slot],
            decreases
                    (match current {
                        Some(handle) => pool.entries().len() - handle.index,
                        None => 0,
                    }),
        {
            let entity = current.unwrap();
            let ghost before = puppets@;
            match puppets.get_mut(entity) {
                Some(puppet) => {
                    puppet.pre_update(pan, rest);
                },
                None => {},
            }
            proof {
                assert(handle_at(pool, entity.index as int) == entity);
                assert(slot_refreshed(pool, old(puppets)@, puppets@, sample, entity.index as int)
                    || entity.index >= puppets@.len());
                assert forall|slot: int|
                    0 <= slot < puppets@.len() && (#[trigger] puppets@[slot]).is_some() implies
                    puppets@[slot].unwrap().0.wf() by {
                    if slot != entity.index {
                        assert(puppets@[slot] == before[slot]);
                    }
                }
            }
            current = it.next();
            proof {
                let frontier = match current {
                    Some(handle) => handle.index as int,
                    None => it.cursor(),
                };
                assert forall|slot: int| 0 <= slot < puppets@.len() && slot < frontier implies
                    slot_refreshed(pool, old(puppets)@, puppets@, sample, slot) by {
                    if slot < entity.index {
                        assert(slot_refreshed(pool, old(puppets)@, before, sample, slot));
                        assert(puppets@[slot] == before[slot]);
                    } else if slot > entity.index {
                        if slot < pool.entries().len() {
                            assert(!pool.entries()[slot].0);
                        }
                        assert(puppets@[slot] == before[slot]);
                    }
                }
            }
        }
    }

    /// The second stage of a tick: the puppet of every live entity
    /// generates its deltas. Nothing is applied yet, so every puppet sees
    /// the same state.
    pub fn plan<
        P,
        V,
        R: Copy,
        S,
        B,
        C,
        Sample: Copy,
        W,
        T: Copy,
        A: Fn(&CircularVec<Sample>, &W, &R) -> R + Copy,
        M: Fn(Option<R>, Direction) -> Option<T> + Copy,
    >(
        pool: &EntityPool,
        components: &EntityComponents<P, V, R, S, B, C, Puppet<Sample, W>>,
        input: &SceneInputState<Sample>,
        aim: A,
        thrust: M,
    ) -> (plans: Vec<(Entity, Payload<EntityDelta<T, R>>)>)
        requires
            forall|history: &CircularVec<Sample>, falloff: &W, rotation: &R|
                call_requires(aim, (history, falloff, rotation)),
            forall|turned: Option<R>, direction: Direction|
                call_requires(thrust, (turned, direction)),
        ensures
            forall|i: int| 0 <= i < plans@.len() ==> (#[trigger] plans@[i]).1.wf(),
            planned_all(pool.live_handles(), components, input, aim, thrust, plans_view(plans@)),
    {
        let mut plans: Vec<(Entity, Payload<EntityDelta<T, R>>)> = Vec::new();
        let ghost handles = pool.live_handles();
        let mut it = pool.iter();
        let mut current = it.next();
        let ghost mut done: Seq<Entity> = Seq::empty();
        proof {
            match current {
                Some(handle) => {
                    assert(seq![handle] + it.remaining() =~= handles);
                },
                None => {
                    assert(handles =~= Seq::empty());
                },
            }
            assert(plans_view(plans@) =~= Seq::empty());
        }
        while current.is_some()
            invariant
                it.source() == pool,
                handles == pool.live_handles(),
                forall|history: &CircularVec<Sample>, falloff: &W, rotation: &R|
                    call_requires(aim, (history, falloff, rotation)),
                forall|turned: Option<R>, direction: Direction|
                    call_requires(thrust, (turned, direction)),
                match current {
                    Some(handle) => done.push(handle) + it.remaining() == handles,
                    None => done == handles,
                },
                forall|i: int| 0 <= i < plans@.len() ==> (#[trigger] plans@[i]).1.wf(),
                planned_all(done, components, input, aim, thrust, plans_view(plans@)),
            decreases
                    (match current {
                        Some(handle) => it.remaining().len() + 1,
                        None => 0,
                    }),
        {
            let entity = current.unwrap();
            let ghost planned_before = plans_view(plans@);
            match components.puppet.get(entity) {
                Some(puppet) => {
                    let payload = puppet.gen_deltas(input, entity, components, aim, thrust);
                    plans.push((entity, payload));
                    proof {
                        assert(plans_view(plans@).drop_last() =~= planned_before);
                    }
                },
                None => {},
            }
            proof {
                let longer = done.push(entity);
                assert(longer.drop_last() =~= done);
                assert(longer.last() == entity);
                done = longer;
            }
            let ghost rest_before = it.remaining();
            current = it.next();
            proof {
                match current {
                    Some(handle) => {
                        assert(done.push(handle) + it.remaining() =~= done + rest_before);
                    },
                    None => {
                        assert(done + rest_before =~= done);
                    },
                }
            }
        }
        plans
    }

    /// Apply the deltas of one payload to an entity, in order.
    pub fn apply_all<P, V, R: Copy, S, B, C, U, T: Copy, F: Fn(&P, &T) -> P + Copy>(
        payload: &Payload<EntityDelta<T, R>>,
        entity: Entity,
        components: &mut EntityComponents<P, V, R, S, B, C, U>,
        shift: F,
    )
        requires
            payload.wf(),
            forall|position: &P, by: &T| call_requires(shift, (position, by)),
        ensures
            applied_all(payload@, entity, old(components), final(components), shift),
    {
        let mut it = payload.iter();
        let mut next = it.next();
        let ghost mut count: int = 0;
        proof {
            assert(payload@.take(0) =~= Seq::empty());
        }
        while next.is_some()
            invariant
                it.wf(),
                it.messages() == payload@,
                forall|position: &P, by: &T| call_requires(shift, (position, by)),
                0 <= count <= payload@.len(),
                match next {
                    Some(delta) => count < payload@.len() && delta == payload@[count]
                        && it.position() == count + 1,
                    None => count == payload@.len() && it.position() >= payload@.len(),
                },
                applied_all(payload@.take(count), entity, old(components), components, shift),
            decreases payload@.len() - count,
        {
            let delta = next.unwrap();
            let ghost before = *components;
            delta.apply_to(entity, components, shift);
            proof {
                let longer = payload@.take(count + 1);
                assert(longer.drop_last() =~= payload@.take(count));
                assert(longer.last() == delta);
                assert(longer.last().applied(entity, &before, components, shift));
                count = count + 1;
            }
            next = it.next();
        }
        proof {
            assert(payload@.take(count) =~= payload@);
        }
    }

    /// The third stage of a tick: the deltas of every plan are applied to
    /// the plan's entity, the first plan first.
    pub fn apply<P, V, R: Copy, S, B, C, U, T: Copy, F: Fn(&P, &T) -> P + Copy>(
        plans: &Vec<(Entity, Payload<EntityDelta<T, R>>)>,
        components: &mut EntityComponents<P, V, R, S, B, C, U>,
        shift: F,
    )
        requires
            forall|i: int| 0 <= i < plans@.len() ==> (#[trigger] plans@[i]).1.wf(),
            forall|position: &P, by: &T| call_requires(shift, (position, by)),
        ensures
            applied_plans(plans_view(plans@), old(components), final(components), shift),
    {
        let mut i: usize = 0;
        proof {
            assert(plans_view(plans@).take(0) =~= Seq::empty());
        }
        while i < plans.len()
            invariant
                i <= plans@.len(),
                forall|k: int| 0 <= k < plans@.len() ==> (#[trigger] plans@[k]).1.wf(),
                forall|position: &P, by: &T| call_requires(shift, (position, by)),
                applied_plans(
                    plans_view(plans@).take(i as int),
                    old(components),
                    components,
                    shift,
                ),
            decreases plans@.len() - i,
        {
            let ghost before = *components;
            let plan = &plans[i];
            Self::apply_all(&plan.1, plan.0, components, shift);
            proof {
                let longer = plans_view(plans@).take(i + 1);
                assert(longer.drop_last() =~= plans_view(plans@).take(i as int));
                assert(longer.last() == (plan.0, plan.1@));
                assert(applied_all(longer.last().1, longer.last().0, &before, components, shift));
            }
            i += 1;
        }
        proof {
            assert(plans_view(plans@).take(i as int) =~= plans_view(plans@));
        }
    }

    /// One tick of the puppets: every puppet of a live entity records the
    /// tick's pan, then every such puppet generates its deltas with `aim`
    /// and `thrust`, and only then are all deltas applied with `shift`.
    pub fn update<
        P,
        V,
        R: Copy,
        S,
        B,
        C,
        Sample: Copy,
        W,
        T: Copy,
        A: Fn(&CircularVec<Sample>, &W, &R) -> R + Copy,
        M: Fn(Option<R>, Direction) -> Option<T> + Copy,
        F: Fn(&P, &T) -> P + Copy,
    >(
        &self,
        ecs: &mut Ecs<P, V, R, S, B, C, Puppet<Sample, W>>,
        input: &SceneInputState<Sample>,
        rest: Sample,
        aim: A,
        thrust: M,
        shift: F,
    )
        requires
            puppets_wf(old(ecs).comps.puppet@),
            forall|history: &CircularVec<Sample>, falloff: &W, rotation: &R|
                call_requires(aim, (history, falloff, rotation)),
            forall|turned: Option<R>, direction: Direction|
                call_requires(thrust, (turned, direction)),
            forall|position: &P, by: &T| call_requires(shift, (position, by)),
        ensures
            final(ecs).pool == old(ecs).pool,
            puppets_wf(final(ecs).comps.puppet@),
            updated(
                &old(ecs).pool,
                &old(ecs).comps,
                &final(ecs).comps,
                input,
                rest,
                aim,
                thrust,
                shift,
            ),
    {
        Self::refresh(&ecs.pool, &mut ecs.comps.puppet, input.pan, rest);
        let ghost mid = ecs.comps;
        let plans = Self::plan(&ecs.pool, &ecs.comps, input, aim, thrust);
        Self::apply(&plans, &mut ecs.comps, shift);
        proof {
            assert(planned_all(
                old(ecs).pool.live_handles(),
                &mid,
                input,
                aim,
                thrust,
                plans_view(plans@),
            ));
            assert(applied_plans(plans_view(plans@), &mid, &ecs.comps, shift));
            lemma_applied_plans_is_steady(plans_view(plans@), &mid, &ecs.comps, shift);
        }
    }
}

/// Two states of a table have the same slots occupied, each under the
/// same generation; only the values may differ.
pub open spec fn same_shape<A>(before: Seq<Option<(A, u64)>>, after: Seq<Option<(A, u64)>>) -> bool {
    &&& after.len() == before.len()
    &&& forall|slot: int|
        0 <= slot < before.len() ==> match (#[trigger] before[slot], after[slot]) {
            (Some(old), Some(new)) => new.1 == old.1,
            (None, None) => true,
            _ => false,
        }
}

/// What no puppet ever changes: velocities, spins, volumes and cameras
/// stay as they are, and positions, rotations and puppets keep their
/// shape, so no component appears, disappears or changes its generation.
pub open spec fn steady<P, V, R, S, B, C, U>(
    before: &EntityComponents<P, V, R, S, B, C, U>,
    after: &EntityComponents<P, V, R, S, B, C, U>,
) -> bool {
    &&& after.velocity == before.velocity
    &&& after.spin == before.spin
    &&& after.volumes == before.volumes
    &&& after.camera == before.camera
    &&& same_shape(before.position@, after.position@)
    &&& same_shape(before.rotation@, after.rotation@)
    &&& same_shape(before.puppet@, after.puppet@)
}

/// Applying deltas to an entity is steady, and leaves the puppets alone.
pub proof fn lemma_applied_all_is_steady<P, V, R: Copy, S, B, C, U, T: Copy, F: Fn(&P, &T) -> P>(
    deltas: Seq<EntityDelta<T, R>>,
    entity: Entity,
    before: &EntityComponents<P, V, R, S, B, C, U>,
    after: &EntityComponents<P, V, R, S, B, C, U>,
    shift: F,
)
    requires
        applied_all(deltas, entity, before, after, shift),
    ensures
        steady(before, after),
        after.puppet == before.puppet,
    decreases deltas.len(),
{
    if deltas.len() > 0 {
        let mid = choose|mid: EntityComponents<P, V, R, S, B, C, U>|
            {
                &&& applied_all(deltas.drop_last(), entity, before, &mid, shift)
                &&& #[trigger] deltas.last().applied(entity, &mid, after, shift)
            };
        lemma_applied_all_is_steady(deltas.drop_last(), entity, before, &mid, shift);
    }
}

/// Applying the plans of a tick is steady, and leaves the puppets alone.
pub proof fn lemma_applied_plans_is_steady<P, V, R: Copy, S, B, C, U, T: Copy, F: Fn(&P, &T) -> P>(
    plans: Seq<(Entity, Seq<EntityDelta<T, R>>)>,
    before: &EntityComponents<P, V, R, S, B, C, U>,
    after: &EntityComponents<P, V, R, S, B, C, U>,
    shift: F,
)
    requires
        applied_plans(plans, before, after, shift),
    ensures
        steady(before, after),
        after.puppet == before.puppet,
    decreases plans.len(),
{
    if plans.len() > 0 {
        let mid = choose|mid: EntityComponents<P, V, R, S, B, C, U>|
            {
                &&& applied_plans(plans.drop_last(), before, &mid, shift)
                &&& #[trigger] applied_all(plans.last().1, plans.last().0, &mid, after, shift)
            };
        lemma_applied_plans_is_steady(plans.drop_last(), before, &mid, shift);
        lemma_applied_all_is_steady(plans.last().1, plans.last().0, &mid, after, shift);
    }
}

/// One tick of the puppets is steady: whatever the puppets do, they only
/// change the values of positions and rotations that exist, and their own
/// state.
pub proof fn lemma_updated_is_steady<
    P,
    V,
    R: Copy,
    S,
    B,
    C,
    Sample: Copy,
    W,
    T: Copy,
    A: Fn(&CircularVec<Sample>, &W, &R) -> R,
    M: Fn(Option<R>, Direction) -> Option<T>,
    F: Fn(&P, &T) -> P,
>(
    pool: &EntityPool,
    before: &EntityComponents<P, V, R, S, B, C, Puppet<Sample, W>>,
    after: &EntityComponents<P, V, R, S, B, C, Puppet<Sample, W>>,
    input: &SceneInputState<Sample>,
    rest: Sample,
    aim: A,
    thrust: M,
    shift: F,
)
    requires
        updated(pool, before, after, input, rest, aim, thrust, shift),
    ensures
        steady(before, after),
        refreshed(pool, before.puppet@, after.puppet@, sample_of(input, rest)),
{
    let (mid, plans) = choose|
        mid: EntityComponents<P, V, R, S, B, C, Puppet<Sample, W>>,
        plans: Seq<(Entity, Seq<EntityDelta<T, R>>)>,
    |
        {
            &&& mid.position == before.position
            &&& mid.velocity == before.velocity
            &&& mid.rotation == before.rotation
            &&& mid.spin == before.spin
            &&& mid.volumes == before.volumes
            &&& mid.camera == before.camera
            &&& refreshed(pool, before.puppet@, mid.puppet@, sample_of(input, rest))
            &&& #[trigger] planned_all(pool.live_handles(), &mid, input, aim, thrust, plans)
            &&& #[trigger] applied_plans(plans, &mid, after, shift)
        };
    lemma_applied_plans_is_steady(plans, &mid, after, shift);
    assert forall|slot: int| 0 <= slot < before.puppet@.len() implies match (
        #[trigger] before.puppet@[slot],
        after.puppet@[slot],
    ) {
        (Some(old), Some(new)) => new.1 == old.1,
        (None, None) => true,
        _ => false,
    } by {
        assert(slot_refreshed(pool, before.puppet@, mid.puppet@, sample_of(input, rest), slot));
    }
}

/// A free camera as a puppet.
impl<Sample: Copy, W> From<FreeCameraPuppet<Sample, W>> for Puppet<Sample, W> {
    fn from(puppet: FreeCameraPuppet<Sample, W>) -> (converted: Self) {
        Puppet::FreeCamera(puppet)
    }
}

impl<Sample: Copy, W> vstd::std_specs::convert::FromSpecImpl<FreeCameraPuppet<Sample, W>> for Puppet<Sample, W> {
    open spec fn obeys_from_spec() -> bool {
        true
    }

    open spec fn from_spec(puppet: FreeCameraPuppet<Sample, W>) -> Self {
        Puppet::FreeCamera(puppet)
    }
}

} // verus!
