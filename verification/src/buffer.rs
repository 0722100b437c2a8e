//! Rotations that wait to be written.
//!
//! A pass computes first and writes afterwards: while it reads poses it
//! only stages its results here, and the scene is touched once the reading
//! is over. What the buffer holds belongs to one frame.

use vstd::prelude::*;
use bevy::math::Quat;
use crate::pose::EntityId;

verus! {

/// A local rotation on its way to the entity that it is meant for.
#[derive(Clone, Copy, Debug, PartialEq)]
pub struct StagedRotation {
    pub entity: EntityId,
    pub rotation: Quat,
}

/// Whether `s` holds a rotation for `entity`.
pub open spec fn is_staged(s: Seq<StagedRotation>, entity: EntityId) -> bool {
    exists|i: int| 0 <= i < s.len() && (#[trigger] s[i]).entity == entity
}

/// Whether no two rotations of `s` are meant for the same entity.
pub open spec fn distinct_entities(s: Seq<StagedRotation>) -> bool {
    forall|i: int, j: int|
        0 <= i < j < s.len() ==> (#[trigger] s[i]).entity != (#[trigger] s[j]).entity
}

/// The place in `s` of the rotation for `entity`, where there is one.
pub open spec fn place_of_entity(s: Seq<StagedRotation>, entity: EntityId) -> int {
    choose|i: int| 0 <= i < s.len() && (#[trigger] s[i]).entity == entity
}

/// The rotation that `s` holds for `entity`, if any.
pub open spec fn staged_rotation(s: Seq<StagedRotation>, entity: EntityId) -> Option<Quat> {
    if is_staged(s, entity) {
        Some(s[place_of_entity(s, entity)].rotation)
    } else {
        None
    }
}

/// `s` after `rotation` was staged for `entity`: it takes the place of the
/// rotation that was staged for that entity before, or goes to the end.
pub open spec fn with_staged(s: Seq<StagedRotation>, entity: EntityId, rotation: Quat) -> Seq<
    StagedRotation,
> {
    if is_staged(s, entity) {
        s.update(place_of_entity(s, entity), StagedRotation { entity, rotation })
    } else {
        s.push(StagedRotation { entity, rotation })
    }
}

/// The local rotations of a scene once `writes` were applied to `locals`,
/// one after the other. An entity for which nothing was written keeps what
/// it had.
pub open spec fn rotations_after(locals: Map<EntityId, Quat>, writes: Seq<StagedRotation>) -> Map<
    EntityId,
    Quat,
>
    decreases writes.len(),
{
    if writes.len() == 0 {
        locals
    } else {
        rotations_after(locals, writes.drop_last()).insert(
            writes.last().entity,
            writes.last().rotation,
        )
    }
}

/// Staging keeps the entities distinct, makes `entity` staged and leaves
/// every other entity staged or not as it was.
pub proof fn lemma_with_staged_entities(s: Seq<StagedRotation>, entity: EntityId, rotation: Quat)
    requires
        distinct_entities(s),
    ensures
        distinct_entities(with_staged(s, entity, rotation)),
        forall|other: EntityId|
            is_staged(with_staged(s, entity, rotation), other) <==> (other == entity || is_staged(
                s,
                other,
            )),
{
    let t = with_staged(s, entity, rotation);
    let last = if is_staged(s, entity) {
        place_of_entity(s, entity)
    } else {
        s.len() as int
    };
    assert(t[last].entity == entity);
    assert forall|other: EntityId| is_staged(t, other) implies other == entity || is_staged(
        s,
        other,
    ) by {
        let i = place_of_entity(t, other);
        if other != entity {
            assert(s[i].entity == other);
        }
    }
    assert forall|other: EntityId| other != entity && is_staged(s, other) implies is_staged(
        t,
        other,
    ) by {
        let i = place_of_entity(s, other);
        assert(t[i].entity == other);
    }
}

/// After staging, `entity` holds the new rotation and every other entity
/// holds what it held.
pub proof fn lemma_with_staged_rotations(
    s: Seq<StagedRotation>,
    entity: EntityId,
    rotation: Quat,
    other: EntityId,
)
    requires
        distinct_entities(s),
    ensures
        staged_rotation(with_staged(s, entity, rotation), other) == (if other == entity {
            Some(rotation)
        } else {
            staged_rotation(s, other)
        }),
{
    let t = with_staged(s, entity, rotation);
    lemma_with_staged_entities(s, entity, rotation);
    if is_staged(t, other) {
        let i = place_of_entity(t, other);
        if other == entity {
            let k = if is_staged(s, entity) {
                place_of_entity(s, entity)
            } else {
                s.len() as int
            };
            assert(t[k].entity == entity);
            assert(i == k);
        } else {
            let j = place_of_entity(s, other);
            assert(t[j].entity == other);
            assert(i == j);
        }
    }
}

/// Applying writes changes nothing for an entity that none of them is
/// meant for.
pub proof fn lemma_unstaged_entity_keeps_rotation(
    locals: Map<EntityId, Quat>,
    writes: Seq<StagedRotation>,
    entity: EntityId,
)
    requires
        !is_staged(writes, entity),
    ensures
        rotations_after(locals, writes).contains_key(entity) == locals.contains_key(entity),
        rotations_after(locals, writes)[entity] == locals[entity],
    decreases writes.len(),
{
    if writes.len() > 0 {
        let earlier = writes.drop_last();
        assert forall|i: int| 0 <= i < earlier.len() implies (#[trigger] earlier[i]).entity
            != entity by {
            assert(writes[i].entity != entity);
        }
        assert(writes[writes.len() - 1].entity != entity);
        lemma_unstaged_entity_keeps_rotation(locals, earlier, entity);
    }
}

/// Applying writes that are meant for distinct entities leaves each of
/// those entities with the rotation staged for it.
pub proof fn lemma_staged_entity_gets_rotation(
    locals: Map<EntityId, Quat>,
    writes: Seq<StagedRotation>,
    entity: EntityId,
)
    requires
        distinct_entities(writes),
        is_staged(writes, entity),
    ensures
        rotations_after(locals, writes).contains_key(entity),
        Some(rotations_after(locals, writes)[entity]) == staged_rotation(writes, entity),
    decreases writes.len(),
{
    let k = place_of_entity(writes, entity);
    let earlier = writes.drop_last();
    if k < writes.len() - 1 {
        assert(earlier[k].entity == entity);
        assert forall|i: int, j: int| 0 <= i < j < earlier.len() implies (
        #[trigger] earlier[i]).entity != (#[trigger] earlier[j]).entity by {
            assert(writes[i].entity != writes[j].entity);
        }
        lemma_staged_entity_gets_rotation(locals, earlier, entity);
        assert(writes[place_of_entity(earlier, entity)].entity == entity);
    }
}

/// The staged rotations of one frame, at most one for each entity.
pub struct DeferredWriteBuffer {
    staged: Vec<StagedRotation>,
}

impl View for DeferredWriteBuffer {
    type V = Seq<StagedRotation>;

    closed spec fn view(&self) -> Seq<StagedRotation> {
        self.staged@
    }
}

impl DeferredWriteBuffer {
    #[verifier::type_invariant]
    spec fn entities_are_distinct(&self) -> bool {
        distinct_entities(self.staged@)
    }

    /// A buffer with nothing staged.
    pub fn new() -> (buffer: Self)
        ensures
            buffer@ == Seq::<StagedRotation>::empty(),
    {
        DeferredWriteBuffer { staged: Vec::new() }
    }

    /// The place of the rotation staged for `entity`, if there is one.
    fn find(&self, entity: EntityId) -> (place: Option<usize>)
        ensures
            match place {
                Some(i) => is_staged(self@, entity) && i as int == place_of_entity(self@, entity),
                None => !is_staged(self@, entity),
            },
    {
        proof {
            use_type_invariant(self);
        }
        let mut i: usize = 0;
        while i < self.staged.len()
            invariant
                i <= self.staged.len(),
                distinct_entities(self.staged@),
                forall|j: int| 0 <= j < i ==> (#[trigger] self.staged@[j]).entity != entity,
            decreases self.staged.len() - i,
        {
            if self.staged[i].entity == entity {
                proof {
                    assert(self@[i as int].entity == entity);
                    assert(place_of_entity(self@, entity) == i);
                }
                return Some(i);
            }
            i += 1;
        }
        None
    }

    /// Stages `rotation` for `entity`. A rotation staged for the same entity
    /// earlier in the frame is overwritten where it stood.
    pub fn stage(&mut self, entity: EntityId, rotation: Quat)
        ensures
            final(self)@ == with_staged(old(self)@, entity, rotation),
            distinct_entities(final(self)@),
    {
        proof {
            use_type_invariant(&*self);
        }
        let place = self.find(entity);
        let mut held: Vec<StagedRotation> = Vec::new();
        std::mem::swap(&mut self.staged, &mut held);
        match place {
            Some(i) => {
                held.set(i, StagedRotation { entity, rotation });
            },
            None => {
                held.push(StagedRotation { entity, rotation });
            },
        }
        std::mem::swap(&mut self.staged, &mut held);
    }

    /// The rotation staged for `entity`, if any.
    pub fn get(&self, entity: EntityId) -> (rotation: Option<Quat>)
        ensures
            rotation == staged_rotation(self@, entity),
    {
        match self.find(entity) {
            Some(i) => Some(self.staged[i].rotation),
            None => None,
        }
    }

    /// How many rotations are staged.
    pub fn len(&self) -> (n: usize)
        ensures
            n == self@.len(),
    {
        self.staged.len()
    }

    /// Whether nothing is staged.
    pub fn is_empty(&self) -> (empty: bool)
        ensures
            empty == (self@.len() == 0),
    {
        self.staged.len() == 0
    }

    /// Drops everything that is staged.
    pub fn clear(&mut self)
        ensures
            final(self)@ == Seq::<StagedRotation>::empty(),
    {
        let mut held: Vec<StagedRotation> = Vec::new();
        std::mem::swap(&mut self.staged, &mut held);
    }

    /// Hands out every staged rotation, in the order of staging, for the
    /// caller to write to the scene, and leaves the buffer empty.
    pub fn flush(&mut self) -> (writes: Vec<StagedRotation>)
        ensures
            writes@ == old(self)@,
            distinct_entities(writes@),
            final(self)@ == Seq::<StagedRotation>::empty(),
    {
        proof {
            use_type_invariant(&*self);
        }
        let mut held: Vec<StagedRotation> = Vec::new();
        std::mem::swap(&mut self.staged, &mut held);
        held
    }
}

} // verus!
