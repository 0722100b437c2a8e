//! Facing relationships and the store that holds them.
//!
//! A binding says that one entity, its owner, is to face another, its
//! target, and which up reference fixes the roll. Bindings are independent
//! of one another and carry no state from frame to frame.

use vstd::prelude::*;
use bevy::math::Dir3;
use crate::pose::EntityId;

verus! {

/// Which up reference the rotated entity matches its own up axis to.
#[derive(Clone, Copy, Debug, PartialEq)]
pub enum UpDirection {
    /// The up axis of the target.
    Target,
    /// The up axis of the rotated entity's parent; the world's vertical axis
    /// where it has no parent.
    Parent,
    /// A fixed direction chosen by the caller.
    Dir(Dir3),
}

impl Default for UpDirection {
    fn default() -> (policy: Self)
        ensures
            policy == UpDirection::Target,
    {
        UpDirection::Target
    }
}

/// The request attached to an entity: face `entity`, with `updir` as the up
/// reference.
#[derive(Clone, Copy, Debug, PartialEq)]
pub struct RotateTo {
    pub entity: EntityId,
    pub updir: UpDirection,
}

/// A request together with the entity that carries it.
#[derive(Clone, Copy, Debug, PartialEq)]
pub struct TargetBinding {
    pub owner: EntityId,
    pub target: EntityId,
    pub up_policy: UpDirection,
}

impl TargetBinding {
    /// The request that this binding was made from.
    pub open spec fn request(self) -> RotateTo {
        RotateTo { entity: self.target, updir: self.up_policy }
    }
}

/// The entities that face a given target, in the order of their bindings.
#[derive(Debug, PartialEq)]
pub struct RotatedToBy(pub Vec<EntityId>);

/// Whether some binding of `s` belongs to `owner`.
pub open spec fn has_owner(s: Seq<TargetBinding>, owner: EntityId) -> bool {
    exists|i: int| 0 <= i < s.len() && (#[trigger] s[i]).owner == owner
}

/// Whether no two bindings of `s` belong to the same entity.
pub open spec fn distinct_owners(s: Seq<TargetBinding>) -> bool {
    forall|i: int, j: int| 0 <= i < j < s.len() ==> (#[trigger] s[i]).owner != (#[trigger] s[j]).owner
}

/// The place of `owner`'s binding in `s`, where it has one.
pub open spec fn place_of_owner(s: Seq<TargetBinding>, owner: EntityId) -> int {
    choose|i: int| 0 <= i < s.len() && (#[trigger] s[i]).owner == owner
}

/// The request bound to `owner` in `s`, if any.
pub open spec fn request_of(s: Seq<TargetBinding>, owner: EntityId) -> Option<RotateTo> {
    if has_owner(s, owner) {
        Some(s[place_of_owner(s, owner)].request())
    } else {
        None
    }
}

/// `s` after `binding` was attached: it takes the place of the binding that
/// its owner had, or goes to the end where the owner had none.
pub open spec fn with_binding(s: Seq<TargetBinding>, binding: TargetBinding) -> Seq<TargetBinding> {
    if has_owner(s, binding.owner) {
        s.update(place_of_owner(s, binding.owner), binding)
    } else {
        s.push(binding)
    }
}

/// `s` after the binding of `owner` was taken out, the others keeping their
/// order.
pub open spec fn without_owner(s: Seq<TargetBinding>, owner: EntityId) -> Seq<TargetBinding> {
    if has_owner(s, owner) {
        s.remove(place_of_owner(s, owner))
    } else {
        s
    }
}

/// The owners of the bindings of `s` that face `target`, in order.
pub open spec fn owners_facing(s: Seq<TargetBinding>, target: EntityId) -> Seq<EntityId>
    decreases s.len(),
{
    if s.len() == 0 {
        Seq::empty()
    } else if s.last().target == target {
        owners_facing(s.drop_last(), target).push(s.last().owner)
    } else {
        owners_facing(s.drop_last(), target)
    }
}

/// Bindings with distinct owners stay so when the last one is left out.
pub proof fn lemma_distinct_owners_without_last(s: Seq<TargetBinding>)
    requires
        distinct_owners(s),
        s.len() > 0,
    ensures
        distinct_owners(s.drop_last()),
{
    let earlier = s.drop_last();
    assert forall|i: int, j: int| 0 <= i < j < earlier.len() implies (#[trigger] earlier[i]).owner
        != (#[trigger] earlier[j]).owner by {
        assert(s[i].owner != s[j].owner);
    }
}

/// The active bindings, at most one for each owner.
pub struct BindingStore {
    bindings: Vec<TargetBinding>,
}

impl View for BindingStore {
    type V = Seq<TargetBinding>;

    closed spec fn view(&self) -> Seq<TargetBinding> {
        self.bindings@
    }
}

impl BindingStore {
    #[verifier::type_invariant]
    spec fn owners_are_distinct(&self) -> bool {
        distinct_owners(self.bindings@)
    }

    /// A store without bindings.
    pub fn new() -> (store: Self)
        ensures
            store@ == Seq::<TargetBinding>::empty(),
    {
        BindingStore { bindings: Vec::new() }
    }

    /// The place of `owner`'s binding, if it has one.
    fn find(&self, owner: EntityId) -> (place: Option<usize>)
        ensures
            match place {
                Some(i) => has_owner(self@, owner) && i as int == place_of_owner(self@, owner),
                None => !has_owner(self@, owner),
            },
    {
        proof {
            use_type_invariant(self);
        }
        let mut i: usize = 0;
        while i < self.bindings.len()
            invariant
                i <= self.bindings.len(),
                distinct_owners(self.bindings@),
                forall|j: int| 0 <= j < i ==> (#[trigger] self.bindings@[j]).owner != owner,
            decreases self.bindings.len() - i,
        {
            if self.bindings[i].owner == owner {
                proof {
                    assert(self@[i as int].owner == owner);
                    assert(place_of_owner(self@, owner) == i);
                }
                return Some(i);
            }
            i += 1;
        }
        None
    }

    /// Attaches `request` to `owner`. A request that `owner` already carried
    /// is replaced where it stood; a new one goes to the end.
    pub fn attach(&mut self, owner: EntityId, request: RotateTo)
        ensures
            final(self)@ == with_binding(
                old(self)@,
                TargetBinding { owner, target: request.entity, up_policy: request.updir },
            ),
            distinct_owners(final(self)@),
    {
        proof {
            use_type_invariant(&*self);
        }
        let binding = TargetBinding { owner, target: request.entity, up_policy: request.updir };
        let place = self.find(owner);
        let mut held: Vec<TargetBinding> = Vec::new();
        std::mem::swap(&mut self.bindings, &mut held);
        match place {
            Some(i) => {
                held.set(i, binding);
            },
            None => {
                held.push(binding);
            },
        }
        std::mem::swap(&mut self.bindings, &mut held);
    }

    /// Takes the binding of `owner` out and returns its request; `None`,
    /// and no change, where `owner` carried none.
    pub fn remove(&mut self, owner: EntityId) -> (removed: Option<RotateTo>)
        ensures
            removed == request_of(old(self)@, owner),
            final(self)@ == without_owner(old(self)@, owner),
            distinct_owners(final(self)@),
    {
        proof {
            use_type_invariant(&*self);
        }
        match self.find(owner) {
            Some(i) => {
                let mut held: Vec<TargetBinding> = Vec::new();
                std::mem::swap(&mut self.bindings, &mut held);
                let binding = held.remove(i);
                std::mem::swap(&mut self.bindings, &mut held);
                Some(RotateTo { entity: binding.target, updir: binding.up_policy })
            },
            None => None,
        }
    }

    /// The request bound to `owner`, if any.
    pub fn get(&self, owner: EntityId) -> (request: Option<RotateTo>)
        ensures
            request == request_of(self@, owner),
    {
        match self.find(owner) {
            Some(i) => {
                let binding = self.bindings[i];
                Some(RotateTo { entity: binding.target, updir: binding.up_policy })
            },
            None => None,
        }
    }

    /// How many bindings are active.
    pub fn len(&self) -> (n: usize)
        ensures
            n == self@.len(),
    {
        self.bindings.len()
    }

    /// All active bindings, in the order in which their owners were first
    /// attached.
    pub fn bindings(&self) -> (all: &Vec<TargetBinding>)
        ensures
            all@ == self@,
            distinct_owners(all@),
    {
        proof {
            use_type_invariant(self);
        }
        &self.bindings
    }

    /// The entities whose bindings face `target`.
    pub fn rotated_to_by(&self, target: EntityId) -> (facing: RotatedToBy)
        ensures
            facing.0@ == owners_facing(self@, target),
    {
        let mut owners: Vec<EntityId> = Vec::new();
        let mut i: usize = 0;
        while i < self.bindings.len()
            invariant
                i <= self.bindings.len(),
                owners@ == owners_facing(self.bindings@.take(i as int), target),
            decreases self.bindings.len() - i,
        {
            let binding = self.bindings[i];
            proof {
                assert(self.bindings@.take(i + 1).drop_last() == self.bindings@.take(i as int));
            }
            if binding.target == target {
                owners.push(binding.owner);
            }
            i += 1;
        }
        proof {
            assert(self.bindings@.take(i as int) == self.bindings@);
        }
        RotatedToBy(owners)
    }
}

} // verus!
