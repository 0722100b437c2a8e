//! The poses of one frame, as the pass reads them.
//!
//! The scene hierarchy lives elsewhere. What a pass needs of it is copied
//! into a [`PoseSource`] before the pass begins: for each entity its
//! parent, the world pose that the last propagation left behind, and the
//! world pose recomputed from the local transforms as they are now. A pass
//! only reads the source, so nothing that it computes can disturb what it
//! still has to read.

use vstd::prelude::*;
use std::collections::HashMap;
use crate::pose::{EntityId, Pose};

verus! {

broadcast use vstd::std_specs::hash::group_hash_axioms;

/// Which of an entity's two world poses a pass goes by.
#[derive(Clone, Copy, Debug, PartialEq, Eq, Structural)]
pub enum PoseStrategy {
    /// The pose left by the last propagation. Costs nothing, but a rotator
    /// that hangs below another rotator sees its parent one frame late.
    TrustCached,
    /// The pose recomputed from the root down with the local transforms of
    /// this frame.
    ForceFresh,
}

/// What the scene says of one entity in this frame. A pose is `None` where
/// the scene could not produce it.
#[derive(Clone, Copy, Debug, PartialEq)]
pub struct SceneRecord {
    pub parent: Option<EntityId>,
    pub cached: Option<Pose>,
    pub fresh: Option<Pose>,
}

impl SceneRecord {
    /// The record of an entity of which nothing is known.
    pub open spec fn unknown() -> SceneRecord {
        SceneRecord { parent: None, cached: None, fresh: None }
    }

    /// The pose that `strategy` goes by.
    pub open spec fn pose(self, strategy: PoseStrategy) -> Option<Pose> {
        match strategy {
            PoseStrategy::TrustCached => self.cached,
            PoseStrategy::ForceFresh => self.fresh,
        }
    }

    /// This record with `pose` as the pose that `strategy` goes by.
    pub open spec fn with_pose(self, strategy: PoseStrategy, pose: Option<Pose>) -> SceneRecord {
        match strategy {
            PoseStrategy::TrustCached => SceneRecord { cached: pose, ..self },
            PoseStrategy::ForceFresh => SceneRecord { fresh: pose, ..self },
        }
    }

    /// This record with `parent` as the entity's parent.
    pub open spec fn with_parent(self, parent: Option<EntityId>) -> SceneRecord {
        SceneRecord { parent, ..self }
    }
}

/// What `scene` holds for `entity`; the record of an unknown entity where
/// it holds nothing.
pub open spec fn record_in(scene: Map<EntityId, SceneRecord>, entity: EntityId) -> SceneRecord {
    if scene.contains_key(entity) {
        scene[entity]
    } else {
        SceneRecord::unknown()
    }
}

/// The world pose of `entity` under `strategy`; `None` where the scene does
/// not know the entity or has no such pose for it.
pub open spec fn pose_in(
    scene: Map<EntityId, SceneRecord>,
    strategy: PoseStrategy,
    entity: EntityId,
) -> Option<Pose> {
    if scene.contains_key(entity) {
        scene[entity].pose(strategy)
    } else {
        None
    }
}

/// The parent of `entity`, if the scene knows the entity and it has one.
pub open spec fn parent_in(scene: Map<EntityId, SceneRecord>, entity: EntityId) -> Option<
    EntityId,
> {
    if scene.contains_key(entity) {
        scene[entity].parent
    } else {
        None
    }
}

/// The records of one frame, keyed by entity.
pub struct PoseSource {
    records: HashMap<EntityId, SceneRecord>,
}

impl View for PoseSource {
    type V = Map<EntityId, SceneRecord>;

    closed spec fn view(&self) -> Map<EntityId, SceneRecord> {
        self.records@
    }
}

impl PoseSource {
    /// A source that knows no entity.
    pub fn new() -> (source: Self)
        ensures
            source@ == Map::<EntityId, SceneRecord>::empty(),
    {
        PoseSource { records: HashMap::new() }
    }

    /// Records what the scene says of `entity`, in place of what was
    /// recorded for it before.
    pub fn insert(&mut self, entity: EntityId, record: SceneRecord)
        ensures
            final(self)@ == old(self)@.insert(entity, record),
    {
        self.records.insert(entity, record);
    }

    /// Records `pose` as the pose of `entity` that `strategy` goes by. What
    /// else is recorded for `entity` stays.
    pub fn set_pose(&mut self, entity: EntityId, strategy: PoseStrategy, pose: Option<Pose>)
        ensures
            final(self)@ == old(self)@.insert(
                entity,
                record_in(old(self)@, entity).with_pose(strategy, pose),
            ),
    {
        let held = match self.record(entity) {
            Some(record) => record,
            None => SceneRecord { parent: None, cached: None, fresh: None },
        };
        let record = match strategy {
            PoseStrategy::TrustCached => SceneRecord {
                parent: held.parent,
                cached: pose,
                fresh: held.fresh,
            },
            PoseStrategy::ForceFresh => SceneRecord {
                parent: held.parent,
                cached: held.cached,
                fresh: pose,
            },
        };
        self.records.insert(entity, record);
    }

    /// Records `parent` as the parent of `entity`. The poses recorded for
    /// `entity` stay.
    pub fn set_parent(&mut self, entity: EntityId, parent: Option<EntityId>)
        ensures
            final(self)@ == old(self)@.insert(
                entity,
                record_in(old(self)@, entity).with_parent(parent),
            ),
    {
        let held = match self.record(entity) {
            Some(record) => record,
            None => SceneRecord { parent: None, cached: None, fresh: None },
        };
        self.records.insert(
            entity,
            SceneRecord { parent, cached: held.cached, fresh: held.fresh },
        );
    }

    /// What was recorded for `entity`, if anything.
    pub fn record(&self, entity: EntityId) -> (found: Option<SceneRecord>)
        ensures
            found == (if self@.contains_key(entity) {
                Some(self@[entity])
            } else {
                None
            }),
    {
        match self.records.get(&entity) {
            Some(record) => Some(*record),
            None => None,
        }
    }

    /// The world pose of `entity` under `strategy`. The lookup fails, with
    /// `None`, for an entity that the source does not know and for one
    /// whose pose the scene could not produce.
    pub fn pose(&self, entity: EntityId, strategy: PoseStrategy) -> (pose: Option<Pose>)
        ensures
            pose == pose_in(self@, strategy, entity),
    {
        match self.record(entity) {
            Some(record) => match strategy {
                PoseStrategy::TrustCached => record.cached,
                PoseStrategy::ForceFresh => record.fresh,
            },
            None => None,
        }
    }

    /// The parent of `entity`, if it has one.
    pub fn parent_of(&self, entity: EntityId) -> (parent: Option<EntityId>)
        ensures
            parent == parent_in(self@, entity),
    {
        match self.record(entity) {
            Some(record) => record.parent,
            None => None,
        }
    }
}

} // verus!
