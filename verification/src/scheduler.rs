//! One facing pass over all bindings of a frame.
//!
//! A pass reads a [`PoseSource`], decides for every binding whether it can
//! be served, and stages the local rotation of each rotator that can. It
//! writes to nothing but the buffer: the caller flushes the buffer into the
//! scene when the pass is over. A binding that cannot be served is reported
//! and skipped; it never stops the pass or touches another binding.

use vstd::prelude::*;
use bevy::math::Quat;
use crate::binding::{BindingStore, TargetBinding};
use crate::buffer::{with_staged, DeferredWriteBuffer, StagedRotation};
use crate::pose::{EntityId, Pose};
use crate::resolve::{resolve_up_direction, resolved_up};
use crate::rotation::{calculate_local_rotation_to_target, local_rotation};
use crate::source::{parent_in, pose_in, PoseSource, PoseStrategy, SceneRecord};

verus! {

/// Why a binding was skipped in this frame.
#[derive(Clone, Copy, Debug, PartialEq, Eq, Structural)]
pub enum Diagnostic {
    /// The target of `owner`'s binding has no world pose: the entity is
    /// gone, or the hierarchy above it is broken.
    MissingTarget { owner: EntityId, target: EntityId },
    /// The rotator itself has no world pose.
    MissingRotatorPose { owner: EntityId },
}

impl Diagnostic {
    /// The rotator whose binding was skipped.
    pub open spec fn spec_owner(&self) -> EntityId {
        match *self {
            Diagnostic::MissingTarget { owner, .. } => owner,
            Diagnostic::MissingRotatorPose { owner } => owner,
        }
    }

    /// The rotator whose binding was skipped.
    #[verifier::when_used_as_spec(spec_owner)]
    pub fn owner(&self) -> (owner: EntityId)
        ensures
            owner == self.spec_owner(),
    {
        match self {
            Diagnostic::MissingTarget { owner, .. } => *owner,
            Diagnostic::MissingRotatorPose { owner } => *owner,
        }
    }
}

/// The world pose, under `strategy`, of the parent of `entity`; `None`
/// where `entity` has no parent or the parent has no such pose.
pub open spec fn parent_pose_in(
    scene: Map<EntityId, SceneRecord>,
    strategy: PoseStrategy,
    entity: EntityId,
) -> Option<Pose> {
    match parent_in(scene, entity) {
        Some(parent) => pose_in(scene, strategy, parent),
        None => None,
    }
}

/// What a pass makes of one binding: the local rotation to store in its
/// owner, or the reason for skipping it. The target is looked up first, so
/// a binding that lacks both poses is reported for its target.
pub open spec fn facing_of(
    scene: Map<EntityId, SceneRecord>,
    strategy: PoseStrategy,
    binding: TargetBinding,
) -> Result<Quat, Diagnostic> {
    match pose_in(scene, strategy, binding.target) {
        None => Err(Diagnostic::MissingTarget { owner: binding.owner, target: binding.target }),
        Some(target_pose) => match pose_in(scene, strategy, binding.owner) {
            None => Err(Diagnostic::MissingRotatorPose { owner: binding.owner }),
            Some(rotator_pose) => {
                let parent_pose = parent_pose_in(scene, strategy, binding.owner);
                Ok(
                    local_rotation(
                        rotator_pose,
                        target_pose,
                        parent_pose,
                        resolved_up(binding.up_policy, target_pose, parent_pose),
                    ),
                )
            },
        },
    }
}

/// The rotations that a pass over `bindings`, taken in order, leaves in a
/// buffer that was empty when it began.
pub open spec fn staged_by_pass(
    scene: Map<EntityId, SceneRecord>,
    strategy: PoseStrategy,
    bindings: Seq<TargetBinding>,
) -> Seq<StagedRotation>
    decreases bindings.len(),
{
    if bindings.len() == 0 {
        Seq::empty()
    } else {
        let before = staged_by_pass(scene, strategy, bindings.drop_last());
        match facing_of(scene, strategy, bindings.last()) {
            Ok(rotation) => with_staged(before, bindings.last().owner, rotation),
            Err(_) => before,
        }
    }
}

/// The diagnostics that a pass over `bindings` reports, one for each
/// binding that it skips, in the order of the bindings.
pub open spec fn reported_by_pass(
    scene: Map<EntityId, SceneRecord>,
    strategy: PoseStrategy,
    bindings: Seq<TargetBinding>,
) -> Seq<Diagnostic>
    decreases bindings.len(),
{
    if bindings.len() == 0 {
        Seq::empty()
    } else {
        let before = reported_by_pass(scene, strategy, bindings.drop_last());
        match facing_of(scene, strategy, bindings.last()) {
            Ok(_) => before,
            Err(diagnostic) => before.push(diagnostic),
        }
    }
}

/// Serves one binding: looks up the target, the rotator and the rotator's
/// parent in `source`, resolves the up reference and calculates the local
/// rotation of the rotator. Fails with the matching diagnostic where the
/// target, or else the rotator, has no world pose; a parent without a pose
/// counts as no parent.
pub fn face_target(source: &PoseSource, strategy: PoseStrategy, binding: &TargetBinding) -> (facing:
    Result<Quat, Diagnostic>)
    ensures
        facing == facing_of(source@, strategy, *binding),
{
    let target_pose = match source.pose(binding.target, strategy) {
        Some(pose) => pose,
        None => {
            return Err(
                Diagnostic::MissingTarget { owner: binding.owner, target: binding.target },
            );
        },
    };
    let parent_pose = match source.parent_of(binding.owner) {
        Some(parent) => source.pose(parent, strategy),
        None => None,
    };
    let up = resolve_up_direction(binding.up_policy, &target_pose, parent_pose);
    let rotator_pose = match source.pose(binding.owner, strategy) {
        Some(pose) => pose,
        None => {
            return Err(Diagnostic::MissingRotatorPose { owner: binding.owner });
        },
    };
    Ok(calculate_local_rotation_to_target(&rotator_pose, &target_pose, parent_pose, up))
}

/// Runs one pass. The buffer is emptied first, whatever an earlier frame
/// left in it. Then every binding is served in turn: its rotation is
/// staged for its owner, or its diagnostic is added to the report and
/// nothing is staged for it.
pub fn run_update_pass(
    source: &PoseSource,
    strategy: PoseStrategy,
    bindings: &BindingStore,
    buffer: &mut DeferredWriteBuffer,
) -> (report: Vec<Diagnostic>)
    ensures
        final(buffer)@ == staged_by_pass(source@, strategy, bindings@),
        report@ == reported_by_pass(source@, strategy, bindings@),
{
    buffer.clear();
    let all = bindings.bindings();
    let mut report: Vec<Diagnostic> = Vec::new();
    let mut i: usize = 0;
    while i < all.len()
        invariant
            i <= all.len(),
            buffer@ == staged_by_pass(source@, strategy, all@.take(i as int)),
            report@ == reported_by_pass(source@, strategy, all@.take(i as int)),
        decreases all.len() - i,
    {
        let binding = all[i];
        proof {
            assert(all@.take(i + 1).drop_last() == all@.take(i as int));
        }
        match face_target(source, strategy, &binding) {
            Ok(rotation) => {
                buffer.stage(binding.owner, rotation);
            },
            Err(diagnostic) => {
                report.push(diagnostic);
            },
        }
        i += 1;
    }
    proof {
        assert(all@.take(i as int) == all@);
    }
    report
}

/// The pass that goes by the poses of the last propagation and recomputes
/// nothing.
pub fn rotate_towards_without_updating_global_transforms(
    source: &PoseSource,
    bindings: &BindingStore,
    buffer: &mut DeferredWriteBuffer,
) -> (report: Vec<Diagnostic>)
    ensures
        final(buffer)@ == staged_by_pass(source@, PoseStrategy::TrustCached, bindings@),
        report@ == reported_by_pass(source@, PoseStrategy::TrustCached, bindings@),
{
    run_update_pass(source, PoseStrategy::TrustCached, bindings, buffer)
}

/// The pass that goes by the poses recomputed for this frame.
pub fn rotate_towards_with_updated_global_transforms(
    source: &PoseSource,
    bindings: &BindingStore,
    buffer: &mut DeferredWriteBuffer,
) -> (report: Vec<Diagnostic>)
    ensures
        final(buffer)@ == staged_by_pass(source@, PoseStrategy::ForceFresh, bindings@),
        report@ == reported_by_pass(source@, PoseStrategy::ForceFresh, bindings@),
{
    run_update_pass(source, PoseStrategy::ForceFresh, bindings, buffer)
}

/// The configuration of the facing subsystem: one choice for the whole
/// host, not one per binding.
#[derive(Clone, Copy, Debug, PartialEq, Eq, Structural)]
pub struct RotateTowardsPlugin {
    calculate_new_globals: bool,
}

impl Default for RotateTowardsPlugin {
    /// Recomputes world poses before rotating.
    fn default() -> (plugin: Self)
        ensures
            plugin.strategy() == PoseStrategy::ForceFresh,
    {
        Self::new(true)
    }
}

impl RotateTowardsPlugin {
    /// With `calculate_new_globals` the passes recompute world poses before
    /// they rotate, which costs a walk of the hierarchy for each pose and
    /// keeps chained rotators from lagging a frame behind; without it they
    /// trust the poses of the last propagation.
    pub fn new(calculate_new_globals: bool) -> (plugin: Self)
        ensures
            plugin.strategy() == (if calculate_new_globals {
                PoseStrategy::ForceFresh
            } else {
                PoseStrategy::TrustCached
            }),
    {
        Self { calculate_new_globals }
    }

    /// The strategy that this configuration selects.
    pub closed spec fn spec_strategy(&self) -> PoseStrategy {
        if self.calculate_new_globals {
            PoseStrategy::ForceFresh
        } else {
            PoseStrategy::TrustCached
        }
    }

    /// The strategy that this configuration selects.
    #[verifier::when_used_as_spec(spec_strategy)]
    pub fn strategy(&self) -> (strategy: PoseStrategy)
        ensures
            strategy == self.spec_strategy(),
    {
        if self.calculate_new_globals {
            PoseStrategy::ForceFresh
        } else {
            PoseStrategy::TrustCached
        }
    }

    /// Runs the pass that this configuration selects.
    pub fn update(
        &self,
        source: &PoseSource,
        bindings: &BindingStore,
        buffer: &mut DeferredWriteBuffer,
    ) -> (report: Vec<Diagnostic>)
        ensures
            final(buffer)@ == staged_by_pass(source@, self.strategy(), bindings@),
            report@ == reported_by_pass(source@, self.strategy(), bindings@),
    {
        if self.calculate_new_globals {
            rotate_towards_with_updated_global_transforms(source, bindings, buffer)
        } else {
            rotate_towards_without_updating_global_transforms(source, bindings, buffer)
        }
    }
}

} // verus!
