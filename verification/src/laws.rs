//! What holds of every pass, whatever the scene.

use vstd::prelude::*;
use bevy::math::{Dir3, Quat};
use crate::binding::{
    distinct_owners, lemma_distinct_owners_without_last, TargetBinding, UpDirection,
};
use crate::buffer::{
    distinct_entities, is_staged, lemma_staged_entity_gets_rotation,
    lemma_unstaged_entity_keeps_rotation, lemma_with_staged_entities,
    lemma_with_staged_rotations, rotations_after, staged_rotation,
};
use crate::math::direction_vector;
use crate::pose::{EntityId, Pose};
use crate::resolve::{resolved_up, world_vertical};
use crate::scheduler::{facing_of, parent_pose_in, reported_by_pass, staged_by_pass, Diagnostic};
use crate::source::{pose_in, PoseStrategy, SceneRecord};

verus! {

/// How many diagnostics of `report` are about `owner`.
pub open spec fn reports_about(report: Seq<Diagnostic>, owner: EntityId) -> nat
    decreases report.len(),
{
    if report.len() == 0 {
        0
    } else if report.last().spec_owner() == owner {
        reports_about(report.drop_last(), owner) + 1
    } else {
        reports_about(report.drop_last(), owner)
    }
}

/// Whether the poses that `binding` reads are the same in both scenes: the
/// rotator's, the target's and that of the rotator's parent.
pub open spec fn reads_same_poses(
    before: Map<EntityId, SceneRecord>,
    after: Map<EntityId, SceneRecord>,
    strategy: PoseStrategy,
    binding: TargetBinding,
) -> bool {
    &&& pose_in(before, strategy, binding.owner) == pose_in(after, strategy, binding.owner)
    &&& pose_in(before, strategy, binding.target) == pose_in(after, strategy, binding.target)
    &&& parent_pose_in(before, strategy, binding.owner) == parent_pose_in(
        after,
        strategy,
        binding.owner,
    )
}

/// Whether the two strategies read the same poses for `binding`: for the
/// rotator, the target and the rotator's parent the recomputed pose is the
/// one that the last propagation left.
pub open spec fn strategies_read_same_poses(
    scene: Map<EntityId, SceneRecord>,
    binding: TargetBinding,
) -> bool {
    &&& pose_in(scene, PoseStrategy::TrustCached, binding.owner) == pose_in(
        scene,
        PoseStrategy::ForceFresh,
        binding.owner,
    )
    &&& pose_in(scene, PoseStrategy::TrustCached, binding.target) == pose_in(
        scene,
        PoseStrategy::ForceFresh,
        binding.target,
    )
    &&& parent_pose_in(scene, PoseStrategy::TrustCached, binding.owner) == parent_pose_in(
        scene,
        PoseStrategy::ForceFresh,
        binding.owner,
    )
}

/// A rotator without a parent that follows its parent's up axis is turned
/// exactly as one that is given the world's vertical axis as a fixed
/// direction.
pub proof fn law_parent_policy_without_parent_is_vertical(
    target: Pose,
    vertical: Dir3,
    scene: Map<EntityId, SceneRecord>,
    strategy: PoseStrategy,
    owner: EntityId,
    target_entity: EntityId,
)
    requires
        direction_vector(vertical) == world_vertical(),
    ensures
        resolved_up(UpDirection::Parent, target, None) == resolved_up(
            UpDirection::Dir(vertical),
            target,
            None,
        ),
        parent_pose_in(scene, strategy, owner) is None ==> facing_of(
            scene,
            strategy,
            TargetBinding { owner, target: target_entity, up_policy: UpDirection::Parent },
        ) == facing_of(
            scene,
            strategy,
            TargetBinding { owner, target: target_entity, up_policy: UpDirection::Dir(vertical) },
        ),
{
}

/// What a pass makes of a binding depends on the three poses that the
/// binding reads and on nothing else: with these unchanged, computing again
/// gives the same rotation, or the same diagnostic, whatever else has
/// changed in the scene.
pub proof fn law_unchanged_poses_same_facing(
    before: Map<EntityId, SceneRecord>,
    after: Map<EntityId, SceneRecord>,
    strategy: PoseStrategy,
    binding: TargetBinding,
)
    requires
        reads_same_poses(before, after, strategy, binding),
    ensures
        facing_of(before, strategy, binding) == facing_of(after, strategy, binding),
{
}

/// A pass over a scene in which every binding reads the poses that it read
/// before stages the same rotations and reports the same diagnostics.
pub proof fn law_unchanged_poses_same_pass(
    before: Map<EntityId, SceneRecord>,
    after: Map<EntityId, SceneRecord>,
    strategy: PoseStrategy,
    bindings: Seq<TargetBinding>,
)
    requires
        forall|i: int|
            0 <= i < bindings.len() ==> reads_same_poses(
                before,
                after,
                strategy,
                #[trigger] bindings[i],
            ),
    ensures
        staged_by_pass(before, strategy, bindings) == staged_by_pass(after, strategy, bindings),
        reported_by_pass(before, strategy, bindings) == reported_by_pass(
            after,
            strategy,
            bindings,
        ),
    decreases bindings.len(),
{
    if bindings.len() > 0 {
        let earlier = bindings.drop_last();
        assert forall|i: int| 0 <= i < earlier.len() implies reads_same_poses(
            before,
            after,
            strategy,
            #[trigger] earlier[i],
        ) by {
            assert(earlier[i] == bindings[i]);
        }
        law_unchanged_poses_same_pass(before, after, strategy, earlier);
    }
}

/// Where the recomputed poses are the poses of the last propagation, as in
/// a scene at rest in which no rotator hangs on another, both strategies
/// stage the same rotations and report the same diagnostics.
pub proof fn law_strategies_agree_on_settled_scene(
    scene: Map<EntityId, SceneRecord>,
    bindings: Seq<TargetBinding>,
)
    requires
        forall|i: int|
            0 <= i < bindings.len() ==> strategies_read_same_poses(scene, #[trigger] bindings[i]),
    ensures
        staged_by_pass(scene, PoseStrategy::TrustCached, bindings) == staged_by_pass(
            scene,
            PoseStrategy::ForceFresh,
            bindings,
        ),
        reported_by_pass(scene, PoseStrategy::TrustCached, bindings) == reported_by_pass(
            scene,
            PoseStrategy::ForceFresh,
            bindings,
        ),
    decreases bindings.len(),
{
    if bindings.len() > 0 {
        let earlier = bindings.drop_last();
        assert forall|i: int| 0 <= i < earlier.len() implies strategies_read_same_poses(
            scene,
            #[trigger] earlier[i],
        ) by {
            assert(earlier[i] == bindings[i]);
        }
        law_strategies_agree_on_settled_scene(scene, earlier);
    }
}

/// Whether a pass over `bindings` can serve a binding of `owner`.
pub open spec fn serves(
    scene: Map<EntityId, SceneRecord>,
    strategy: PoseStrategy,
    bindings: Seq<TargetBinding>,
    owner: EntityId,
) -> bool {
    exists|i: int|
        0 <= i < bindings.len() && (#[trigger] bindings[i]).owner == owner && facing_of(
            scene,
            strategy,
            bindings[i],
        ) is Ok
}

/// Whether a pass over `bindings` has to skip a binding of `owner`.
pub open spec fn skips(
    scene: Map<EntityId, SceneRecord>,
    strategy: PoseStrategy,
    bindings: Seq<TargetBinding>,
    owner: EntityId,
) -> bool {
    exists|i: int|
        0 <= i < bindings.len() && (#[trigger] bindings[i]).owner == owner && facing_of(
            scene,
            strategy,
            bindings[i],
        ) is Err
}

/// A pass stages at most one rotation for an entity, and stages one for
/// exactly the owners that it can serve.
pub proof fn lemma_staged_entities_are_served_owners(
    scene: Map<EntityId, SceneRecord>,
    strategy: PoseStrategy,
    bindings: Seq<TargetBinding>,
)
    ensures
        distinct_entities(staged_by_pass(scene, strategy, bindings)),
        forall|entity: EntityId|
            is_staged(staged_by_pass(scene, strategy, bindings), entity) <==> serves(
                scene,
                strategy,
                bindings,
                entity,
            ),
    decreases bindings.len(),
{
    let staged = staged_by_pass(scene, strategy, bindings);
    if bindings.len() > 0 {
        let earlier = bindings.drop_last();
        let last = bindings.last();
        let before = staged_by_pass(scene, strategy, earlier);
        lemma_staged_entities_are_served_owners(scene, strategy, earlier);
        if let Ok(rotation) = facing_of(scene, strategy, last) {
            lemma_with_staged_entities(before, last.owner, rotation);
        }
        assert forall|entity: EntityId| is_staged(staged, entity) implies serves(
            scene,
            strategy,
            bindings,
            entity,
        ) by {
            if is_staged(before, entity) {
                assert(serves(scene, strategy, earlier, entity));
                let i = choose|i: int|
                    0 <= i < earlier.len() && (#[trigger] earlier[i]).owner == entity && facing_of(
                        scene,
                        strategy,
                        earlier[i],
                    ) is Ok;
                assert(bindings[i] == earlier[i]);
            } else {
                assert(bindings[bindings.len() - 1] == last);
            }
        }
        assert forall|entity: EntityId| serves(scene, strategy, bindings, entity) implies is_staged(
            staged,
            entity,
        ) by {
            let i = choose|i: int|
                0 <= i < bindings.len() && (#[trigger] bindings[i]).owner == entity && facing_of(
                    scene,
                    strategy,
                    bindings[i],
                ) is Ok;
            if i < earlier.len() {
                assert(earlier[i] == bindings[i]);
                assert(serves(scene, strategy, earlier, entity));
            }
        }
    }
}

/// Where no two bindings share an owner, a binding that can be served has
/// exactly its rotation staged for its owner, and applying the staged
/// rotations leaves the owner with that rotation.
pub proof fn law_served_binding_is_staged(
    scene: Map<EntityId, SceneRecord>,
    strategy: PoseStrategy,
    bindings: Seq<TargetBinding>,
    k: int,
    locals: Map<EntityId, Quat>,
)
    requires
        distinct_owners(bindings),
        0 <= k < bindings.len(),
        facing_of(scene, strategy, bindings[k]) is Ok,
    ensures
        staged_rotation(staged_by_pass(scene, strategy, bindings), bindings[k].owner) == Some(
            facing_of(scene, strategy, bindings[k])->Ok_0,
        ),
        rotations_after(locals, staged_by_pass(scene, strategy, bindings))[bindings[k].owner]
            == facing_of(scene, strategy, bindings[k])->Ok_0,
    decreases bindings.len(),
{
    let staged = staged_by_pass(scene, strategy, bindings);
    let earlier = bindings.drop_last();
    let last = bindings.last();
    let before = staged_by_pass(scene, strategy, earlier);
    let owner = bindings[k].owner;
    lemma_staged_entities_are_served_owners(scene, strategy, earlier);
    lemma_staged_entities_are_served_owners(scene, strategy, bindings);
    if k == bindings.len() - 1 {
        lemma_with_staged_rotations(before, owner, facing_of(scene, strategy, last)->Ok_0, owner);
    } else {
        lemma_distinct_owners_without_last(bindings);
        law_served_binding_is_staged(scene, strategy, earlier, k, locals);
        assert(last.owner != owner);
        if let Ok(rotation) = facing_of(scene, strategy, last) {
            lemma_with_staged_rotations(before, last.owner, rotation, owner);
        }
    }
    lemma_staged_entity_gets_rotation(locals, staged, owner);
}

/// Where no two bindings share an owner, a pass reports exactly one
/// diagnostic about an owner whose binding it skips, which is the one that
/// says why, and none about any other entity.
pub proof fn lemma_one_report_for_each_skipped_binding(
    scene: Map<EntityId, SceneRecord>,
    strategy: PoseStrategy,
    bindings: Seq<TargetBinding>,
    owner: EntityId,
)
    requires
        distinct_owners(bindings),
    ensures
        reports_about(reported_by_pass(scene, strategy, bindings), owner) == (if skips(
            scene,
            strategy,
            bindings,
            owner,
        ) {
            1nat
        } else {
            0nat
        }),
        forall|i: int|
            0 <= i < bindings.len() && (#[trigger] bindings[i]).owner == owner && facing_of(
                scene,
                strategy,
                bindings[i],
            ) is Err ==> reported_by_pass(scene, strategy, bindings).contains(
                facing_of(scene, strategy, bindings[i])->Err_0,
            ),
    decreases bindings.len(),
{
    let report = reported_by_pass(scene, strategy, bindings);
    if bindings.len() > 0 {
        let earlier = bindings.drop_last();
        let last = bindings.last();
        let before = reported_by_pass(scene, strategy, earlier);
        lemma_distinct_owners_without_last(bindings);
        lemma_one_report_for_each_skipped_binding(scene, strategy, earlier, owner);
        if let Err(diagnostic) = facing_of(scene, strategy, last) {
            assert(report.drop_last() == before);
            assert(report.last() == diagnostic);
        }
        if skips(scene, strategy, earlier, owner) {
            let i = choose|i: int|
                0 <= i < earlier.len() && (#[trigger] earlier[i]).owner == owner && facing_of(
                    scene,
                    strategy,
                    earlier[i],
                ) is Err;
            assert(bindings[i] == earlier[i]);
            assert(last.owner != owner);
        } else if skips(scene, strategy, bindings, owner) {
            let i = choose|i: int|
                0 <= i < bindings.len() && (#[trigger] bindings[i]).owner == owner && facing_of(
                    scene,
                    strategy,
                    bindings[i],
                ) is Err;
            if i < earlier.len() {
                assert(earlier[i] == bindings[i]);
            }
            assert(bindings[i] == last);
        } else if last.owner == owner {
            assert(bindings[bindings.len() - 1] == last);
            assert(facing_of(scene, strategy, last) is Ok);
        }
        assert forall|i: int|
            0 <= i < bindings.len() && (#[trigger] bindings[i]).owner == owner && facing_of(
                scene,
                strategy,
                bindings[i],
            ) is Err implies report.contains(facing_of(scene, strategy, bindings[i])->Err_0) by {
            let found = facing_of(scene, strategy, bindings[i])->Err_0;
            if i < earlier.len() {
                assert(earlier[i] == bindings[i]);
                let j = choose|j: int| 0 <= j < before.len() && before[j] == found;
                assert(report[j] == found);
            } else {
                assert(report[report.len() - 1] == found);
            }
        }
    }
}

/// A binding whose target cannot be found leaves its owner alone: nothing
/// is staged for the owner, so applying the staged rotations leaves the
/// owner's local rotation as it was, and the report holds exactly one
/// diagnostic about the owner, which names the missing target. This holds
/// in every frame in which the target stays missing, where no two bindings
/// share an owner.
pub proof fn law_missing_target_leaves_rotator_untouched(
    scene: Map<EntityId, SceneRecord>,
    strategy: PoseStrategy,
    bindings: Seq<TargetBinding>,
    k: int,
    locals: Map<EntityId, Quat>,
)
    requires
        distinct_owners(bindings),
        0 <= k < bindings.len(),
        pose_in(scene, strategy, bindings[k].target) is None,
    ensures
        !is_staged(staged_by_pass(scene, strategy, bindings), bindings[k].owner),
        rotations_after(locals, staged_by_pass(scene, strategy, bindings)).contains_key(
            bindings[k].owner,
        ) == locals.contains_key(bindings[k].owner),
        rotations_after(locals, staged_by_pass(scene, strategy, bindings))[bindings[k].owner]
            == locals[bindings[k].owner],
        reports_about(reported_by_pass(scene, strategy, bindings), bindings[k].owner) == 1,
        reported_by_pass(scene, strategy, bindings).contains(
            Diagnostic::MissingTarget { owner: bindings[k].owner, target: bindings[k].target },
        ),
{
    let staged = staged_by_pass(scene, strategy, bindings);
    let owner = bindings[k].owner;
    assert(facing_of(scene, strategy, bindings[k]) is Err);
    assert(skips(scene, strategy, bindings, owner));
    lemma_staged_entities_are_served_owners(scene, strategy, bindings);
    if serves(scene, strategy, bindings, owner) {
        let i = choose|i: int|
            0 <= i < bindings.len() && (#[trigger] bindings[i]).owner == owner && facing_of(
                scene,
                strategy,
                bindings[i],
            ) is Ok;
        assert(i != k);
        assert(bindings[i].owner != bindings[k].owner);
    }
    lemma_unstaged_entity_keeps_rotation(locals, staged, owner);
    lemma_one_report_for_each_skipped_binding(scene, strategy, bindings, owner);
}

} // verus!
