//! The local rotation that makes a rotator face its target.

use vstd::prelude::*;
use bevy::math::{Quat, Vec3};
use crate::math::{
    compose_rotations, inverse_rotation, invert_rotation, look_at, look_at_rotation,
    rotation_product,
};
use crate::pose::Pose;

verus! {

/// The rotation, in world space, of an observer standing where `rotator` is
/// and looking at where `target` is, with `up` as the vertical reference.
pub open spec fn world_rotation(rotator: Pose, target: Pose, up: Vec3) -> Quat {
    look_at_rotation(rotator.translation, target.translation, up)
}

/// The rotation to store in the rotator's local transform: the world
/// rotation itself where the rotator has no parent, and otherwise the world
/// rotation brought into the parent's space, that is the inverse of the
/// parent's world rotation applied after it.
pub open spec fn local_rotation(rotator: Pose, target: Pose, parent: Option<Pose>, up: Vec3) -> Quat {
    match parent {
        Some(parent_pose) => rotation_product(
            inverse_rotation(parent_pose.rotation),
            world_rotation(rotator, target, up),
        ),
        None => world_rotation(rotator, target, up),
    }
}

/// `world` as seen from inside a parent whose world rotation is
/// `parent_rotation`.
fn in_parent_space(parent_rotation: Quat, world: Quat) -> (local: Quat)
    ensures
        local == rotation_product(inverse_rotation(parent_rotation), world),
{
    compose_rotations(invert_rotation(parent_rotation), world)
}

/// Calculates the local rotation of a rotator towards a target, adjusting
/// for the rotation of its parent where it has one, with `up` as the up
/// reference. Only the two translations and the parent's rotation are
/// read. Nothing guards against a target that stands where the rotator
/// stands, or an `up` that runs along the line of sight: the arithmetic
/// then settles on an axis of its own choosing.
pub fn calculate_local_rotation_to_target(
    rotator: &Pose,
    target: &Pose,
    parent: Option<Pose>,
    up: Vec3,
) -> (rotation: Quat)
    ensures
        rotation == local_rotation(*rotator, *target, parent, up),
{
    let world = look_at(rotator.translation, target.translation, up);
    match parent {
        Some(parent_pose) => in_parent_space(parent_pose.rotation, world),
        None => world,
    }
}

} // verus!
