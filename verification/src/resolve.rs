//! From an up policy to the up reference of one facing computation.

use vstd::prelude::*;
use bevy::math::{Quat, Vec3};
use crate::binding::UpDirection;
use crate::math::{
    direction_vector, integer_vector, rotate_vector, rotated_vector, vector_of_direction,
    vector_of_integers,
};
use crate::pose::Pose;

verus! {

/// The world's vertical axis, `(0, 1, 0)`.
pub open spec fn world_vertical() -> Vec3 {
    integer_vector(0, 1, 0)
}

/// The direction in which the up axis of something turned by `rotation`
/// points.
pub open spec fn up_axis(rotation: Quat) -> Vec3 {
    rotated_vector(rotation, world_vertical())
}

/// The up reference that `policy` selects, given the target's pose and the
/// pose of the rotated entity's parent, where it has one.
pub open spec fn resolved_up(policy: UpDirection, target: Pose, parent: Option<Pose>) -> Vec3 {
    match policy {
        UpDirection::Target => up_axis(target.rotation),
        UpDirection::Dir(direction) => direction_vector(direction),
        UpDirection::Parent => match parent {
            Some(parent_pose) => up_axis(parent_pose.rotation),
            None => world_vertical(),
        },
    }
}

/// The world's vertical axis.
fn vertical_axis() -> (axis: Vec3)
    ensures
        axis == world_vertical(),
{
    vector_of_integers(0, 1, 0)
}

/// The up axis of `pose`.
fn up_axis_of(pose: &Pose) -> (axis: Vec3)
    ensures
        axis == up_axis(pose.rotation),
{
    rotate_vector(pose.rotation, vertical_axis())
}

/// Resolves `policy` to an up reference. The target's policy takes the
/// target's up axis, a fixed direction is handed through unchanged, and the
/// parent's policy takes the parent's up axis or, without a parent, the
/// world's vertical axis. There is no input on which this fails.
pub fn resolve_up_direction(policy: UpDirection, target: &Pose, parent: Option<Pose>) -> (up: Vec3)
    ensures
        up == resolved_up(policy, *target, parent),
{
    match policy {
        UpDirection::Target => up_axis_of(target),
        UpDirection::Dir(direction) => vector_of_direction(direction),
        UpDirection::Parent => match parent {
            Some(parent_pose) => up_axis_of(&parent_pose),
            None => vertical_axis(),
        },
    }
}

} // verus!
