//! Entities and their world-space poses.

use vstd::prelude::*;
use bevy::math::{Quat, Vec3};

verus! {

/// A handle into the scene store. The crate never owns an entity: a handle
/// is a key to look things up with, and the lookup may fail.
pub type EntityId = u64;

/// Where an entity is and how it is turned, in world space.
#[derive(Clone, Copy, Debug, PartialEq)]
pub struct Pose {
    pub translation: Vec3,
    pub rotation: Quat,
}

} // verus!
