//! The vector and rotation arithmetic that the crate takes from `bevy`.
//!
//! `Vec3`, `Quat` and `Dir3` are bevy's own types. The verifier does not
//! look inside them: a value is only carried from one call to the next.
//! Each function below makes one call into bevy and is believed, not
//! proved. What a call returns is given a name, so that the contracts of
//! the crate can say which arithmetic produced a rotation.
//!
//! Every one of these calls computes its result from the components of its
//! arguments and from nothing else. glam chooses between its scalar and
//! its vectorised arithmetic when it is built, and the two may round a
//! product differently in the last place: a name stands for the arithmetic
//! of the build at hand.
//!
//! All of these calls return for every input as long as glam's optional
//! assertion features stay off, which is how this crate builds it.

use vstd::prelude::*;

use bevy::math::{Dir3, Quat, Vec3};

verus! {

#[verifier::external_type_specification]
#[verifier::external_body]
pub struct ExVec3(bevy::math::Vec3);

#[verifier::external_type_specification]
#[verifier::external_body]
pub struct ExQuat(bevy::math::Quat);

#[verifier::external_type_specification]
#[verifier::external_body]
pub struct ExDir3(bevy::math::Dir3);

/// The vector whose components are the three integers, each converted to
/// single precision. It lets a contract write a constant vector down, as in
/// `integer_vector(0, 1, 0)` for the vertical axis.
pub uninterp spec fn integer_vector(x: i32, y: i32, z: i32) -> Vec3;

/// The unit vector that a direction holds.
pub uninterp spec fn direction_vector(direction: Dir3) -> Vec3;

/// The vector `v` turned by the rotation `rotation`.
pub uninterp spec fn rotated_vector(rotation: Quat, v: Vec3) -> Vec3;

/// The rotation of an observer at `eye` whose forward axis points at
/// `target` and whose up axis leans towards `up`.
pub uninterp spec fn look_at_rotation(eye: Vec3, target: Vec3, up: Vec3) -> Quat;

/// The conjugate of `rotation`, which undoes it when it has unit length.
pub uninterp spec fn inverse_rotation(rotation: Quat) -> Quat;

/// The rotation that applies `second` first and `first` after it.
pub uninterp spec fn rotation_product(first: Quat, second: Quat) -> Quat;

/// Calls `IVec3::as_vec3` on the vector `(x, y, z)`. The conversion of an
/// integer to single precision is fixed by the language, so the result is
/// a function of the three integers.
#[verifier::external_body]
pub(crate) fn vector_of_integers(x: i32, y: i32, z: i32) -> (v: Vec3)
    ensures
        v == integer_vector(x, y, z),
{
    bevy::math::IVec3::new(x, y, z).as_vec3()
}

/// Calls `Dir3::as_vec3`, which hands out the vector stored in the
/// direction without touching it.
#[verifier::external_body]
pub(crate) fn vector_of_direction(direction: Dir3) -> (v: Vec3)
    ensures
        v == direction_vector(direction),
{
    direction.as_vec3()
}

/// Calls glam's `Quat * Vec3`, that is `Quat::mul_vec3`. The result is
/// computed from the components of the two arguments and nothing else.
#[verifier::external_body]
pub(crate) fn rotate_vector(rotation: Quat, v: Vec3) -> (r: Vec3)
    ensures
        r == rotated_vector(rotation, v),
{
    rotation * v
}

/// Calls `Transform::looking_at` on a transform placed at `eye` and takes
/// the rotation it arrives at. Bevy normalises `up` itself and falls back
/// to fixed axes where `eye` and `target` coincide or `up` is unusable, so
/// the call returns for every input.
#[verifier::external_body]
pub(crate) fn look_at(eye: Vec3, target: Vec3, up: Vec3) -> (r: Quat)
    ensures
        r == look_at_rotation(eye, target, up),
{
    bevy::transform::components::Transform::from_translation(eye).looking_at(target, up).rotation
}

/// Calls `Quat::inverse`, which returns the conjugate and does not
/// normalise.
#[verifier::external_body]
pub(crate) fn invert_rotation(rotation: Quat) -> (r: Quat)
    ensures
        r == inverse_rotation(rotation),
{
    rotation.inverse()
}

/// Calls glam's `Quat * Quat`, that is `Quat::mul_quat`. The result is
/// computed from the components of the two arguments and nothing else.
#[verifier::external_body]
pub(crate) fn compose_rotations(first: Quat, second: Quat) -> (r: Quat)
    ensures
        r == rotation_product(first, second),
{
    first * second
}

} // verus!
