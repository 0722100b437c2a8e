use bevy::math::{Dir3, Quat, Vec3};
use bevy_mod_lookat::{calculate_local_rotation_to_target, resolve_up_direction, Pose, UpDirection};

const TOLERANCE: f32 = 1e-4;

fn pose(x: f32, y: f32, z: f32) -> Pose {
    Pose { translation: Vec3::new(x, y, z), rotation: Quat::IDENTITY }
}

fn turned(x: f32, y: f32, z: f32, rotation: Quat) -> Pose {
    Pose { translation: Vec3::new(x, y, z), rotation }
}

fn bits(rotation: Quat) -> [u32; 4] {
    [rotation.x.to_bits(), rotation.y.to_bits(), rotation.z.to_bits(), rotation.w.to_bits()]
}

fn forward_of(rotation: Quat) -> Vec3 {
    rotation * Vec3::NEG_Z
}

fn angle(a: Vec3, b: Vec3) -> f32 {
    a.cross(b).length().atan2(a.dot(b))
}

fn same_turn(a: Quat, b: Quat) -> bool {
    a.abs_diff_eq(b, 1e-5) || a.abs_diff_eq(-b, 1e-5)
}

#[test]
fn target_policy_takes_the_targets_up_axis() {
    let roll = Quat::from_rotation_z(std::f32::consts::FRAC_PI_2);
    let target = turned(0.0, 0.0, -5.0, roll);
    let parent = turned(0.0, 0.0, 0.0, Quat::from_rotation_x(1.0));
    let up = resolve_up_direction(UpDirection::Target, &target, Some(parent));
    assert_eq!(up, roll * Vec3::Y);
    assert!((up - Vec3::NEG_X).length() < TOLERANCE);
}

#[test]
fn fixed_policy_hands_the_direction_through() {
    let direction = Dir3::new(Vec3::new(1.0, 2.0, 3.0)).unwrap();
    let target = turned(0.0, 0.0, -5.0, Quat::from_rotation_z(0.7));
    let parent = turned(0.0, 0.0, 0.0, Quat::from_rotation_x(1.0));
    assert_eq!(resolve_up_direction(UpDirection::Dir(direction), &target, None), direction.as_vec3());
    assert_eq!(
        resolve_up_direction(UpDirection::Dir(direction), &target, Some(parent)),
        direction.as_vec3()
    );
}

#[test]
fn parent_policy_takes_the_parents_up_axis() {
    let tilt = Quat::from_rotation_x(std::f32::consts::FRAC_PI_2);
    let target = turned(0.0, 0.0, -5.0, Quat::from_rotation_z(0.7));
    let parent = turned(1.0, 1.0, 1.0, tilt);
    let up = resolve_up_direction(UpDirection::Parent, &target, Some(parent));
    assert_eq!(up, tilt * Vec3::Y);
    assert!((up - Vec3::Z).length() < TOLERANCE);
}

#[test]
fn target_policy_of_unturned_target_is_vertical() {
    let up = resolve_up_direction(UpDirection::Target, &pose(3.0, 4.0, 5.0), None);
    assert_eq!(up, Vec3::Y);
}

#[test]
fn up_axis_follows_the_rotation() {
    let quarter = Quat::from_rotation_x(std::f32::consts::FRAC_PI_2);
    let target = turned(0.0, 0.0, 0.0, quarter);
    let up = resolve_up_direction(UpDirection::Target, &target, None);
    assert!((up - Vec3::Z).length() < TOLERANCE);
    assert!((up - Vec3::Y).length() > 1.0);
}

#[test]
fn parent_rotation_is_inverted_and_applied_on_the_left() {
    let parent_rotation = Quat::from_rotation_x(0.4) * Quat::from_rotation_y(1.3);
    let rotator = pose(1.0, -2.0, 0.5);
    let target = pose(4.0, 3.0, -6.0);
    let parent = turned(9.0, 9.0, 9.0, parent_rotation);
    let world = calculate_local_rotation_to_target(&rotator, &target, None, Vec3::Y);
    let local = calculate_local_rotation_to_target(&rotator, &target, Some(parent), Vec3::Y);
    assert_eq!(bits(local), bits(parent_rotation.inverse() * world));
    assert_ne!(bits(local), bits(world * parent_rotation.inverse()));
    assert_ne!(bits(local), bits(parent_rotation * world));
    assert_ne!(bits(local), bits(world));
    assert!(same_turn(parent_rotation * local, world));
}

#[test]
fn unturned_parent_keeps_the_world_rotation() {
    let rotator = pose(1.0, -2.0, 0.5);
    let target = pose(4.0, 3.0, -6.0);
    let world = calculate_local_rotation_to_target(&rotator, &target, None, Vec3::Y);
    let local = calculate_local_rotation_to_target(&rotator, &target, Some(pose(7.0, 7.0, 7.0)), Vec3::Y);
    assert!(same_turn(local, world));
}

#[test]
fn parent_policy_without_parent_is_the_vertical_axis() {
    let target = turned(0.0, 0.0, -5.0, Quat::from_rotation_z(0.7));
    assert_eq!(resolve_up_direction(UpDirection::Parent, &target, None), Vec3::Y);
}

#[test]
fn parent_policy_without_parent_matches_fixed_vertical() {
    let rotator = pose(1.0, 2.0, 3.0);
    let target = turned(-4.0, 0.5, 9.0, Quat::from_rotation_z(0.7));
    let by_parent = resolve_up_direction(UpDirection::Parent, &target, None);
    let by_fixed = resolve_up_direction(UpDirection::Dir(Dir3::Y), &target, None);
    assert_eq!(by_parent, by_fixed);
    let first = calculate_local_rotation_to_target(&rotator, &target, None, by_parent);
    let second = calculate_local_rotation_to_target(&rotator, &target, None, by_fixed);
    assert_eq!(bits(first), bits(second));
}

#[test]
fn facing_straight_ahead_needs_no_rotation() {
    let rotation =
        calculate_local_rotation_to_target(&pose(0.0, 0.0, 0.0), &pose(0.0, 0.0, -10.0), None, Vec3::Y);
    assert_eq!(rotation, Quat::IDENTITY);
}

#[test]
fn facing_backwards_is_a_half_turn_about_the_vertical() {
    let rotation =
        calculate_local_rotation_to_target(&pose(0.0, 0.0, 0.0), &pose(0.0, 0.0, 10.0), None, Vec3::Y);
    assert!(same_turn(rotation, Quat::from_rotation_y(std::f32::consts::PI)));
    assert!((forward_of(rotation) - Vec3::Z).length() < TOLERANCE);
}

#[test]
fn only_translations_of_rotator_and_target_are_read() {
    let plain = calculate_local_rotation_to_target(
        &pose(1.0, 2.0, 3.0),
        &pose(-2.0, 5.0, 7.0),
        None,
        Vec3::Y,
    );
    let spun = calculate_local_rotation_to_target(
        &turned(1.0, 2.0, 3.0, Quat::from_rotation_x(0.3)),
        &turned(-2.0, 5.0, 7.0, Quat::from_rotation_y(1.1)),
        None,
        Vec3::Y,
    );
    assert_eq!(bits(plain), bits(spun));
}

#[test]
fn matches_bevys_look_at_without_parent() {
    let rotator = pose(3.5, 0.5, 0.0);
    let target = pose(1.0, 0.5, 1.0);
    let up = Vec3::new(0.0, 0.0, 1.0);
    let expected = bevy::transform::components::Transform::from_translation(rotator.translation)
        .looking_at(target.translation, up)
        .rotation;
    let rotation = calculate_local_rotation_to_target(&rotator, &target, None, up);
    assert_eq!(bits(rotation), bits(expected));
}

#[test]
fn parent_offset_is_undone_by_the_parents_inverse() {
    let parent_rotation = Quat::from_rotation_y(std::f32::consts::FRAC_PI_2);
    let rotator = pose(0.0, 0.0, 0.0);
    let target = pose(0.0, 0.0, 10.0);
    let parent = turned(0.0, 0.0, 0.0, parent_rotation);
    let world = calculate_local_rotation_to_target(&rotator, &target, None, Vec3::Y);
    let local = calculate_local_rotation_to_target(&rotator, &target, Some(parent), Vec3::Y);
    assert_eq!(bits(local), bits(parent_rotation.inverse() * world));
    assert_ne!(bits(local), bits(world));
    assert!(same_turn(parent_rotation * local, world));
    assert!(same_turn(local, Quat::from_rotation_y(std::f32::consts::FRAC_PI_2)));
}

#[test]
fn forward_points_at_the_target_under_any_parent() {
    let rotators = [Vec3::new(0.0, 0.0, 0.0), Vec3::new(3.5, 0.5, 0.0), Vec3::new(-7.0, 2.0, 4.0)];
    let targets = [Vec3::new(1.0, 0.5, 1.0), Vec3::new(0.0, 9.0, -3.0), Vec3::new(-2.0, -6.0, 5.5)];
    let ups = [Vec3::Y, Vec3::X, Vec3::new(0.3, 0.8, -0.5).normalize()];
    let parents = [
        None,
        Some(Quat::from_rotation_y(std::f32::consts::FRAC_PI_2)),
        Some(Quat::from_rotation_x(0.7) * Quat::from_rotation_z(-2.1)),
    ];
    for from in rotators {
        for to in targets {
            for up in ups {
                for parent_rotation in parents {
                    let rotator = Pose { translation: from, rotation: Quat::from_rotation_x(0.2) };
                    let target = Pose { translation: to, rotation: Quat::IDENTITY };
                    let parent = parent_rotation
                        .map(|rotation| Pose { translation: Vec3::new(1.0, 1.0, 1.0), rotation });
                    let local = calculate_local_rotation_to_target(&rotator, &target, parent, up);
                    let world = parent_rotation.unwrap_or(Quat::IDENTITY) * local;
                    let wanted = (to - from).normalize();
                    assert!(angle(forward_of(world), wanted) < TOLERANCE);
                }
            }
        }
    }
}

#[test]
fn right_axis_is_orthogonal_to_a_fixed_up() {
    let directions = [
        Dir3::Y,
        Dir3::X,
        Dir3::new(Vec3::new(0.3, 0.8, -0.5)).unwrap(),
        Dir3::new(Vec3::new(-1.0, 1.0, 1.0)).unwrap(),
    ];
    let targets = [Vec3::new(1.0, 0.5, 1.0), Vec3::new(4.0, -9.0, -3.0), Vec3::new(-2.0, 0.0, 5.5)];
    let parents = [None, Some(Quat::from_rotation_y(1.0) * Quat::from_rotation_x(-0.6))];
    for direction in directions {
        for to in targets {
            for parent_rotation in parents {
                let rotator = pose(0.5, 0.25, -0.75);
                let target = Pose { translation: to, rotation: Quat::from_rotation_z(1.0) };
                let parent =
                    parent_rotation.map(|rotation| Pose { translation: Vec3::ZERO, rotation });
                let up = resolve_up_direction(UpDirection::Dir(direction), &target, parent);
                let local = calculate_local_rotation_to_target(&rotator, &target, parent, up);
                let world = parent_rotation.unwrap_or(Quat::IDENTITY) * local;
                let right = world * Vec3::X;
                assert!(right.dot(direction.as_vec3()).abs() < TOLERANCE);
            }
        }
    }
}

#[test]
fn repeated_calculation_is_bit_identical() {
    let rotator = pose(3.5, 0.5, 0.0);
    let target = pose(1.0, 0.5, 1.0);
    let parent = Some(turned(0.0, 0.0, 0.0, Quat::from_rotation_y(0.4)));
    let up = Vec3::new(0.0, 1.0, 0.0);
    let first = calculate_local_rotation_to_target(&rotator, &target, parent, up);
    let second = calculate_local_rotation_to_target(&rotator, &target, parent, up);
    assert_eq!(bits(first), bits(second));
}

#[test]
fn coincident_positions_still_give_a_rotation() {
    let here = pose(2.0, 2.0, 2.0);
    let rotation = calculate_local_rotation_to_target(&here, &here, None, Vec3::Y);
    assert!(rotation.is_finite());
    assert_eq!(rotation, Quat::IDENTITY);
}

#[test]
fn up_along_the_line_of_sight_still_gives_a_rotation() {
    let rotation =
        calculate_local_rotation_to_target(&pose(0.0, 0.0, 0.0), &pose(0.0, 5.0, 0.0), None, Vec3::Y);
    assert!(rotation.is_finite());
    assert!((forward_of(rotation) - Vec3::Y).length() < TOLERANCE);
}
