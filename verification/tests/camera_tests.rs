use learn_opengl::camera::{Camera, FacingTrig, MoveDirection};
use learn_opengl::math::Vec3Fx;

fn camera_at_origin_height_three() -> Camera {
    Camera::new(Vec3Fx { x: 0, y: 0, z: 3_000 })
}

#[test]
fn new_camera_faces_negative_z() {
    let c = camera_at_origin_height_three();
    assert_eq!(c.position, Vec3Fx { x: 0, y: 0, z: 3_000 });
    assert_eq!(c.facing, Vec3Fx { x: 0, y: 0, z: -1_000 });
    assert_eq!(c.yaw_md, 270_000);
    assert_eq!(c.pitch_md, 0);
    assert_eq!(c.fov_md, 45_000);
    assert_eq!(c.last_cursor, None);
}

#[test]
fn first_look_only_seeds_the_cursor() {
    let mut c = camera_at_origin_height_three();
    c.apply_look(123_000, 456_000);
    assert_eq!(c.yaw_md, 270_000);
    assert_eq!(c.pitch_md, 0);
    assert_eq!(c.last_cursor, Some((123_000, 456_000)));
}

#[test]
fn second_look_turns_by_the_travel() {
    let mut c = camera_at_origin_height_three();
    c.apply_look(0, 0);
    // 20 pixels right, 10 pixels up: 1 degree of yaw, half a degree of pitch.
    c.apply_look(20_000, -10_000);
    assert_eq!(c.yaw_md, 271_000);
    assert_eq!(c.pitch_md, 500);
}

#[test]
fn pitch_clamps_at_sixty_degrees() {
    let mut c = camera_at_origin_height_three();
    c.apply_look(0, 0);
    c.apply_look(0, -100_000_000);
    assert_eq!(c.pitch_md, 60_000);
    c.apply_look(0, 100_000_000);
    assert_eq!(c.pitch_md, -60_000);
}

#[test]
fn yaw_wraps_around_full_turns() {
    let mut c = camera_at_origin_height_three();
    c.apply_look(0, 0);
    // 7300 pixels: 365 degrees of yaw; 270 + 365 wraps to 275.
    c.apply_look(7_300_000, 0);
    assert_eq!(c.yaw_md, 275_000);
}

#[test]
fn pitch_stays_in_range_under_many_large_looks() {
    let mut c = camera_at_origin_height_three();
    let samples: Vec<(i64, i64)> = vec![
        (0, 0),
        (1 << 40, -(1 << 45)),
        (-(1 << 41), 1 << 44),
        (999_999_999, -999_999_999),
        (-1, 1),
        (0, i64::MAX / 2),
        (0, i64::MIN / 2),
    ];
    for (x, y) in samples {
        c.apply_look(x, y);
        assert!(-60_000 <= c.pitch_md && c.pitch_md <= 60_000);
        assert!(0 <= c.yaw_md && c.yaw_md < 360_000);
    }
}

#[test]
fn zoom_narrows_and_clamps() {
    let mut c = camera_at_origin_height_three();
    c.apply_zoom(5_000);
    assert_eq!(c.fov_md, 40_000);
    c.apply_zoom(100_000);
    assert_eq!(c.fov_md, 1_000);
    c.apply_zoom(-100_000);
    assert_eq!(c.fov_md, 45_000);
}

#[test]
fn fov_stays_in_range_under_many_large_scrolls() {
    let mut c = camera_at_origin_height_three();
    let scrolls: Vec<i64> = vec![1 << 50, -(1 << 55), 1, -1, i64::MAX / 2, i64::MIN / 2, 44_000];
    for dy in scrolls {
        c.apply_zoom(dy);
        assert!(1_000 <= c.fov_md && c.fov_md <= 45_000);
    }
}

#[test]
fn one_second_forward_moves_two_and_a_half_units() {
    let mut c = camera_at_origin_height_three();
    c.apply_movement(MoveDirection::Forward, 1_000);
    assert_eq!(c.position, Vec3Fx { x: 0, y: 0, z: 500 });
}

#[test]
fn backward_undoes_forward() {
    let mut c = camera_at_origin_height_three();
    c.apply_movement(MoveDirection::Forward, 700);
    c.apply_movement(MoveDirection::Backward, 700);
    assert_eq!(c.position, Vec3Fx { x: 0, y: 0, z: 3_000 });
}

#[test]
fn strafe_right_of_negative_z_is_positive_x() {
    let mut c = camera_at_origin_height_three();
    c.apply_movement(MoveDirection::StrafeRight, 1_000);
    assert_eq!(c.position, Vec3Fx { x: 2_500, y: 0, z: 3_000 });
    c.apply_movement(MoveDirection::StrafeLeft, 1_000);
    assert_eq!(c.position, Vec3Fx { x: 0, y: 0, z: 3_000 });
}

#[test]
fn position_saturates_at_the_world_bound() {
    let mut c = camera_at_origin_height_three();
    // Head toward negative z for an absurdly long held key.
    c.apply_movement(MoveDirection::Forward, i64::MAX / 4);
    assert_eq!(c.position.z, -1_000_000_000_000);
}

#[test]
fn refresh_facing_combines_the_trig_samples() {
    let mut c = camera_at_origin_height_three();
    // Yaw 270 degrees, pitch 0: sin yaw -1, cos yaw 0.
    c.refresh_facing(FacingTrig { sin_yaw: -1_000, cos_yaw: 0, sin_pitch: 0, cos_pitch: 1_000 });
    assert_eq!(c.facing, Vec3Fx { x: 0, y: 0, z: -1_000 });
    // Yaw 0, pitch 30 degrees: cos pitch ~0.866, sin pitch 0.5.
    c.refresh_facing(FacingTrig { sin_yaw: 0, cos_yaw: 1_000, sin_pitch: 500, cos_pitch: 866 });
    assert_eq!(c.facing, Vec3Fx { x: 866, y: 500, z: 0 });
}

#[test]
fn view_matrix_of_axis_aligned_pose_is_scaled_identity_with_translation() {
    let c = camera_at_origin_height_three();
    // Looking from (0, 0, 3) along -z with up (0, 1, 0): the rotation part is
    // the identity and the translation moves the world by -3 units in z.
    let m = c.view_matrix();
    let expected: [i64; 16] = [
        1_000, 0, 0, 0,
        0, 1_000, 0, 0,
        0, 0, 1_000, 0,
        0, 0, -3_000, 1_000,
    ];
    assert_eq!(m.m, expected);
}

#[test]
fn view_matrix_translation_follows_the_position() {
    let mut c = Camera::new(Vec3Fx { x: 2_000, y: -5_000, z: 3_000 });
    let m = c.view_matrix();
    assert_eq!(m.m[12], -2_000);
    assert_eq!(m.m[13], 5_000);
    assert_eq!(m.m[14], -3_000);
    c.apply_movement(MoveDirection::Forward, 1_000);
    let m2 = c.view_matrix();
    assert_eq!(m2.m[14], -500);
}

#[test]
fn projection_matrix_has_the_standard_entries() {
    let c = camera_at_origin_height_three();
    // 800x600 viewport, near 0.1, far 100, fov 45 degrees:
    // cot(22.5 degrees) is about 2.414.
    let m = c.projection_matrix(800_000, 600_000, 100, 100_000, 2_414);
    assert_eq!(m.m[0], 1_810); // 2414 * 600000 / 800000
    assert_eq!(m.m[5], 2_414);
    assert_eq!(m.m[10], -1_002); // -(100100 * 1000) / 99900
    assert_eq!(m.m[11], -1_000);
    assert_eq!(m.m[14], -200); // -(2 * 100000 * 100) / 99900
    assert_eq!(m.m[15], 0);
    assert_eq!(m.m[1], 0);
    assert_eq!(m.m[12], 0);
}
