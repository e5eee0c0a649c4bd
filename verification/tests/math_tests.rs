use learn_opengl::math::{
    clamp_i128_to_i64, cross, div_trunc_i128, div_trunc_i64, dot, isqrt_u64, normalize, Vec3Fx,
};

#[test]
fn truncating_division_rounds_toward_zero() {
    assert_eq!(div_trunc_i64(7, 2), 3);
    assert_eq!(div_trunc_i64(-7, 2), -3);
    assert_eq!(div_trunc_i64(0, 5), 0);
    assert_eq!(div_trunc_i64(-1, 1_000), 0);
    assert_eq!(div_trunc_i128(-2_500_000_000, 1_000_000), -2_500);
}

#[test]
fn clamping_narrows_to_the_interval() {
    assert_eq!(clamp_i128_to_i64(5, -10, 10), 5);
    assert_eq!(clamp_i128_to_i64(-11, -10, 10), -10);
    assert_eq!(clamp_i128_to_i64(1 << 100, -10, 10), 10);
}

#[test]
fn integer_square_roots_are_exact_floors() {
    assert_eq!(isqrt_u64(0), 0);
    assert_eq!(isqrt_u64(1), 1);
    assert_eq!(isqrt_u64(3), 1);
    assert_eq!(isqrt_u64(4), 2);
    assert_eq!(isqrt_u64(999_999), 999);
    assert_eq!(isqrt_u64(1_000_000), 1_000);
    assert_eq!(isqrt_u64(u64::MAX), 4_294_967_295);
}

#[test]
fn dot_and_cross_products_match_hand_values() {
    let a = Vec3Fx { x: 1, y: 2, z: 3 };
    let b = Vec3Fx { x: -4, y: 5, z: 6 };
    assert_eq!(dot(&a, &b), -4 + 10 + 18);
    let c = cross(&a, &b);
    assert_eq!(c, Vec3Fx { x: 2 * 6 - 3 * 5, y: 3 * (-4) - 1 * 6, z: 1 * 5 - 2 * (-4) });
}

#[test]
fn normalize_rescales_to_one_unit() {
    let v = Vec3Fx { x: 3_000, y: 0, z: 4_000 };
    assert_eq!(normalize(&v), Vec3Fx { x: 600, y: 0, z: 800 });
    let w = Vec3Fx { x: 0, y: 0, z: -2 };
    assert_eq!(normalize(&w), Vec3Fx { x: 0, y: 0, z: -1_000 });
}
