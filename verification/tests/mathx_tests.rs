use dungeon_dice::mathx::{isqrt, random_vec3, thread_rng_handle, Vec3Fx};

#[test]
fn isqrt_exact_values() {
    assert_eq!(isqrt(0), 0);
    assert_eq!(isqrt(1), 1);
    assert_eq!(isqrt(3), 1);
    assert_eq!(isqrt(4), 2);
    assert_eq!(isqrt(24), 4);
    assert_eq!(isqrt(25), 5);
    assert_eq!(isqrt(2_000_000), 1414);
    assert_eq!(isqrt(3_000_000_000_000_000_000), 1_732_050_807);
}

#[test]
fn normalize_zero_is_zero() {
    let v = Vec3Fx { x: 0, y: 0, z: 0 };
    assert_eq!(v.normalize_or_zero(), v);
}

#[test]
fn normalize_axis_vector() {
    let v = Vec3Fx { x: 0, y: 0, z: -4000 };
    assert_eq!(v.normalize_or_zero(), Vec3Fx { x: 0, y: 0, z: -1000 });
}

#[test]
fn normalize_diagonal_vector() {
    let v = Vec3Fx { x: 3000, y: 0, z: 4000 };
    // magnitude 5000: components scale to 600 and 800 milli-units
    assert_eq!(v.normalize_or_zero(), Vec3Fx { x: 600, y: 0, z: 800 });
}

#[test]
fn scaling_truncates_toward_zero() {
    let v = Vec3Fx { x: -5, y: 5, z: -7 };
    assert_eq!(v.scale(1, 2), Vec3Fx { x: -2, y: 2, z: -3 });
}

#[test]
fn scale_by_zero_is_zero() {
    let v = Vec3Fx { x: 123, y: -456, z: 789 };
    assert_eq!(v.scale(0, 1000), Vec3Fx { x: 0, y: 0, z: 0 });
}

#[test]
fn vector_addition_is_componentwise() {
    let a = Vec3Fx { x: 1, y: -2, z: 3 };
    let b = Vec3Fx { x: 10, y: 20, z: -30 };
    assert_eq!(a.add(b), Vec3Fx { x: 11, y: 18, z: -27 });
}

#[test]
fn random_vec3_stays_in_unit_cube() {
    let mut rng = thread_rng_handle();
    for _ in 0..200 {
        let v = random_vec3(&mut rng);
        assert!((-1000..1000).contains(&v.x));
        assert!((-1000..1000).contains(&v.y));
        assert!((-1000..1000).contains(&v.z));
    }
}
