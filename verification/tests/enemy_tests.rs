use dungeon_dice::enemy::{enemy_motor, enemy_motor_step, EnemyMotor};
use dungeon_dice::mathx::{thread_rng_handle, Vec3Fx};

#[test]
fn motor_keeps_direction_before_interval() {
    let mut motor = EnemyMotor::default();
    let rand_dir = Vec3Fx { x: 999, y: 999, z: 999 };
    let v = enemy_motor_step(&mut motor, 2_000, rand_dir, 16);
    // direction unchanged (zero), so only gravity applies
    assert_eq!(motor.move_dir, Vec3Fx { x: 0, y: 0, z: 0 });
    assert_eq!(motor.time_since_chose_direction_ms, 16);
    assert_eq!(v, Vec3Fx { x: 0, y: -157, z: 0 });
}

#[test]
fn motor_redirects_after_interval() {
    let mut motor = EnemyMotor {
        move_dir: Vec3Fx { x: 1, y: 2, z: 3 },
        time_since_chose_direction_ms: 3_000,
    };
    let rand_dir = Vec3Fx { x: 500, y: -200, z: 900 };
    let v = enemy_motor_step(&mut motor, 2_000, rand_dir, 16);
    // chosen direction: random x/z, own height as y, all tripled
    assert_eq!(motor.move_dir, Vec3Fx { x: 1_500, y: 6_000, z: 2_700 });
    assert_eq!(motor.time_since_chose_direction_ms, 16);
    // velocity: direction * 2 / s for 16 ms, plus gravity
    assert_eq!(v, Vec3Fx { x: 48, y: 192 - 157, z: 86 });
}

#[test]
fn motor_with_rng_stays_in_bounds() {
    let mut rng = thread_rng_handle();
    let mut motor = EnemyMotor {
        move_dir: Vec3Fx { x: 0, y: 0, z: 0 },
        time_since_chose_direction_ms: 3_000,
    };
    enemy_motor(&mut motor, 1_000, &mut rng, 16);
    assert!(motor.move_dir.x.abs() < 3_000);
    assert_eq!(motor.move_dir.y, 3_000);
    assert!(motor.move_dir.z.abs() < 3_000);
    assert_eq!(motor.time_since_chose_direction_ms, 16);
}
