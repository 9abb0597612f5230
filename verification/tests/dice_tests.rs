use dungeon_dice::camera::CameraState;
use dungeon_dice::dice::{
    dice_settle_step, dice_system, get_dice_result, try_start_throw, Dice, Orientation,
};
use dungeon_dice::mathx::{thread_rng_handle, Vec3Fx};
use dungeon_dice::player::Player;

const ZERO: Vec3Fx = Vec3Fx { x: 0, y: 0, z: 0 };

#[test]
fn identity_orientation_rolls_one() {
    let o = Orientation::identity();
    assert_eq!(get_dice_result(&o), 1);
}

#[test]
fn half_turn_about_x_rolls_six() {
    let o = Orientation::identity().rotated_x_quarter().rotated_x_quarter();
    assert_eq!(get_dice_result(&o), 6);
}

#[test]
fn quarter_turn_about_z_rolls_five() {
    let o = Orientation::identity().rotated_z_quarter();
    assert_eq!(get_dice_result(&o), 5);
}

#[test]
fn three_quarter_turn_about_z_rolls_two() {
    let o = Orientation::identity()
        .rotated_z_quarter()
        .rotated_z_quarter()
        .rotated_z_quarter();
    assert_eq!(get_dice_result(&o), 2);
}

#[test]
fn quarter_turn_about_x_rolls_three() {
    let o = Orientation::identity().rotated_x_quarter();
    assert_eq!(get_dice_result(&o), 3);
}

#[test]
fn three_quarter_turn_about_x_rolls_four() {
    let o = Orientation::identity()
        .rotated_x_quarter()
        .rotated_x_quarter()
        .rotated_x_quarter();
    assert_eq!(get_dice_result(&o), 4);
}

#[test]
fn quarter_turn_about_y_keeps_one_up() {
    let o = Orientation::identity().rotated_y_quarter();
    assert_eq!(get_dice_result(&o), 1);
}

/// An orientation balanced so that no face's up-dot reaches the threshold
/// classifies as 0, the explicit "no clear face" value.
#[test]
fn edge_balance_classifies_as_zero() {
    let o = Orientation {
        x_axis: Vec3Fx { x: 1000, y: 0, z: 0 },
        y_axis: Vec3Fx { x: 0, y: 499, z: 867 },
        z_axis: Vec3Fx { x: 0, y: -499, z: 867 },
    };
    assert_eq!(get_dice_result(&o), 0);
}

#[test]
fn settles_at_exact_threshold_after_settle_time() {
    let mut dice = Dice::default();
    // linear velocity magnitude exactly 0.1 units; angular velocity zero
    let lin = Vec3Fx { x: 100, y: 0, z: 0 };
    assert!(!dice_settle_step(&mut dice, ZERO, lin, 100));
    assert!(!dice.rolled);
    assert_eq!(dice.since_landed_ms, 100);
    assert!(dice_settle_step(&mut dice, ZERO, lin, 100));
    assert!(dice.rolled);
}

#[test]
fn never_settles_just_above_threshold() {
    let mut dice = Dice::default();
    // linear velocity magnitude 0.11 units, squared 12100 > 10000
    let lin = Vec3Fx { x: 110, y: 0, z: 0 };
    for _ in 0..50 {
        assert!(!dice_settle_step(&mut dice, ZERO, lin, 100));
    }
    assert!(!dice.rolled);
    assert_eq!(dice.since_landed_ms, 0);
}

#[test]
fn angular_motion_alone_blocks_settling() {
    let mut dice = Dice::default();
    let ang = Vec3Fx { x: 0, y: 0, z: 200 };
    let lin = Vec3Fx { x: 10, y: 0, z: 0 };
    for _ in 0..10 {
        assert!(!dice_settle_step(&mut dice, ang, lin, 100));
    }
    assert!(!dice.rolled);
}

#[test]
fn two_triggers_in_one_window_make_one_dice() {
    let mut player = Player::default();
    let mut rng = thread_rng_handle();
    let eye_pos = Vec3Fx { x: 4000, y: 5700, z: 4000 };
    let fwd = Vec3Fx { x: 0, y: 0, z: -1000 };

    let first = try_start_throw(&mut player, eye_pos, fwd, true, &mut rng);
    assert!(first.is_some());
    assert!(player.dice_active);

    let second = try_start_throw(&mut player, eye_pos, fwd, true, &mut rng);
    assert!(second.is_none());
    assert!(player.dice_active);
}

#[test]
fn throw_after_resolution_succeeds() {
    let mut player = Player::default();
    let mut rng = thread_rng_handle();
    let eye_pos = Vec3Fx { x: 0, y: 700, z: 0 };
    let fwd = Vec3Fx { x: 0, y: 0, z: -1000 };

    assert!(try_start_throw(&mut player, eye_pos, fwd, true, &mut rng).is_some());
    assert!(try_start_throw(&mut player, eye_pos, fwd, true, &mut rng).is_none());

    // let the thrown dice settle and resolve
    let mut dice = Dice::default();
    let mut camera = CameraState::default();
    let o = Orientation::identity();
    let dice_pos = Vec3Fx { x: 2000, y: 250, z: -3000 };
    let outcome = dice_system(
        &mut dice, &mut player, &mut camera, &o, dice_pos, ZERO, ZERO, 200,
    );
    assert!(outcome.is_some());
    assert!(!player.dice_active);

    assert!(try_start_throw(&mut player, eye_pos, fwd, true, &mut rng).is_some());
}

#[test]
fn unpressed_trigger_starts_nothing() {
    let mut player = Player::default();
    let mut rng = thread_rng_handle();
    let r = try_start_throw(&mut player, ZERO, ZERO, false, &mut rng);
    assert!(r.is_none());
    assert!(!player.dice_active);
}

/// The throw's fixed parts are exact and its random parts stay in their
/// documented ranges, over many draws.
#[test]
fn throw_spec_shape_and_ranges() {
    let mut rng = thread_rng_handle();
    let eye_pos = Vec3Fx { x: 1000, y: 700, z: 0 };
    let fwd = Vec3Fx { x: 0, y: 0, z: -1000 };
    for _ in 0..100 {
        let mut player = Player::default();
        player.velocity = Vec3Fx { x: 1000, y: -50, z: 2000 };
        let t = try_start_throw(&mut player, eye_pos, fwd, true, &mut rng).unwrap();
        // spawn position: eye + forward * 1.5
        assert_eq!(t.spawn_pos, Vec3Fx { x: 1000, y: 700, z: -1500 });
        // impulse: (velocity with y forced to 0.07) * k + forward * 0.5,
        // with k drawn from [0.5, 6.5)
        let k = t.impulse.x; // velocity.x is 1000, so x component equals k
        assert!((500..6500).contains(&k));
        assert_eq!(t.impulse.y, 70 * k / 1000);
        assert_eq!(t.impulse.z, 2 * k - 500);
        // torque magnitude factor is under 0.3 on a unit-cube direction
        assert!(t.torque_impulse.x.abs() <= 300);
        assert!(t.torque_impulse.y.abs() <= 300);
        assert!(t.torque_impulse.z.abs() <= 300);
    }
}

#[test]
fn resolution_reports_value_and_starts_takeover() {
    let mut dice = Dice {
        rolled: false,
        since_landed_ms: 150,
    };
    let mut player = Player::default();
    player.dice_active = true;
    let mut camera = CameraState::default();
    let o = Orientation::identity().rotated_z_quarter();
    let dice_pos = Vec3Fx { x: 2000, y: 250, z: -3000 };

    let outcome = dice_system(
        &mut dice, &mut player, &mut camera, &o, dice_pos, ZERO, ZERO, 50,
    )
    .unwrap();

    assert_eq!(outcome.value, 5);
    assert_eq!(outcome.message_duration_ms, 3_000);
    assert_eq!(outcome.camera_jump, Vec3Fx { x: 2800, y: 1150, z: -2200 });
    assert_eq!(outcome.spotlight_pos, Vec3Fx { x: 2000, y: 1650, z: -3000 });
    assert!(dice.rolled);
    assert!(!player.dice_active);

    let scene = camera.scene_params.unwrap();
    assert_eq!(scene.target_position, dice_pos);
    assert_eq!(scene.pos_offset, Vec3Fx { x: 0, y: 1200, z: 0 });
    assert_eq!(scene.duration_ms, 2_000);
}

#[test]
fn resolved_dice_is_inert() {
    let mut dice = Dice {
        rolled: true,
        since_landed_ms: 500,
    };
    let mut player = Player::default();
    let mut camera = CameraState::default();
    let o = Orientation::identity();
    let outcome = dice_system(
        &mut dice, &mut player, &mut camera, &o, ZERO, ZERO, ZERO, 100,
    );
    assert!(outcome.is_none());
    assert_eq!(dice.since_landed_ms, 500);
    assert!(camera.scene_params.is_none());
}
