//! Wandering enemies: every few seconds the motor picks a fresh random
//! direction, and each frame it turns the current direction into a
//! per-frame velocity with gravity applied.

use vstd::prelude::*;

verus! {

use crate::mathx::{lemma_scale_bounded, random_vec3, spec_scale, Vec3Fx, COORD_LIMIT};
use crate::player::{GRAVITY_MILLI_PER_S2, MAX_FRAME_MS};

/// How long a chosen wander direction is kept: 3 seconds.
pub const ENEMY_REDIRECT_INTERVAL_MS: u64 = 3_000;

/// The chosen direction is scaled by 3 when stored.
pub const ENEMY_DIR_SCALE: i64 = 3;

/// The stored direction is scaled by 2 (per second) when applied.
pub const ENEMY_SPEED_SCALE: i64 = 2;

/// Wander directions stay within this bound (three times the coordinate
/// limit).
pub const ENEMY_DIR_LIMIT: i64 = 3_000_000_000;

#[derive(Clone, Copy, PartialEq, Eq, Structural, Debug, Hash)]
pub enum EnemyKind {
    Skull,
}

/// An enemy entity's identity.
#[derive(Clone, Copy, PartialEq, Eq, Structural, Debug)]
pub struct Enemy {
    pub kind: EnemyKind,
}

/// The wander motor: the current direction and how long ago it was chosen.
#[derive(Clone, Copy, PartialEq, Eq, Structural, Debug)]
pub struct EnemyMotor {
    pub move_dir: Vec3Fx,
    pub time_since_chose_direction_ms: u64,
}

impl EnemyMotor {
    pub open spec fn wf(self) -> bool {
        self.move_dir.in_bounds(ENEMY_DIR_LIMIT as int)
    }
}

impl Default for EnemyMotor {
    fn default() -> (r: EnemyMotor)
        ensures
            r.move_dir == (Vec3Fx { x: 0i64, y: 0i64, z: 0i64 }),
            r.time_since_chose_direction_ms == 0,
            r.wf(),
    {
        EnemyMotor {
            move_dir: Vec3Fx { x: 0, y: 0, z: 0 },
            time_since_chose_direction_ms: 0,
        }
    }
}

/// One motor frame: when the redirect interval has elapsed, the random
/// direction (its vertical component replaced by the enemy's height) scaled
/// by three becomes the new direction and the timer restarts; the timer then
/// advances, and the frame's velocity is the direction scaled by two per
/// second plus the gravity contribution.
pub open spec fn spec_enemy_motor_step(
    m: EnemyMotor,
    pos_y: int,
    rand_dir: Vec3Fx,
    dt_ms: int,
) -> (EnemyMotor, Vec3Fx) {
    let (dir, t0) = if m.time_since_chose_direction_ms >= ENEMY_REDIRECT_INTERVAL_MS {
        (
            Vec3Fx {
                x: (rand_dir.x * ENEMY_DIR_SCALE) as i64,
                y: (pos_y * ENEMY_DIR_SCALE) as i64,
                z: (rand_dir.z * ENEMY_DIR_SCALE) as i64,
            },
            0,
        )
    } else {
        (m.move_dir, m.time_since_chose_direction_ms as int)
    };
    let m2 = EnemyMotor {
        move_dir: dir,
        time_since_chose_direction_ms: (t0 + dt_ms) as u64,
    };
    let base = spec_scale(dir, ENEMY_SPEED_SCALE * dt_ms, 1000);
    let velocity = Vec3Fx {
        x: base.x,
        y: (base.y - GRAVITY_MILLI_PER_S2 * dt_ms / 1000) as i64,
        z: base.z,
    };
    (m2, velocity)
}

/// Advance the wander motor by one frame with a given direction draw.
pub fn enemy_motor_step(
    motor: &mut EnemyMotor,
    pos_y: i64,
    rand_dir: Vec3Fx,
    dt_ms: u64,
) -> (velocity: Vec3Fx)
    requires
        old(motor).wf(),
        -COORD_LIMIT <= pos_y <= COORD_LIMIT,
        rand_dir.in_bounds(1000),
        dt_ms <= MAX_FRAME_MS,
        old(motor).time_since_chose_direction_ms + dt_ms <= u64::MAX,
    ensures
        ({
            let (m2, v) = spec_enemy_motor_step(*old(motor), pos_y as int, rand_dir, dt_ms as int);
            *final(motor) == m2 && velocity == v
        }),
        final(motor).wf(),
{
    if motor.time_since_chose_direction_ms >= ENEMY_REDIRECT_INTERVAL_MS {
        motor.move_dir = Vec3Fx {
            x: rand_dir.x * ENEMY_DIR_SCALE,
            y: pos_y * ENEMY_DIR_SCALE,
            z: rand_dir.z * ENEMY_DIR_SCALE,
        };
        motor.time_since_chose_direction_ms = 0;
    }
    motor.time_since_chose_direction_ms = motor.time_since_chose_direction_ms + dt_ms;
    proof {
        assert(-i64::MAX <= motor.move_dir.x * (ENEMY_SPEED_SCALE * dt_ms) <= i64::MAX
            && -i64::MAX <= motor.move_dir.y * (ENEMY_SPEED_SCALE * dt_ms) <= i64::MAX
            && -i64::MAX <= motor.move_dir.z * (ENEMY_SPEED_SCALE * dt_ms)
            <= i64::MAX) by (nonlinear_arith)
            requires
                -3_000_000_000 <= motor.move_dir.x <= 3_000_000_000,
                -3_000_000_000 <= motor.move_dir.y <= 3_000_000_000,
                -3_000_000_000 <= motor.move_dir.z <= 3_000_000_000,
                0 <= ENEMY_SPEED_SCALE * dt_ms <= 2_000_000_000,
        ;
    }
    let num: i64 = ENEMY_SPEED_SCALE * (dt_ms as i64);
    let base = motor.move_dir.scale(num, 1000);
    proof {
        assert((ENEMY_SPEED_SCALE * dt_ms) as int == num as int);
        lemma_scale_bounded(
            motor.move_dir,
            num as int,
            1000,
            ENEMY_DIR_LIMIT as int,
            6_000_000_000_000_000,
        );
        vstd::arithmetic::div_mod::lemma_div_pos_is_pos(9820 * dt_ms, 1000);
        vstd::arithmetic::div_mod::lemma_div_is_ordered(9820 * dt_ms, 9_820_000_000_000, 1000);
    }
    let g: i64 = GRAVITY_MILLI_PER_S2 * (dt_ms as i64) / 1000;
    Vec3Fx { x: base.x, y: base.y - g, z: base.z }
}

/// One motor frame drawing the direction from the thread-local generator:
/// whatever is drawn, the motor advances by the rules above for some
/// direction within the unit cube.
pub fn enemy_motor(
    motor: &mut EnemyMotor,
    pos_y: i64,
    rng: &mut rand::rngs::ThreadRng,
    dt_ms: u64,
) -> (velocity: Vec3Fx)
    requires
        old(motor).wf(),
        -COORD_LIMIT <= pos_y <= COORD_LIMIT,
        dt_ms <= MAX_FRAME_MS,
        old(motor).time_since_chose_direction_ms + dt_ms <= u64::MAX,
    ensures
        exists|rd: Vec3Fx|
            {
                &&& rd.in_bounds(1000)
                &&& ({
                    let (m2, v) = spec_enemy_motor_step(*old(motor), pos_y as int, rd, dt_ms as int);
                    *final(motor) == m2 && velocity == v
                })
            },
        final(motor).wf(),
{
    let rand_dir = random_vec3(rng);
    let velocity = enemy_motor_step(motor, pos_y, rand_dir, dt_ms);
    proof {
        let (m2, v) = spec_enemy_motor_step(*old(motor), pos_y as int, rand_dir, dt_ms as int);
        assert(rand_dir.in_bounds(1000) && *motor == m2 && velocity == v);
    }
    velocity
}

} // verus!
